use crate::guess::{Guess, InvalidBid};
use vstd::prelude::*;
use vstd::string::*;

verus! {

/// The character that stands for the digit `d`.
pub open spec fn digit(d: nat) -> char {
    if d == 0 {
        '0'
    } else if d == 1 {
        '1'
    } else if d == 2 {
        '2'
    } else if d == 3 {
        '3'
    } else if d == 4 {
        '4'
    } else if d == 5 {
        '5'
    } else if d == 6 {
        '6'
    } else if d == 7 {
        '7'
    } else if d == 8 {
        '8'
    } else {
        '9'
    }
}

/// `n` written in base ten, without leading zeros.
pub open spec fn decimal(n: nat) -> Seq<char>
    decreases n,
{
    if n < 10 {
        seq![digit(n)]
    } else {
        decimal(n / 10).push(digit(n % 10))
    }
}

fn digit_str(d: u128) -> (text: &'static str)
    requires
        d < 10,
    ensures
        text@ == seq![digit(d as nat)],
{
    proof {
        reveal_strlit("0");
        reveal_strlit("1");
        reveal_strlit("2");
        reveal_strlit("3");
        reveal_strlit("4");
        reveal_strlit("5");
        reveal_strlit("6");
        reveal_strlit("7");
        reveal_strlit("8");
        reveal_strlit("9");
    }
    let text = if d == 0 {
        "0"
    } else if d == 1 {
        "1"
    } else if d == 2 {
        "2"
    } else if d == 3 {
        "3"
    } else if d == 4 {
        "4"
    } else if d == 5 {
        "5"
    } else if d == 6 {
        "6"
    } else if d == 7 {
        "7"
    } else if d == 8 {
        "8"
    } else {
        "9"
    };
    text
}

/// Writes `n` in base ten.
pub fn to_decimal(n: u128) -> (text: String)
    ensures
        text@ == decimal(n as nat),
    decreases n,
{
    if n < 10 {
        let text = String::from_str(digit_str(n));
        text
    } else {
        let mut text = to_decimal(n / 10);
        text.append(digit_str(n % 10));
        text
    }
}

/// Why a raise from `previous` to `next` that breaks the rule `broken` is
/// refused.
pub open spec fn invalid_bid_reason(broken: InvalidBid, previous: Guess, next: Guess) -> Seq<char> {
    match broken {
        InvalidBid::Face => "Face must be between 1 and 6"@,
        InvalidBid::NotIncreased { benchmark } => "Number `"@ + decimal(benchmark as nat) + "<"@
            + decimal(next.number as nat) + "` or Face `"@ + decimal(previous.face as nat) + "<"@
            + decimal(next.face as nat) + "` must be increased!"@,
        InvalidBid::JokerNumber => "Number must be increased on Joker bid!"@,
        InvalidBid::JokerDouble =>
            "Number must be Double +1 or higher on Joker bid when changing Face!"@,
    }
}

/// What a refused raise is called in the result of the round that it ends.
pub open spec fn invalid_bid_text(reason: Seq<char>) -> Seq<char> {
    "they placed an InvalidBid: "@ + reason
}

/// How `actual` dice that count compare with the bid `guess`.
pub open spec fn count_text(actual: nat, guess: Guess) -> Seq<char> {
    if actual < guess.number {
        "there is less `"@ + decimal(actual) + "` face `"@ + decimal(guess.face as nat)
            + "` than guessed `"@ + decimal(guess.number as nat) + "`"@
    } else if actual == guess.number {
        "there are exactly `"@ + decimal(actual) + "` face `"@ + decimal(guess.face as nat) + "`"@
    } else {
        "there are more `"@ + decimal(actual) + "` face `"@ + decimal(guess.face as nat)
            + "` than guessed `"@ + decimal(guess.number as nat) + "`"@
    }
}

/// What is said of a player who let the time for its turn run out.
pub open spec fn idle_text() -> Seq<char> {
    "they did not act in time."@
}

/// The result of a round in which the player `name` lost a die.
pub open spec fn lost_text(name: Seq<char>, reason: Seq<char>) -> Seq<char> {
    "Player `"@ + name + "` lost one die because "@ + reason
}

/// The result of a round in which the player `name` won a die.
pub open spec fn gained_text(name: Seq<char>, reason: Seq<char>) -> Seq<char> {
    "Player `"@ + name + "` gained one extra die because "@ + reason
}

/// The result of a round in which the player `name` won a die and could not
/// take it, with a hand that was full.
pub open spec fn full_text(name: Seq<char>, reason: Seq<char>) -> Seq<char> {
    "Player `"@ + name + "` holds every die already and gained none because "@ + reason
}

/// What is answered, while players are joining, to a message that can be
/// read but does not ask to join.
pub open spec fn not_connect_text() -> Seq<char> {
    "unknown variant, expected `Connect`"@
}

fn append_decimal(text: &mut String, n: u128)
    ensures
        final(text)@ == old(text)@ + decimal(n as nat),
{
    let digits = to_decimal(n);
    text.append(digits.as_str());
}

/// Writes out why a raise from `previous` to `next` that breaks the rule
/// `broken` is refused.
pub fn invalid_bid_reason_string(broken: InvalidBid, previous: Guess, next: Guess) -> (text: String)
    ensures
        text@ == invalid_bid_reason(broken, previous, next),
{
    match broken {
        InvalidBid::Face => String::from_str("Face must be between 1 and 6"),
        InvalidBid::NotIncreased { benchmark } => {
            let mut text = String::from_str("Number `");
            append_decimal(&mut text, benchmark as u128);
            text.append("<");
            append_decimal(&mut text, next.number as u128);
            text.append("` or Face `");
            append_decimal(&mut text, previous.face as u128);
            text.append("<");
            append_decimal(&mut text, next.face as u128);
            text.append("` must be increased!");
            text
        },
        InvalidBid::JokerNumber => String::from_str("Number must be increased on Joker bid!"),
        InvalidBid::JokerDouble => String::from_str(
            "Number must be Double +1 or higher on Joker bid when changing Face!",
        ),
    }
}

/// Writes out what a refused raise is called in the result of its round.
pub fn invalid_bid_string(reason: &str) -> (text: String)
    ensures
        text@ == invalid_bid_text(reason@),
{
    let mut text = String::from_str("they placed an InvalidBid: ");
    text.append(reason);
    text
}

/// Writes out how `actual` dice that count compare with the bid `guess`.
pub fn count_string(actual: u128, guess: Guess) -> (text: String)
    ensures
        text@ == count_text(actual as nat, guess),
{
    let number = guess.number as u128;
    let mut text = if actual < number {
        String::from_str("there is less `")
    } else if actual == number {
        String::from_str("there are exactly `")
    } else {
        String::from_str("there are more `")
    };
    append_decimal(&mut text, actual);
    text.append("` face `");
    append_decimal(&mut text, guess.face as u128);
    if actual != number {
        text.append("` than guessed `");
        append_decimal(&mut text, number);
    }
    text.append("`");
    text
}

/// Writes out what is said of a player who let its time run out.
pub fn idle_string() -> (text: String)
    ensures
        text@ == idle_text(),
{
    String::from_str("they did not act in time.")
}

/// Writes out the result of a round in which the player `name` lost a die.
pub fn lost_string(name: &str, reason: &str) -> (text: String)
    ensures
        text@ == lost_text(name@, reason@),
{
    let mut text = String::from_str("Player `");
    text.append(name);
    text.append("` lost one die because ");
    text.append(reason);
    text
}

/// Writes out the result of a round in which the player `name` won a die.
pub fn gained_string(name: &str, reason: &str) -> (text: String)
    ensures
        text@ == gained_text(name@, reason@),
{
    let mut text = String::from_str("Player `");
    text.append(name);
    text.append("` gained one extra die because ");
    text.append(reason);
    text
}

/// Writes out the result of a round in which the player `name` won a die
/// and could not take it.
pub fn full_string(name: &str, reason: &str) -> (text: String)
    ensures
        text@ == full_text(name@, reason@),
{
    let mut text = String::from_str("Player `");
    text.append(name);
    text.append("` holds every die already and gained none because ");
    text.append(reason);
    text
}

/// Writes out the answer to a message that does not ask to join.
pub fn not_connect_string() -> (text: String)
    ensures
        text@ == not_connect_text(),
{
    String::from_str("unknown variant, expected `Connect`")
}

} // verus!
