use crate::message::{Action, EventView, MsgIn, OutboundView, PayloadView};
use crate::player::{distinct, has_joined, seat_of, PlayerView};
use crate::rules::{alive_seats, is_next_turn, rerolled, sits_out, GameView, Phase, Ruling};
use crate::text::idle_text;
use crate::wait_for_players_to_join::roster_step;
use vstd::prelude::*;

verus! {

/// The seats still in the game are finitely many, and no more than there
/// are seats.
pub proof fn lemma_alive_seats_finite(players: Seq<PlayerView>)
    ensures
        alive_seats(players).finite(),
        alive_seats(players).len() <= players.len(),
{
    vstd::set_lib::lemma_int_range(0, players.len() as int);
    vstd::set_lib::lemma_len_subset(
        alive_seats(players),
        vstd::set_lib::set_int_range(0, players.len() as int),
    );
}

/// While every player holds a die, every seat is still in the game.
pub proof fn lemma_all_alive(players: Seq<PlayerView>)
    requires
        forall|i: int| 0 <= i < players.len() ==> !(#[trigger] players[i]).is_eliminated(),
    ensures
        alive_seats(players).len() == players.len(),
{
    vstd::set_lib::lemma_int_range(0, players.len() as int);
    assert(alive_seats(players) =~= vstd::set_lib::set_int_range(0, players.len() as int));
}

/// A roll changes nothing about who is still in the game.
pub proof fn lemma_roll_keeps_seats(before: Seq<PlayerView>, after: Seq<PlayerView>)
    requires
        rerolled(before, after),
        before.len() > 0,
    ensures
        alive_seats(after) == alive_seats(before),
        forall|turn: nat| sits_out(after, turn) == sits_out(before, turn),
        forall|turn: nat, next: nat|
            is_next_turn(after, turn, next) == is_next_turn(before, turn, next),
{
    assert forall|turn: nat| sits_out(after, turn) == sits_out(before, turn) by {
        vstd::arithmetic::div_mod::lemma_mod_bound(turn as int, before.len() as int);
    }
}

/// When a player who is still in the game pays for a round, the number of
/// players left goes down by one if the player is left without a die, and
/// stays as it is otherwise. No other seat is touched.
pub proof fn lemma_settle_counts_once(players: Seq<PlayerView>, who: int, hand: Seq<u8>)
    requires
        0 <= who < players.len(),
        !players[who].is_eliminated(),
    ensures
        ({
            let settled = players.update(who, PlayerView { hand, ..players[who] });
            &&& alive_seats(settled).len() == alive_seats(players).len() - if hand.len() == 0 {
                1int
            } else {
                0int
            }
            &&& alive_seats(settled) == if hand.len() == 0 {
                alive_seats(players).remove(who)
            } else {
                alive_seats(players)
            }
        }),
{
    let settled = players.update(who, PlayerView { hand, ..players[who] });
    lemma_alive_seats_finite(players);
    if hand.len() == 0 {
        assert(alive_seats(settled) =~= alive_seats(players).remove(who));
    } else {
        assert(alive_seats(settled) =~= alive_seats(players));
    }
}

/// Two turn numbers less than a round of the table apart fall to different
/// seats.
pub proof fn lemma_seats_differ(turn: nat, next: nat, n: nat)
    requires
        turn < next < turn + n,
    ensures
        turn % n != next % n,
{
    vstd::arithmetic::div_mod::lemma_fundamental_div_mod(turn as int, n as int);
    vstd::arithmetic::div_mod::lemma_fundamental_div_mod(next as int, n as int);
    let a = (turn / n) as int;
    let b = (next / n) as int;
    if turn % n == next % n {
        assert(next - turn == n * (b - a)) by (nonlinear_arith)
            requires
                turn == n * a + (turn % n),
                next == n * b + (next % n),
                turn % n == next % n,
        ;
        assert(false) by (nonlinear_arith)
            requires
                next - turn == n * (b - a),
                0 < next - turn < n,
        ;
    }
}

/// Among any `n` turn numbers in a row, one falls to the seat `seat`.
pub proof fn lemma_seat_comes_round(turn: nat, n: nat, seat: int)
    requires
        0 <= seat < n,
    ensures
        exists|t: nat| turn < t <= turn + n && #[trigger] (t % n) == seat,
{
    let here = (turn % n) as int;
    let t: nat = if seat > here {
        (turn - here + seat) as nat
    } else {
        (turn - here + seat + n) as nat
    };
    assert(t % n == seat) by {
        vstd::arithmetic::div_mod::lemma_fundamental_div_mod(turn as int, n as int);
        let q = (turn / n) as int;
        let k = if seat > here {
            q
        } else {
            q + 1
        };
        assert(t == k * n + seat) by (nonlinear_arith)
            requires
                turn == n * q + here,
                t == if seat > here {
                    turn - here + seat
                } else {
                    turn - here + seat + n
                },
                k == if seat > here {
                    q
                } else {
                    q + 1
                },
        ;
        vstd::arithmetic::div_mod::lemma_fundamental_div_mod_converse(
            t as int,
            n as int,
            k,
            seat,
        );
    }
}

/// While a player is left in the game, the turn that follows `turn` comes
/// within one round of the table: turn numbers that all fall to empty seats
/// are fewer than there are seats.
pub proof fn lemma_someone_is_next(players: Seq<PlayerView>, turn: nat, upto: nat)
    requires
        alive_seats(players).len() > 0,
        turn < upto,
        forall|t: nat| turn < t <= upto ==> #[trigger] sits_out(players, t),
    ensures
        upto < turn + players.len(),
{
    lemma_alive_seats_finite(players);
    let seat = alive_seats(players).choose();
    assert(alive_seats(players).contains(seat));
    lemma_seat_comes_round(turn, players.len(), seat);
    let t = choose|t: nat| turn < t <= turn + players.len() && #[trigger] (t % players.len()) == seat;
    assert(!sits_out(players, t));
}

/// While two players are left in the game, the turn passes to another seat.
pub proof fn lemma_turn_passes_on(players: Seq<PlayerView>, turn: nat, next: nat)
    requires
        alive_seats(players).len() >= 2,
        is_next_turn(players, turn, next),
    ensures
        next % players.len() != turn % players.len(),
        next < turn + players.len(),
{
    lemma_alive_seats_finite(players);
    let n = players.len();
    let here = (turn % n) as int;
    let others = alive_seats(players).remove(here);
    assert(others.len() >= 1);
    let seat = others.choose();
    assert(others.contains(seat));
    lemma_seat_comes_round(turn, n, seat);
    let t = choose|t: nat| turn < t <= turn + n && #[trigger] (t % n) == seat;
    assert(!sits_out(players, t));
    assert(t != turn + n) by {
        if t == turn + n {
            vstd::arithmetic::div_mod::lemma_mod_add_multiples_vanish(turn as int, n as int);
        }
    }
    lemma_seats_differ(turn, next, n);
}

/// In a round that is on, the turn is with a seat of the table, and its
/// player is still in the game.
pub proof fn lemma_turn_is_with_a_player(game: GameView)
    requires
        game.valid(),
        game.phase != Phase::Joining,
    ensures
        0 <= game.seat() < game.number_of_players,
        !game.current().is_eliminated(),
{
    vstd::arithmetic::div_mod::lemma_mod_bound(game.turn as int, game.number_of_players as int);
}

/// A player is found at its own seat: the seat of the identity of the player
/// at `seat` is `seat`.
pub proof fn lemma_seat_of_player(players: Seq<PlayerView>, seat: int)
    requires
        distinct(players),
        0 <= seat < players.len(),
    ensures
        has_joined(players, players[seat].uuid),
        seat_of(players, players[seat].uuid) == seat,
{
}

/// Whatever ends a round is paid for by a player who is still in the game.
pub proof fn lemma_ruling_names_a_player(game: GameView, event: EventView)
    requires
        game.valid(),
        game.phase == Phase::AwaitingBid,
        game.ruling(event) is Some,
    ensures
        0 <= game.ruling(event).unwrap().who < game.number_of_players,
        !game.players[game.ruling(event).unwrap().who].is_eliminated(),
{
    lemma_turn_is_with_a_player(game);
}

/// A round leaves a valid game valid.
pub proof fn lemma_round_keeps_valid(game: GameView, who: int, lost: bool, next: GameView)
    requires
        game.valid(),
        game.phase == Phase::AwaitingBid,
        0 <= who < game.number_of_players,
        !game.players[who].is_eliminated(),
        game.round_leaves(who, lost, next),
    ensures
        next.valid(),
        next.players.len() == game.players.len(),
        alive_seats(next.players) == if game.settled(who, lost)[who].is_eliminated() {
            alive_seats(game.players).remove(who)
        } else {
            alive_seats(game.players)
        },
{
    let settled = game.settled(who, lost);
    let hand = settled[who].hand;
    lemma_settle_counts_once(game.players, who, hand);
    lemma_alive_seats_finite(game.players);
    if next.phase == Phase::AwaitingBid {
        lemma_roll_keeps_seats(settled, next.players);
    }
}

/// An event that does not end the round leaves a valid game valid, with the
/// same players in the game.
pub proof fn lemma_carry_keeps_valid(
    game: GameView,
    event: EventView,
    next: GameView,
    sent: Seq<OutboundView>,
)
    requires
        game.valid(),
        game.phase == Phase::AwaitingBid,
        game.ruling(event) is None,
        game.carries_on(event, next, sent),
    ensures
        next.valid(),
        next.players.len() == game.players.len(),
        alive_seats(next.players) == alive_seats(game.players),
{
    lemma_turn_is_with_a_player(game);
    match event {
        EventView::TimedOut => {},
        EventView::Message { uuid, name, payload } => {
            if has_joined(game.players, uuid) {
                match payload {
                    PayloadView::Admin(MsgIn::Connect) => {
                        assert(alive_seats(next.players) =~= alive_seats(game.players));
                        assert forall|i: int| 0 <= i < next.players.len() implies {
                            &&& (#[trigger] next.players[i]).uuid == game.players[i].uuid
                            &&& next.players[i].hand == game.players[i].hand
                        } by {}
                    },
                    PayloadView::Action(Action::IThinkThereAre { number, face }) => {
                        if uuid == game.current().uuid {
                            lemma_seat_of_player(game.players, game.seat());
                            lemma_turn_passes_on(game.players, game.turn, next.turn);
                            vstd::arithmetic::div_mod::lemma_mod_bound(
                                next.turn as int,
                                game.number_of_players as int,
                            );
                        }
                    },
                    _ => {},
                }
            }
        },
    }
}

/// A message or a time that runs out while players are joining leaves a
/// valid game valid.
pub proof fn lemma_join_keeps_valid(
    game: GameView,
    event: EventView,
    next: GameView,
    sent: Seq<OutboundView>,
)
    requires
        game.valid(),
        game.phase == Phase::Joining,
        game.joins(event, next, sent),
    ensures
        next.valid(),
{
    let joined = roster_step(game.players, event, game.starting_hand_size);
    if joined.len() == game.number_of_players && game.players.len() != joined.len() {
        lemma_all_alive(joined);
        lemma_roll_keeps_seats(joined, next.players);
        vstd::arithmetic::div_mod::lemma_mod_bound(1, game.number_of_players as int);
    }
}

/// Whatever happens, a valid game stays valid: every seat keeps its player,
/// the players left in the game are counted right, and while the game is on
/// the turn is with a player who still holds a die.
pub proof fn lemma_step_keeps_valid(
    game: GameView,
    event: EventView,
    next: GameView,
    sent: Seq<OutboundView>,
)
    requires
        game.valid(),
        game.steps_to(event, next, sent),
    ensures
        next.valid(),
{
    match game.phase {
        Phase::Joining => lemma_join_keeps_valid(game, event, next, sent),
        Phase::AwaitingBid => match game.ruling(event) {
            Some(ruling) => {
                lemma_ruling_names_a_player(game, event);
                lemma_round_keeps_valid(game, ruling.who, ruling.lost, next);
            },
            None => lemma_carry_keeps_valid(game, event, next, sent),
        },
        Phase::GameEnd => {},
    }
}

/// A player leaves the game once and is counted once: over any step of a
/// game that is on, no player comes back; at most one leaves; the number of
/// players left goes down by exactly the number of those who left; and the
/// one who left is the one who paid for the round with its last die.
pub proof fn lemma_eliminated_once(
    game: GameView,
    event: EventView,
    next: GameView,
    sent: Seq<OutboundView>,
)
    requires
        game.valid(),
        game.phase == Phase::AwaitingBid,
        game.steps_to(event, next, sent),
    ensures
        next.remaining == alive_seats(next.players).len(),
        alive_seats(next.players).subset_of(alive_seats(game.players)),
        alive_seats(game.players).difference(alive_seats(next.players)).len() == game.remaining
            - next.remaining,
        game.remaining - next.remaining <= 1,
        next.remaining < game.remaining ==> {
            &&& game.ruling(event) is Some
            &&& game.ruling(event).unwrap().lost
            &&& game.players[game.ruling(event).unwrap().who].hand.len() == 1
            &&& alive_seats(next.players) == alive_seats(game.players).remove(
                game.ruling(event).unwrap().who,
            )
        },
        !sits_out(next.players, next.turn),
{
    lemma_step_keeps_valid(game, event, next, sent);
    lemma_alive_seats_finite(game.players);
    match game.ruling(event) {
        Some(ruling) => {
            lemma_ruling_names_a_player(game, event);
            lemma_round_keeps_valid(game, ruling.who, ruling.lost, next);
            if game.settled(ruling.who, ruling.lost)[ruling.who].is_eliminated() {
                assert(alive_seats(game.players).difference(alive_seats(next.players)) =~= set![
                    ruling.who,
                ]);
            } else {
                assert(alive_seats(game.players).difference(alive_seats(next.players))
                    =~= Set::<int>::empty());
            }
        },
        None => {
            lemma_carry_keeps_valid(game, event, next, sent);
            assert(alive_seats(game.players).difference(alive_seats(next.players))
                =~= Set::<int>::empty());
        },
    }
}

/// A round is paid for by one player with one die: over a step that ends a
/// round, the one who pays holds one die less, or one die more if it won
/// and its hand was not full; every other player holds as many dice as
/// before; and every player keeps its seat, its identity and its name.
pub proof fn lemma_round_costs_one_die(
    game: GameView,
    event: EventView,
    next: GameView,
    sent: Seq<OutboundView>,
)
    requires
        game.valid(),
        game.phase == Phase::AwaitingBid,
        game.ruling(event) is Some,
        game.steps_to(event, next, sent),
    ensures
        next.players.len() == game.players.len(),
        forall|i: int|
            0 <= i < game.players.len() ==> {
                &&& (#[trigger] next.players[i]).uuid == game.players[i].uuid
                &&& next.players[i].name == game.players[i].name
                &&& next.players[i].hand.len() == game.players[i].hand.len() + if i
                    != game.ruling(event).unwrap().who {
                    0int
                } else if game.ruling(event).unwrap().lost {
                    -1int
                } else if game.players[i].hand.len() < game.starting_hand_size {
                    1int
                } else {
                    0int
                }
            },
{
    lemma_ruling_names_a_player(game, event);
    let ruling = game.ruling(event).unwrap();
    assert forall|i: int| 0 <= i < game.players.len() implies {
        &&& (#[trigger] next.players[i]).uuid == game.players[i].uuid
        &&& next.players[i].name == game.players[i].name
        &&& next.players[i].hand.len() == game.players[i].hand.len() + if i != ruling.who {
            0int
        } else if ruling.lost {
            -1int
        } else if game.players[i].hand.len() < game.starting_hand_size {
            1int
        } else {
            0int
        }
    } by {}
}

/// Letting the time run out costs what a lost challenge costs: the player
/// whose turn it is pays for the round with a die, and the game goes on as
/// after any round that this player lost. Where the bid holds, so that the
/// player would lose by calling the bidder a liar, the time that runs out
/// leaves the game as that call would, and says the same but for the
/// reason.
pub proof fn lemma_idle_costs_a_lost_challenge(
    game: GameView,
    name: Seq<char>,
    next: GameView,
    sent: Seq<OutboundView>,
)
    requires
        game.valid(),
        game.phase == Phase::AwaitingBid,
        game.steps_to(EventView::TimedOut, next, sent),
    ensures
        game.round_leaves(game.seat(), true, next),
        sent == game.round_says(game.idle_ruling(), next),
        game.idle_ruling().reason == idle_text(),
        game.actual() >= game.guess.number ==> ({
            let call = EventView::Message {
                uuid: game.current().uuid,
                name,
                payload: PayloadView::Action(Action::Liar),
            };
            &&& game.ruling(call) == Some(game.liar_ruling())
            &&& game.idle_ruling() == Ruling { reason: idle_text(), ..game.liar_ruling() }
            &&& game.steps_to(call, next, game.round_says(game.liar_ruling(), next))
        }),
{
}

/// A run goes on by one event: where `events` leave the game as `mid`, and
/// one more event leaves `mid` as `next`, the events with that one more
/// leave the game as `next`, with everything said in its order.
pub proof fn lemma_run_goes_on(
    game: GameView,
    events: Seq<EventView>,
    mid: GameView,
    said: Seq<OutboundView>,
    event: EventView,
    next: GameView,
    told: Seq<OutboundView>,
)
    requires
        game.runs_to(events, mid, said),
        mid.phase != Phase::GameEnd,
        mid.has_turns_left(),
        mid.steps_to(event, next, told),
    ensures
        game.runs_to(events.push(event), next, said + told),
{
    let longer = events.push(event);
    assert(longer.drop_last() =~= events);
    assert(mid.steps_to(longer.last(), next, told));
}

/// A run keeps a valid game valid.
pub proof fn lemma_run_keeps_valid(
    game: GameView,
    events: Seq<EventView>,
    next: GameView,
    sent: Seq<OutboundView>,
)
    requires
        game.valid(),
        game.runs_to(events, next, sent),
    ensures
        next.valid(),
    decreases events.len(),
{
    if events.len() > 0 {
        let (mid, said, told) = choose|
            mid: GameView,
            said: Seq<OutboundView>,
            told: Seq<OutboundView>,
        |
            {
                &&& game.runs_to(events.drop_last(), mid, said)
                &&& mid.phase != Phase::GameEnd
                &&& mid.has_turns_left()
                &&& #[trigger] mid.steps_to(events.last(), next, told)
                &&& sent == #[trigger] (said + told)
            };
        lemma_run_keeps_valid(game, events.drop_last(), mid, said);
        lemma_step_keeps_valid(mid, events.last(), next, told);
    }
}

/// The time allowed for a turn is not renewed by what does not end the
/// turn: while a round is on, a message from anybody but the player whose
/// turn it is, and a message of that player that is no action, leave the
/// turn and its time as they are. The time starts anew only with a turn
/// that has begun.
pub proof fn lemma_deadline_stands(
    game: GameView,
    event: EventView,
    next: GameView,
    sent: Seq<OutboundView>,
)
    requires
        game.valid(),
        game.phase == Phase::AwaitingBid,
        game.steps_to(event, next, sent),
    ensures
        event matches EventView::Message { uuid, name, payload } && (uuid != game.current().uuid
            || payload !is Action) ==> next.turn == game.turn && !game.rearms(next),
        game.rearms(next) ==> next.turn > game.turn,
        next.turn != game.turn ==> game.rearms(next) || next.phase == Phase::GameEnd,
{
}

} // verus!
