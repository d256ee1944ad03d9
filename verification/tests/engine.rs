use liars_dice::game::{Game, GameConfig};
use liars_dice::guess::Guess;
use liars_dice::message::{Action, Event, MsgIn, MsgOut, Outbound, Payload, Recipient};
use liars_dice::rules::{judge_exactly, judge_liar, Payer, Phase, Verdict};
use rand::rngs::StdRng;
use rand::SeedableRng;

const ADA: u128 = 0xa;
const BOB: u128 = 0xb;
const CY: u128 = 0xc;
const EVE: u128 = 0xe;

fn config(number_of_players: usize, starting_hand_size: usize) -> GameConfig {
    GameConfig { turn_duration_ms: 20000, number_of_players, starting_hand_size }
}

fn says(uuid: u128, name: &str, payload: Payload) -> Event {
    Event::Message { uuid, name: name.to_string(), payload }
}

fn connect(uuid: u128, name: &str) -> Event {
    says(uuid, name, Payload::Admin(MsgIn::Connect))
}

fn raise(uuid: u128, number: u8, face: u8) -> Event {
    says(uuid, "", Payload::Action(Action::IThinkThereAre { number, face }))
}

fn liar(uuid: u128) -> Event {
    says(uuid, "", Payload::Action(Action::Liar))
}

fn exactly(uuid: u128) -> Event {
    says(uuid, "", Payload::Action(Action::Exactly))
}

fn step(game: &mut Game, event: &Event) -> Vec<Outbound> {
    assert!(game.can_step());
    game.step(event).sent
}

fn to(uuid: u128, msg: MsgOut) -> Outbound {
    Outbound { to: Recipient::Player(uuid), msg }
}

fn all(msg: MsgOut) -> Outbound {
    Outbound { to: Recipient::Everyone, msg }
}

/// A game that Ada and Bob, and Cy where there are three, have joined.
fn started(seed: u64, number_of_players: usize, starting_hand_size: usize) -> Game {
    let mut game = Game::new(
        config(number_of_players, starting_hand_size),
        StdRng::seed_from_u64(seed),
    );
    let joiners = [(ADA, "Ada"), (BOB, "Bob"), (CY, "Cy")];
    for (uuid, name) in joiners.iter().take(number_of_players) {
        step(&mut game, &connect(*uuid, name));
    }
    game
}

fn hands(game: &Game) -> Vec<Vec<u8>> {
    game.players().values().map(|player| player.hand.faces()).collect()
}

fn sizes(game: &Game) -> Vec<usize> {
    game.players().values().map(|player| player.hand.dice.len()).collect()
}

fn revealed(game: &Game) -> Vec<(String, Vec<u8>)> {
    game.players().values().map(|player| (player.name.clone(), player.hand.faces())).collect()
}

fn counting(game: &Game, face: u8) -> usize {
    hands(game).iter().flatten().filter(|shown| **shown == face || **shown == 1).count()
}

/// The first seed from which the dice of a fresh game for two, with five
/// dice each, hold `wanted` that count towards `face`.
fn seed_with(face: u8, wanted: usize) -> u64 {
    for seed in 0..100_000 {
        if counting(&started(seed, 2, 5), face) == wanted {
            return seed;
        }
    }
    panic!("no seed rolls {wanted} dice towards {face}");
}

#[test]
fn a_new_game_waits_for_its_players() {
    let game = Game::new(config(2, 5), StdRng::seed_from_u64(1));
    assert_eq!(game.phase(), Phase::Joining);
    assert_eq!(game.turn_number(), 0);
    assert_eq!(game.current_guess(), Guess::start());
    assert_eq!(game.number_of_remaining_players(), 2);
    assert_eq!(game.players().len(), 0);
    assert_eq!(game.config().number_of_players, 2);
    assert_eq!(game.config().starting_hand_size, 5);
    assert_eq!(game.config().turn_duration_ms, 20000);
    assert!(game.can_step());
}

#[test]
fn the_game_starts_with_the_player_that_completes_the_roster() {
    let mut game = Game::new(config(2, 3), StdRng::seed_from_u64(5));
    let sent = step(&mut game, &connect(ADA, "Ada"));
    assert_eq!(sent, vec![to(ADA, MsgOut::Connected { number_of_players: 2, already_connected: 1 })]);
    assert_eq!(game.phase(), Phase::Joining);
    assert_eq!(step(&mut game, &connect(ADA, "Ada")), vec![to(ADA, MsgOut::AlreadyConnected)]);
    assert_eq!(step(&mut game, &Event::TimedOut), Vec::new());
    assert_eq!(
        step(&mut game, &says(EVE, "Eve", Payload::Unknown("bad".to_string()))),
        vec![to(EVE, MsgOut::UnknownMessage("bad".to_string()))]
    );
    assert_eq!(game.phase(), Phase::Joining);

    let sent = step(&mut game, &connect(BOB, "Bob"));
    let rolled = hands(&game);
    assert_eq!(
        sent,
        vec![
            to(BOB, MsgOut::Connected { number_of_players: 2, already_connected: 2 }),
            all(MsgOut::GameStarted),
            to(ADA, MsgOut::YouRolled { hand: rolled[0].clone() }),
            to(BOB, MsgOut::YouRolled { hand: rolled[1].clone() }),
            all(MsgOut::Turn { turn: 1, number: 0, face: 1, next_player: "Bob".to_string() }),
        ]
    );
    assert_eq!(game.phase(), Phase::AwaitingBid);
    assert_eq!(game.turn_number(), 1);
    assert_eq!(game.current_guess(), Guess::start());
    assert_eq!(game.number_of_remaining_players(), 2);
    assert_eq!(sizes(&game), vec![3, 3]);
    assert!(rolled.iter().flatten().all(|face| 1 <= *face && *face <= 6));
    assert_eq!(game.get_current_player().uuid, BOB);
}

#[test]
fn a_game_for_one_is_over_as_it_starts() {
    let mut game = Game::new(config(1, 2), StdRng::seed_from_u64(5));
    let sent = step(&mut game, &connect(ADA, "Ada"));
    let rolled = hands(&game);
    assert_eq!(
        sent,
        vec![
            to(ADA, MsgOut::Connected { number_of_players: 1, already_connected: 1 }),
            all(MsgOut::GameStarted),
            to(ADA, MsgOut::YouRolled { hand: rolled[0].clone() }),
            all(MsgOut::Turn { turn: 1, number: 0, face: 1, next_player: "Ada".to_string() }),
            all(MsgOut::GameEnded { winner: "Ada".to_string() }),
        ]
    );
    assert_eq!(game.phase(), Phase::GameEnd);
    assert_eq!(step(&mut game, &liar(ADA)), Vec::new());
}

#[test]
fn a_stranger_is_told_that_the_game_has_started() {
    let mut game = started(3, 2, 5);
    let before = hands(&game);
    assert_eq!(step(&mut game, &connect(EVE, "Eve")), vec![to(EVE, MsgOut::GameAlreadyStarted)]);
    assert_eq!(step(&mut game, &liar(EVE)), vec![to(EVE, MsgOut::GameAlreadyStarted)]);
    assert_eq!(hands(&game), before);
    assert_eq!(game.turn_number(), 1);
    assert_eq!(game.players().len(), 2);
}

#[test]
fn an_action_out_of_turn_is_refused() {
    let mut game = started(3, 2, 5);
    let before = hands(&game);
    assert_eq!(step(&mut game, &raise(ADA, 1, 2)), vec![to(ADA, MsgOut::NotYourTurn)]);
    assert_eq!(step(&mut game, &liar(ADA)), vec![to(ADA, MsgOut::NotYourTurn)]);
    assert_eq!(step(&mut game, &exactly(ADA)), vec![to(ADA, MsgOut::NotYourTurn)]);
    assert_eq!(hands(&game), before);
    assert_eq!(game.turn_number(), 1);
    assert_eq!(game.current_guess(), Guess::start());
    assert_eq!(game.get_current_player().uuid, BOB);
}

#[test]
fn a_player_who_connects_again_takes_the_name_it_gives() {
    let mut game = started(3, 2, 5);
    let before = hands(&game);
    assert_eq!(step(&mut game, &connect(ADA, "Ada L.")), vec![to(ADA, MsgOut::Reconnected)]);
    assert_eq!(step(&mut game, &connect(BOB, "Robert")), vec![to(BOB, MsgOut::Reconnected)]);
    let names: Vec<String> = game.players().values().map(|player| player.name.clone()).collect();
    assert_eq!(names, vec!["Ada L.", "Robert"]);
    assert_eq!(hands(&game), before);
    assert_eq!(game.turn_number(), 1);
    assert_eq!(game.get_current_player().uuid, BOB);
}

#[test]
fn a_player_who_disconnects_gets_no_answer() {
    let mut game = started(3, 2, 5);
    let before = hands(&game);
    assert_eq!(step(&mut game, &says(ADA, "Ada", Payload::Admin(MsgIn::Disconnect))), Vec::new());
    assert_eq!(step(&mut game, &says(BOB, "Bob", Payload::Admin(MsgIn::Disconnect))), Vec::new());
    assert_eq!(hands(&game), before);
    assert_eq!(game.turn_number(), 1);
    assert_eq!(game.number_of_remaining_players(), 2);
}

#[test]
fn a_message_that_cannot_be_read_is_answered_with_the_reason() {
    let mut game = started(3, 2, 5);
    let unread = Payload::Unknown("expected value at line 1 column 1".to_string());
    for uuid in [ADA, BOB] {
        assert_eq!(
            step(&mut game, &says(uuid, "x", unread.clone())),
            vec![to(uuid, MsgOut::UnknownMessage("expected value at line 1 column 1".to_string()))]
        );
    }
    assert_eq!(game.turn_number(), 1);
}

#[test]
fn a_raise_becomes_the_bid_and_the_turn_passes_on() {
    let mut game = started(3, 3, 5);
    let before = hands(&game);
    assert_eq!(game.get_current_player().uuid, BOB);
    assert_eq!(
        step(&mut game, &raise(BOB, 2, 4)),
        vec![all(MsgOut::Turn { turn: 2, number: 2, face: 4, next_player: "Cy".to_string() })]
    );
    assert_eq!(game.current_guess(), Guess::new(2, 4));
    assert_eq!(game.get_current_player().uuid, CY);
    assert_eq!(
        step(&mut game, &raise(CY, 2, 5)),
        vec![all(MsgOut::Turn { turn: 3, number: 2, face: 5, next_player: "Ada".to_string() })]
    );
    assert_eq!(
        step(&mut game, &raise(ADA, 3, 5)),
        vec![all(MsgOut::Turn { turn: 4, number: 3, face: 5, next_player: "Bob".to_string() })]
    );
    assert_eq!(game.turn_number(), 4);
    assert_eq!(hands(&game), before);
    assert_eq!(game.number_of_remaining_players(), 3);
}

#[test]
fn a_raise_that_breaks_a_rule_costs_a_die() {
    let mut game = started(3, 2, 5);
    step(&mut game, &raise(BOB, 3, 4));
    let shown = revealed(&game);
    let sent = step(&mut game, &raise(ADA, 3, 4));
    let rolled = hands(&game);
    let reason = "Number `3<3` or Face `4<4` must be increased!";
    assert_eq!(
        sent,
        vec![
            to(ADA, MsgOut::InvalidBid { reason: reason.to_string() }),
            all(MsgOut::Round {
                result: format!(
                    "Player `Ada` lost one die because they placed an InvalidBid: {reason}"
                ),
                revealed_hands: shown,
            }),
            to(ADA, MsgOut::YouRolled { hand: rolled[0].clone() }),
            to(BOB, MsgOut::YouRolled { hand: rolled[1].clone() }),
            all(MsgOut::Turn { turn: 3, number: 0, face: 1, next_player: "Bob".to_string() }),
        ]
    );
    assert_eq!(sizes(&game), vec![4, 5]);
    assert_eq!(game.current_guess(), Guess::start());
    assert_eq!(game.number_of_remaining_players(), 2);
}

#[test]
fn a_face_that_no_die_has_costs_a_die() {
    let mut game = started(4, 2, 5);
    let sent = step(&mut game, &raise(BOB, 2, 7));
    assert_eq!(
        sent[0],
        to(BOB, MsgOut::InvalidBid { reason: "Face must be between 1 and 6".to_string() })
    );
    assert_eq!(sizes(&game), vec![5, 4]);
    assert_eq!(game.turn_number(), 2);
}

#[test]
fn a_disputed_bid_is_judged_by_the_count() {
    let guess = Guess::new(4, 3);
    let challenger_loses = Verdict { payer: Payer::Challenger, lost: true };
    let bidder_loses = Verdict { payer: Payer::Bidder, lost: true };
    assert_eq!(judge_liar(4, &guess), challenger_loses);
    assert_eq!(judge_liar(3, &guess), bidder_loses);
    assert_eq!(judge_liar(5, &guess), challenger_loses);
    assert_eq!(judge_liar(0, &guess), bidder_loses);
    assert_eq!(judge_liar(0, &Guess::start()), challenger_loses);
    assert_eq!(judge_liar(1000, &Guess::new(255, 6)), challenger_loses);
}

#[test]
fn a_bid_claimed_exact_is_judged_by_the_count() {
    let guess = Guess::new(2, 5);
    assert_eq!(judge_exactly(2, &guess), Verdict { payer: Payer::Challenger, lost: false });
    assert_eq!(judge_exactly(1, &guess), Verdict { payer: Payer::Challenger, lost: true });
    assert_eq!(judge_exactly(3, &guess), Verdict { payer: Payer::Challenger, lost: true });
    assert_eq!(judge_exactly(258, &guess), Verdict { payer: Payer::Challenger, lost: true });
}

#[test]
fn a_tie_goes_to_the_bidder() {
    let mut game = started(seed_with(3, 4), 2, 5);
    let shown = revealed(&game);
    step(&mut game, &raise(BOB, 4, 3));
    let sent = step(&mut game, &liar(ADA));
    assert_eq!(
        sent[0],
        all(MsgOut::Round {
            result: "Player `Ada` lost one die because there are exactly `4` face `3`"
                .to_string(),
            revealed_hands: shown,
        })
    );
    assert_eq!(sizes(&game), vec![4, 5]);
}

#[test]
fn a_bid_that_overstates_costs_the_bidder() {
    let mut game = started(seed_with(3, 3), 2, 5);
    let shown = revealed(&game);
    step(&mut game, &raise(BOB, 4, 3));
    let sent = step(&mut game, &liar(ADA));
    let rolled = hands(&game);
    assert_eq!(
        sent,
        vec![
            all(MsgOut::Round {
                result: "Player `Bob` lost one die because there is less `3` face `3` than \
                         guessed `4`"
                    .to_string(),
                revealed_hands: shown,
            }),
            to(ADA, MsgOut::YouRolled { hand: rolled[0].clone() }),
            to(BOB, MsgOut::YouRolled { hand: rolled[1].clone() }),
            all(MsgOut::Turn { turn: 3, number: 0, face: 1, next_player: "Bob".to_string() }),
        ]
    );
    assert_eq!(sizes(&game), vec![5, 4]);
    assert_eq!(game.current_guess(), Guess::start());
}

#[test]
fn a_bid_that_understates_costs_the_challenger() {
    let mut game = started(seed_with(3, 5), 2, 5);
    step(&mut game, &raise(BOB, 4, 3));
    let sent = step(&mut game, &liar(ADA));
    match &sent[0].msg {
        MsgOut::Round { result, .. } => assert_eq!(
            result,
            "Player `Ada` lost one die because there are more `5` face `3` than guessed `4`"
        ),
        other => panic!("unexpected {other:?}"),
    }
    assert_eq!(sizes(&game), vec![4, 5]);
}

/// A game for two in its second round, in which Bob holds four dice, Ada has
/// bid two fives, and it is Bob's turn; with the dice that count towards the
/// fives. The seeds are tried in turn until `wanted` dice count.
fn second_round_with(wanted: usize) -> Game {
    for seed in 0..100_000 {
        let mut game = started(seed, 2, 5);
        step(&mut game, &liar(BOB));
        assert_eq!(sizes(&game), vec![5, 4]);
        assert_eq!(game.get_current_player().uuid, ADA);
        if counting(&game, 5) == wanted {
            step(&mut game, &raise(ADA, 2, 5));
            return game;
        }
    }
    panic!("no seed rolls {wanted} dice towards 5");
}

#[test]
fn an_exact_call_that_holds_wins_a_die() {
    let mut game = second_round_with(2);
    let shown = revealed(&game);
    let sent = step(&mut game, &exactly(BOB));
    assert_eq!(
        sent[0],
        all(MsgOut::Round {
            result: "Player `Bob` gained one extra die because there are exactly `2` face `5`"
                .to_string(),
            revealed_hands: shown,
        })
    );
    assert_eq!(sizes(&game), vec![5, 5]);
    assert_eq!(game.number_of_remaining_players(), 2);
    assert_eq!(game.turn_number(), 4);
    assert_eq!(game.get_current_player().uuid, ADA);
}

#[test]
fn an_exact_call_that_fails_costs_a_die() {
    for wanted in [1, 3] {
        let mut game = second_round_with(wanted);
        step(&mut game, &exactly(BOB));
        assert_eq!(sizes(&game), vec![5, 3]);
    }
}

#[test]
fn an_exact_call_with_a_full_hand_wins_nothing() {
    let mut game = started(seed_with(5, 2), 2, 5);
    step(&mut game, &raise(BOB, 2, 5));
    let sent = step(&mut game, &exactly(ADA));
    match &sent[0].msg {
        MsgOut::Round { result, .. } => assert_eq!(
            result,
            "Player `Ada` holds every die already and gained none because there are exactly \
             `2` face `5`"
        ),
        other => panic!("unexpected {other:?}"),
    }
    assert_eq!(sizes(&game), vec![5, 5]);
}

#[test]
fn the_time_that_runs_out_costs_a_die() {
    let mut game = started(9, 2, 5);
    let shown = revealed(&game);
    let sent = step(&mut game, &Event::TimedOut);
    let rolled = hands(&game);
    assert_eq!(
        sent,
        vec![
            all(MsgOut::Round {
                result: "Player `Bob` lost one die because they did not act in time."
                    .to_string(),
                revealed_hands: shown,
            }),
            to(ADA, MsgOut::YouRolled { hand: rolled[0].clone() }),
            to(BOB, MsgOut::YouRolled { hand: rolled[1].clone() }),
            all(MsgOut::Turn { turn: 2, number: 0, face: 1, next_player: "Ada".to_string() }),
        ]
    );
    assert_eq!(sizes(&game), vec![5, 4]);
}

#[test]
fn the_time_that_runs_out_costs_what_a_lost_challenge_costs() {
    for seed in 0..20 {
        let mut idle = started(seed, 3, 4);
        let mut challenged = started(seed, 3, 4);
        assert_eq!(hands(&idle), hands(&challenged));
        let told = step(&mut idle, &Event::TimedOut);
        let said = step(&mut challenged, &liar(BOB));
        assert_eq!(hands(&idle), hands(&challenged));
        assert_eq!(idle.turn_number(), challenged.turn_number());
        assert_eq!(idle.current_guess(), challenged.current_guess());
        assert_eq!(idle.number_of_remaining_players(), challenged.number_of_remaining_players());
        assert_eq!(idle.phase(), challenged.phase());
        assert_eq!(told[1..], said[1..]);
        assert_ne!(told[0], said[0]);
    }
}

#[test]
fn a_player_without_dice_is_out_and_counted_once() {
    let mut game = started(21, 3, 1);
    assert_eq!(game.get_current_player().uuid, BOB);
    let sent = step(&mut game, &Event::TimedOut);
    assert_eq!(sizes(&game), vec![1, 0, 1]);
    assert_eq!(game.number_of_remaining_players(), 2);
    assert_eq!(game.phase(), Phase::AwaitingBid);
    assert_eq!(game.get_current_player().uuid, CY);
    assert_eq!(
        sent.last(),
        Some(&all(MsgOut::Turn { turn: 2, number: 0, face: 1, next_player: "Cy".to_string() }))
    );
    assert_eq!(step(&mut game, &liar(BOB)), vec![to(BOB, MsgOut::NotYourTurn)]);
    assert_eq!(step(&mut game, &raise(BOB, 1, 2)), vec![to(BOB, MsgOut::NotYourTurn)]);

    step(&mut game, &raise(CY, 1, 2));
    assert_eq!(game.get_current_player().uuid, ADA);
    assert_eq!(game.turn_number(), 3);
    let sent = step(&mut game, &raise(ADA, 1, 3));
    assert_eq!(
        sent,
        vec![all(MsgOut::Turn { turn: 5, number: 1, face: 3, next_player: "Cy".to_string() })]
    );
    assert_eq!(game.get_current_player().uuid, CY);
    assert_eq!(game.number_of_remaining_players(), 2);
    assert_eq!(sizes(&game), vec![1, 0, 1]);
}

#[test]
fn those_left_are_counted_right_until_one_is_left() {
    for seed in 0..10 {
        let mut game = started(seed, 3, 2);
        let mut rounds = 0;
        while game.phase() != Phase::GameEnd {
            let before = sizes(&game);
            let left = game.number_of_remaining_players();
            let seat = game.turn_number() % 3;
            assert!(before[seat] > 0);
            step(&mut game, &Event::TimedOut);
            let after = sizes(&game);
            for other in 0..3 {
                let lost = if other == seat { 1 } else { 0 };
                assert_eq!(after[other], before[other] - lost);
            }
            let out = if after[seat] == 0 { 1 } else { 0 };
            assert_eq!(game.number_of_remaining_players(), left - out);
            let alive = after.iter().filter(|size| **size > 0).count();
            assert_eq!(game.number_of_remaining_players(), alive);
            assert!(after[game.turn_number() % 3] > 0);
            rounds += 1;
        }
        assert_eq!(game.number_of_remaining_players(), 1);
        assert!(rounds >= 4 && rounds <= 5);
        assert_eq!(step(&mut game, &Event::TimedOut), Vec::new());
        assert_eq!(game.number_of_remaining_players(), 1);
    }
}

#[test]
fn a_game_for_two_with_one_die_each_ends_with_the_first_challenge() {
    for seed in 0..40 {
        let mut game = Game::new(config(2, 1), StdRng::seed_from_u64(seed));
        let events = vec![connect(ADA, "Ada"), connect(BOB, "Bob"), raise(BOB, 1, 2), liar(ADA)];
        let opening = game.run(&events[..2].to_vec());
        assert_eq!(opening.consumed, 2);
        assert_eq!(sizes(&game), vec![1, 1]);
        let shown = revealed(&game);
        let counted = counting(&game, 2);

        let played = game.run(&events[2..].to_vec());
        assert_eq!(played.consumed, 2);
        assert_eq!(game.phase(), Phase::GameEnd);
        assert_eq!(game.number_of_remaining_players(), 1);
        let (loser, winner, result) = if counted >= 1 {
            let why = if counted == 1 {
                "there are exactly `1` face `2`".to_string()
            } else {
                "there are more `2` face `2` than guessed `1`".to_string()
            };
            ("Ada", "Bob", why)
        } else {
            ("Bob", "Ada", "there is less `0` face `2` than guessed `1`".to_string())
        };
        assert_eq!(
            played.sent,
            vec![
                all(MsgOut::Turn { turn: 2, number: 1, face: 2, next_player: "Ada".to_string() }),
                all(MsgOut::Round {
                    result: format!("Player `{loser}` lost one die because {result}"),
                    revealed_hands: shown,
                }),
                all(MsgOut::GameEnded { winner: winner.to_string() }),
            ]
        );
        assert_eq!(game.get_current_player().name, winner);
        let expected = if loser == "Ada" { vec![0, 1] } else { vec![1, 0] };
        assert_eq!(sizes(&game), expected);
    }
}

#[test]
fn a_run_stops_where_the_game_is_over() {
    let mut game = Game::new(config(2, 1), StdRng::seed_from_u64(77));
    let events = vec![
        connect(ADA, "Ada"),
        connect(BOB, "Bob"),
        Event::TimedOut,
        Event::TimedOut,
        liar(ADA),
    ];
    let played = game.run(&events);
    assert_eq!(played.consumed, 3);
    assert_eq!(game.phase(), Phase::GameEnd);
    assert_eq!(
        played.sent.last(),
        Some(&all(MsgOut::GameEnded { winner: "Ada".to_string() }))
    );
    let again = game.run(&events);
    assert_eq!(again.consumed, 0);
    assert_eq!(again.sent, Vec::new());
}

#[test]
fn a_run_and_its_steps_say_the_same() {
    let events = vec![
        connect(ADA, "Ada"),
        connect(BOB, "Bob"),
        connect(CY, "Cy"),
        raise(BOB, 1, 2),
        liar(ADA),
        raise(CY, 2, 2),
        Event::TimedOut,
        exactly(BOB),
        liar(CY),
    ];
    let mut whole = Game::new(config(3, 2), StdRng::seed_from_u64(31));
    let mut stepped = Game::new(config(3, 2), StdRng::seed_from_u64(31));
    let played = whole.run(&events);
    let mut said = Vec::new();
    let mut taken = 0;
    for event in events.iter() {
        if stepped.phase() == Phase::GameEnd {
            break;
        }
        said.extend(step(&mut stepped, event));
        taken += 1;
    }
    assert_eq!(played.consumed, taken);
    assert_eq!(played.sent, said);
    assert_eq!(hands(&whole), hands(&stepped));
    assert_eq!(whole.turn_number(), stepped.turn_number());
}

#[test]
fn the_same_seed_plays_the_same_game() {
    let events = vec![
        connect(ADA, "Ada"),
        connect(BOB, "Bob"),
        raise(BOB, 2, 3),
        raise(ADA, 3, 3),
        liar(BOB),
        Event::TimedOut,
        raise(ADA, 1, 6),
        exactly(BOB),
    ];
    let mut first = Game::new(config(2, 4), StdRng::seed_from_u64(8));
    let mut second = Game::new(config(2, 4), StdRng::seed_from_u64(8));
    assert_eq!(first.run(&events).sent, second.run(&events).sent);
    assert_eq!(hands(&first), hands(&second));
}

#[test]
fn the_time_for_a_turn_starts_anew_only_with_a_turn() {
    let mut game = Game::new(config(2, 5), StdRng::seed_from_u64(14));
    assert!(!game.step(&connect(ADA, "Ada")).rearm);
    assert!(!game.step(&Event::TimedOut).rearm);
    assert!(game.step(&connect(BOB, "Bob")).rearm);

    assert!(!game.step(&connect(ADA, "Ada")).rearm);
    assert!(!game.step(&connect(BOB, "Bob")).rearm);
    assert!(!game.step(&says(BOB, "Bob", Payload::Admin(MsgIn::Disconnect))).rearm);
    assert!(!game.step(&says(BOB, "Bob", Payload::Unknown("bad".to_string()))).rearm);
    assert!(!game.step(&connect(EVE, "Eve")).rearm);
    assert!(!game.step(&raise(ADA, 1, 2)).rearm);
    assert!(!game.step(&liar(ADA)).rearm);
    assert_eq!(game.turn_number(), 1);

    assert!(game.step(&raise(BOB, 1, 2)).rearm);
    assert!(game.step(&raise(ADA, 1, 1)).rearm);
    assert!(game.step(&liar(BOB)).rearm);
    assert!(game.step(&Event::TimedOut).rearm);
    let current = game.get_current_player().uuid;
    assert!(game.step(&exactly(current)).rearm);
}

#[test]
fn no_time_starts_once_the_game_is_over() {
    let mut game = started(2, 2, 1);
    let last = game.step(&Event::TimedOut);
    assert_eq!(game.phase(), Phase::GameEnd);
    assert!(!last.rearm);
    assert!(!game.step(&Event::TimedOut).rearm);
}

#[test]
fn a_bidder_who_loses_its_last_die_is_out() {
    for seed in 0..50 {
        let mut game = started(seed, 3, 1);
        if counting(&game, 6) >= 3 {
            continue;
        }
        step(&mut game, &raise(BOB, 3, 6));
        assert_eq!(game.get_current_player().uuid, CY);
        let sent = step(&mut game, &liar(CY));
        assert_eq!(sizes(&game), vec![1, 0, 1]);
        assert_eq!(game.number_of_remaining_players(), 2);
        assert_eq!(game.phase(), Phase::AwaitingBid);
        assert_eq!(game.turn_number(), 3);
        assert_eq!(game.get_current_player().uuid, ADA);
        assert_eq!(sent.len(), 5);
        assert_eq!(sent[2], to(BOB, MsgOut::YouRolled { hand: Vec::new() }));

        let sent = step(&mut game, &Event::TimedOut);
        assert_eq!(sizes(&game), vec![0, 0, 1]);
        assert_eq!(game.phase(), Phase::GameEnd);
        assert_eq!(game.number_of_remaining_players(), 1);
        assert_eq!(game.get_current_player().uuid, CY);
        assert_eq!(sent.len(), 2);
        assert_eq!(sent[1], all(MsgOut::GameEnded { winner: "Cy".to_string() }));
    }
}
