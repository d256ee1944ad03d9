use crate::die::JOKER;
use crate::guess::Guess;
use crate::hand::all_faces;
use crate::laws::{
    lemma_alive_seats_finite, lemma_all_alive, lemma_carry_keeps_valid, lemma_roll_keeps_seats,
    lemma_round_keeps_valid, lemma_run_goes_on, lemma_seat_of_player, lemma_settle_counts_once,
    lemma_someone_is_next, lemma_step_keeps_valid, lemma_turn_is_with_a_player,
};
use crate::message::{
    hands_view, sent_view, to_everyone, to_player, Action, Event, EventView, MsgIn, MsgOut,
    MsgOutView, Outbound, OutboundView, Payload, PayloadView, Recipient,
};
use crate::player::{
    entries, keyed, no_players, players_at, players_at_mut, players_index_of, players_len,
    roster, Player, PlayerView, Players,
};
use crate::rules::{
    alive_seats, is_next_turn, judge_exactly, judge_liar, rerolled, revealed, rolled,
    settled_hand, sits_out, total_matching, GameView, Payer, Phase, Ruling,
};
use crate::text::{
    count_string, full_string, gained_string, idle_string, invalid_bid_reason_string,
    invalid_bid_string, lost_string,
};
use crate::wait_for_players_to_join::{events_view, join_player, reply_step};
use rand::rngs::StdRng;
use vstd::prelude::*;

verus! {

/// What a game is set up with.
#[derive(Debug, Clone, Copy)]
pub struct GameConfig {
    /// How long a player has for its turn, in milliseconds.
    pub turn_duration_ms: u64,
    /// How many players the game is for.
    pub number_of_players: usize,
    /// How many dice each player starts with.
    pub starting_hand_size: usize,
}

/// What the engine does about one event.
pub struct Reaction {
    /// What is to be sent, in this order.
    pub sent: Vec<Outbound>,
    /// Whether the time allowed for a turn starts anew.
    pub rearm: bool,
}

/// What a run over some events has come to.
pub struct Played {
    /// What was said, in the order in which it was said.
    pub sent: Vec<Outbound>,
    /// How many of the events were handled.
    pub consumed: usize,
}

/// A game: its players and their hands, the bid that stands, whose turn it
/// is, and the generator that the dice are rolled with.
pub struct Game {
    config: GameConfig,
    players: Players,
    turn: usize,
    current_guess: Guess,
    bidder: Option<usize>,
    number_of_remaining_players: usize,
    phase: Phase,
    rng: StdRng,
}

impl View for Game {
    type V = GameView;

    closed spec fn view(&self) -> GameView {
        GameView {
            turn_duration_ms: self.config.turn_duration_ms,
            number_of_players: self.config.number_of_players as nat,
            starting_hand_size: self.config.starting_hand_size as nat,
            players: roster(self.players),
            turn: self.turn as nat,
            guess: self.current_guess,
            bidder: match self.bidder {
                Some(seat) => Some(seat as int),
                None => None,
            },
            remaining: self.number_of_remaining_players as nat,
            phase: self.phase,
        }
    }
}

/// Finds the turn that follows `turn`.
fn next_turn(players: &Players, turn: usize) -> (next: usize)
    requires
        alive_seats(roster(*players)).len() > 0,
        turn + roster(*players).len() <= usize::MAX,
    ensures
        is_next_turn(roster(*players), turn as nat, next as nat),
        next <= turn + roster(*players).len(),
{
    let seats = players_len(players);
    proof {
        lemma_alive_seats_finite(roster(*players));
    }
    let mut next = turn + 1;
    loop
        invariant
            seats == roster(*players).len(),
            seats > 0,
            alive_seats(roster(*players)).len() > 0,
            turn + seats <= usize::MAX,
            turn < next <= turn + seats,
            forall|t: nat| turn < t < next ==> #[trigger] sits_out(roster(*players), t),
        decreases turn + seats - next,
    {
        let seated = players_at(players, next % seats).unwrap();
        if !seated.is_eliminated() {
            return next;
        }
        proof {
            lemma_someone_is_next(roster(*players), turn as nat, next as nat);
        }
        next += 1;
    }
}

/// Counts the dice, over all hands, that count towards a bid on `face`.
fn count_all(players: &Players, face: u8) -> (total: u128)
    ensures
        total == total_matching(roster(*players), face),
{
    let seats = players_len(players);
    let mut total: u128 = 0;
    let mut seat: usize = 0;
    while seat < seats
        invariant
            seats == roster(*players).len(),
            seat <= seats,
            total <= seat * 0xffff_ffff_ffff_ffff,
            total == total_matching(roster(*players).take(seat as int), face),
        decreases seats - seat,
    {
        let player = players_at(players, seat).unwrap();
        let count = player.hand.count_matching(face);
        proof {
            let upto = roster(*players).take(seat + 1);
            assert(upto.drop_last() =~= roster(*players).take(seat as int));
        }
        total += count as u128;
        seat += 1;
    }
    assert(roster(*players).take(seat as int) =~= roster(*players));
    total
}

/// Every player's name with the faces of its hand, in the order of the
/// seats.
fn reveal_hands(players: &Players) -> (hands: Vec<(String, Vec<u8>)>)
    ensures
        hands_view(hands@) == revealed(roster(*players)),
{
    let seats = players_len(players);
    let mut hands: Vec<(String, Vec<u8>)> = Vec::new();
    let mut seat: usize = 0;
    while seat < seats
        invariant
            seats == roster(*players).len(),
            seat <= seats,
            hands@.len() == seat,
            forall|i: int|
                0 <= i < seat ==> (#[trigger] hands@[i]).0@ == roster(*players)[i].name
                    && hands@[i].1@ == roster(*players)[i].hand,
        decreases seats - seat,
    {
        let player = players_at(players, seat).unwrap();
        hands.push((player.name.clone(), player.hand.faces()));
        seat += 1;
    }
    hands
}

/// Rolls every hand again and tells each player its own.
fn roll_all(players: &mut Players, rng: &mut StdRng, sent: &mut Vec<Outbound>)
    requires
        keyed(*old(players)),
    ensures
        keyed(*final(players)),
        rerolled(roster(*old(players)), roster(*final(players))),
        sent_view(final(sent)@) == sent_view(old(sent)@) + rolled(roster(*final(players))),
{
    let seats = players_len(players);
    let ghost said = sent_view(sent@);
    let mut seat: usize = 0;
    while seat < seats
        invariant
            seats == entries(*players).len(),
            entries(*players).len() == entries(*old(players)).len(),
            seat <= seats,
            forall|i: int|
                0 <= i < seats ==> (#[trigger] entries(*players)[i]).0 == entries(
                    *old(players),
                )[i].0 && entries(*players)[i].1.uuid == entries(*old(players))[i].1.uuid
                    && entries(*players)[i].1.name == entries(*old(players))[i].1.name
                    && entries(*players)[i].1.hand@.len() == entries(*old(players))[i].1.hand@.len(),
            forall|i: int|
                0 <= i < seat ==> all_faces((#[trigger] entries(*players)[i]).1.hand@),
            sent_view(sent@) == said + Seq::new(
                seat as nat,
                |i: int|
                    to_player(
                        entries(*players)[i].1.uuid,
                        MsgOutView::YouRolled { hand: entries(*players)[i].1.hand@ },
                    ),
            ),
        decreases seats - seat,
    {
        let ghost before = sent_view(sent@);
        let player = players_at_mut(players, seat);
        player.hand.roll(rng);
        let hand = player.hand.faces();
        let uuid = player.uuid;
        sent.push(Outbound { to: Recipient::Player(uuid), msg: MsgOut::YouRolled { hand } });
        proof {
            assert(sent_view(sent@) =~= before.push(
                to_player(uuid, MsgOutView::YouRolled { hand: hand@ }),
            ));
        }
        seat += 1;
    }
    proof {
        assert forall|i: int, j: int|
            0 <= i < roster(*players).len() && 0 <= j < roster(*players).len() && i != j implies (
        #[trigger] roster(*players)[i]).uuid != (#[trigger] roster(*players)[j]).uuid by {
            assert(roster(*old(players))[i].uuid == entries(*players)[i].1.uuid);
            assert(roster(*old(players))[j].uuid == entries(*players)[j].1.uuid);
        }
    }
}

/// The name of the player at `seat`.
fn name_at(players: &Players, seat: usize) -> (name: String)
    requires
        seat < roster(*players).len(),
    ensures
        name@ == roster(*players)[seat as int].name,
{
    players_at(players, seat).unwrap().name.clone()
}

/// Makes the player at `who` pay for a round, with a die lost or a die won.
fn settle(players: &mut Players, who: usize, lost: bool, limit: usize)
    requires
        keyed(*old(players)),
        who < roster(*old(players)).len(),
    ensures
        keyed(*final(players)),
        roster(*final(players)) == roster(*old(players)).update(
            who as int,
            PlayerView {
                hand: settled_hand(roster(*old(players))[who as int].hand, lost, limit as nat),
                ..roster(*old(players))[who as int]
            },
        ),
{
    let player = players_at_mut(players, who);
    if lost {
        player.hand.lose_die();
    } else {
        player.hand.gain_die(limit);
    }
    proof {
        assert(roster(*players) =~= roster(*old(players)).update(
            who as int,
            PlayerView {
                hand: settled_hand(roster(*old(players))[who as int].hand, lost, limit as nat),
                ..roster(*old(players))[who as int]
            },
        ));
    }
}

impl Game {
    /// Every player is filed under its own identity.
    pub closed spec fn filed(&self) -> bool {
        keyed(self.players)
    }

    /// What holds of every game that this library hands out.
    pub open spec fn wf(&self) -> bool {
        self@.valid() && self.filed()
    }

    /// Whether the number of the turn can still grow by a full round of the
    /// table without leaving the range of the machine's integers.
    pub open spec fn has_turns_left(&self) -> bool {
        self@.has_turns_left()
    }

    /// A game for `config.number_of_players` players, none of whom has joined
    /// yet, with `rng` to roll the dice.
    pub fn new(config: GameConfig, rng: StdRng) -> (game: Self)
        requires
            config.number_of_players >= 1,
            config.starting_hand_size >= 1,
        ensures
            game.wf(),
            game@ == GameView::initial(
                config.turn_duration_ms,
                config.number_of_players as nat,
                config.starting_hand_size as nat,
            ),
            game.has_turns_left(),
    {
        let players = no_players();
        Self {
            config,
            players,
            turn: 0,
            current_guess: Guess::start(),
            bidder: None,
            number_of_remaining_players: config.number_of_players,
            phase: Phase::Joining,
            rng,
        }
    }

    /// What the game was set up with.
    pub fn config(&self) -> (config: GameConfig)
        ensures
            config.turn_duration_ms == self@.turn_duration_ms,
            config.number_of_players == self@.number_of_players,
            config.starting_hand_size == self@.starting_hand_size,
    {
        self.config
    }

    /// Where the game stands.
    pub fn phase(&self) -> (phase: Phase)
        ensures
            phase == self@.phase,
    {
        self.phase
    }

    /// The number of the turn.
    pub fn turn_number(&self) -> (turn: usize)
        ensures
            turn == self@.turn,
    {
        self.turn
    }

    /// The bid that stands.
    pub fn current_guess(&self) -> (guess: Guess)
        ensures
            guess == self@.guess,
    {
        self.current_guess
    }

    /// How many players are left in the game.
    pub fn number_of_remaining_players(&self) -> (remaining: usize)
        ensures
            remaining == self@.remaining,
    {
        self.number_of_remaining_players
    }

    /// The players, in the order of their seats.
    pub fn players(&self) -> (players: &Players)
        ensures
            roster(*players) == self@.players,
    {
        &self.players
    }

    /// Whether the game has turns left: whether it can take one more event.
    pub fn can_step(&self) -> (can: bool)
        ensures
            can == self.has_turns_left(),
    {
        self.turn <= usize::MAX - self.config.number_of_players
    }

    /// The player whose turn it is.
    pub fn get_current_player(&self) -> (player: &Player)
        requires
            self.wf(),
            self@.phase != Phase::Joining,
        ensures
            player@ == self@.current(),
            !player@.is_eliminated(),
    {
        proof {
            lemma_turn_is_with_a_player(self@);
        }
        players_at(&self.players, self.turn % self.config.number_of_players).unwrap()
    }

    /// The seat whose turn it is.
    fn seat(&self) -> (seat: usize)
        requires
            self.config.number_of_players >= 1,
        ensures
            seat == self@.seat(),
            seat < self.config.number_of_players,
    {
        self.turn % self.config.number_of_players
    }

    /// Makes `guess` the bid that stands, passes the turn on, and tells
    /// everybody.
    fn turn(&mut self, guess: Guess, sent: &mut Vec<Outbound>)
        requires
            alive_seats(roster(old(self).players)).len() > 0,
            roster(old(self).players).len() == old(self).config.number_of_players,
            old(self).turn + old(self).config.number_of_players <= usize::MAX,
        ensures
            final(self).players == old(self).players,
            final(self).config == old(self).config,
            final(self).bidder == old(self).bidder,
            final(self).number_of_remaining_players == old(self).number_of_remaining_players,
            final(self).phase == old(self).phase,
            final(self).current_guess == guess,
            is_next_turn(roster(old(self).players), old(self).turn as nat, final(self).turn as nat),
            sent_view(final(sent)@) == sent_view(old(sent)@).push(
                to_everyone(
                    MsgOutView::Turn {
                        turn: final(self).turn as nat,
                        number: guess.number,
                        face: guess.face,
                        next_player: final(self)@.current().name,
                    },
                ),
            ),
    {
        proof {
            lemma_alive_seats_finite(roster(self.players));
        }
        self.turn = next_turn(&self.players, self.turn);
        self.current_guess = guess;
        let next_player = name_at(&self.players, self.seat());
        sent.push(
            Outbound {
                to: Recipient::Everyone,
                msg: MsgOut::Turn {
                    turn: self.turn,
                    number: guess.number,
                    face: guess.face,
                    next_player,
                },
            },
        );
    }

    /// Ends the round: shows the hands, makes the seat `who` pay for it with
    /// a die lost or won, and either ends the game or opens the next round.
    fn round(&mut self, who: usize, lost: bool, reason: String, notice: Vec<Outbound>) -> (sent:
        Vec<Outbound>)
        requires
            old(self).wf(),
            old(self)@.phase == Phase::AwaitingBid,
            old(self).has_turns_left(),
            who < old(self)@.number_of_players,
            !old(self)@.players[who as int].is_eliminated(),
        ensures
            final(self).wf(),
            old(self)@.round_ends(
                Ruling { who: who as int, lost, reason: reason@, notice: sent_view(notice@) },
                final(self)@,
                sent_view(sent@),
            ),
    {
        let ghost before = self@;
        let ghost ruling = Ruling {
            who: who as int,
            lost,
            reason: reason@,
            notice: sent_view(notice@),
        };
        let mut sent = notice;
        let revealed_hands = reveal_hands(&self.players);
        let name = name_at(&self.players, who);
        let held = players_at(&self.players, who).unwrap().hand.dice.len();
        let result = if lost {
            lost_string(name.as_str(), reason.as_str())
        } else if held < self.config.starting_hand_size {
            gained_string(name.as_str(), reason.as_str())
        } else {
            full_string(name.as_str(), reason.as_str())
        };
        sent.push(
            Outbound { to: Recipient::Everyone, msg: MsgOut::Round { result, revealed_hands } },
        );
        let ghost announced = to_everyone(
            MsgOutView::Round { result: result@, revealed_hands: revealed(before.players) },
        );

        settle(&mut self.players, who, lost, self.config.starting_hand_size);
        proof {
            lemma_settle_counts_once(
                before.players,
                who as int,
                before.settled(who as int, lost)[who as int].hand,
            );
        }
        if players_at(&self.players, who).unwrap().is_eliminated() {
            self.number_of_remaining_players -= 1;
        }
        self.bidder = None;
        if self.number_of_remaining_players <= 1 {
            self.phase = Phase::GameEnd;
            self.current_guess = Guess::start();
            self.turn = next_turn(&self.players, self.turn);
            let winner = name_at(&self.players, self.seat());
            sent.push(Outbound { to: Recipient::Everyone, msg: MsgOut::GameEnded { winner } });
            assert(sent_view(sent@) =~= ruling.notice + seq![
                announced,
                to_everyone(MsgOutView::GameEnded { winner: self@.current().name }),
            ]);
        } else {
            let ghost settled = roster(self.players);
            roll_all(&mut self.players, &mut self.rng, &mut sent);
            proof {
                lemma_roll_keeps_seats(settled, roster(self.players));
            }
            self.turn(Guess::start(), &mut sent);
            assert(sent_view(sent@) =~= ruling.notice + seq![announced] + rolled(
                roster(self.players),
            ) + seq![
                to_everyone(
                    MsgOutView::Turn {
                        turn: self.turn as nat,
                        number: 0,
                        face: JOKER,
                        next_player: self@.current().name,
                    },
                ),
            ]);
        }
        proof {
            lemma_round_keeps_valid(before, who as int, lost, self@);
        }
        sent
    }

    /// The time for the turn has run out: the player whose turn it is pays
    /// for the round with a die.
    fn action_idle(&mut self) -> (sent: Vec<Outbound>)
        requires
            old(self).wf(),
            old(self)@.phase == Phase::AwaitingBid,
            old(self).has_turns_left(),
        ensures
            final(self).wf(),
            old(self)@.round_ends(old(self)@.idle_ruling(), final(self)@, sent_view(sent@)),
    {
        proof {
            lemma_turn_is_with_a_player(self@);
        }
        let who = self.seat();
        let notice: Vec<Outbound> = Vec::new();
        self.round(who, true, idle_string(), notice)
    }

    /// The player whose turn it is disputes the bid: all dice are counted,
    /// and the bidder or the challenger pays for the round with a die.
    fn action_liar(&mut self) -> (sent: Vec<Outbound>)
        requires
            old(self).wf(),
            old(self)@.phase == Phase::AwaitingBid,
            old(self).has_turns_left(),
        ensures
            final(self).wf(),
            old(self)@.round_ends(old(self)@.liar_ruling(), final(self)@, sent_view(sent@)),
    {
        proof {
            lemma_turn_is_with_a_player(self@);
        }
        let actual = count_all(&self.players, self.current_guess.face);
        let verdict = judge_liar(actual, &self.current_guess);
        let who = match verdict.payer {
            Payer::Bidder => self.bidder.unwrap(),
            Payer::Challenger => self.seat(),
        };
        let notice: Vec<Outbound> = Vec::new();
        self.round(who, verdict.lost, count_string(actual, self.current_guess), notice)
    }

    /// The player whose turn it is claims that the bid is met to the die:
    /// all dice are counted, and the player wins a die or pays with one.
    fn action_exactly(&mut self) -> (sent: Vec<Outbound>)
        requires
            old(self).wf(),
            old(self)@.phase == Phase::AwaitingBid,
            old(self).has_turns_left(),
        ensures
            final(self).wf(),
            old(self)@.round_ends(old(self)@.exactly_ruling(), final(self)@, sent_view(sent@)),
    {
        proof {
            lemma_turn_is_with_a_player(self@);
        }
        let actual = count_all(&self.players, self.current_guess.face);
        let verdict = judge_exactly(actual, &self.current_guess);
        let who = self.seat();
        let notice: Vec<Outbound> = Vec::new();
        self.round(who, verdict.lost, count_string(actual, self.current_guess), notice)
    }

    /// The player whose turn it is raises to `guess`. A raise that the rules
    /// allow becomes the bid, and the turn passes on. One that breaks a rule
    /// ends the round: the player is told which, and pays with a die.
    fn action_i_think_there_are(&mut self, guess: Guess) -> (sent: Vec<Outbound>)
        requires
            old(self).wf(),
            old(self)@.phase == Phase::AwaitingBid,
            old(self).has_turns_left(),
        ensures
            final(self).wf(),
            match old(self)@.guess.objection(guess) {
                Some(broken) => old(self)@.round_ends(
                    old(self)@.refused_ruling(guess, broken),
                    final(self)@,
                    sent_view(sent@),
                ),
                None => old(self)@.raise_stands(guess, final(self)@, sent_view(sent@)),
            },
    {
        let ghost before = self@;
        proof {
            lemma_turn_is_with_a_player(self@);
            lemma_alive_seats_finite(self@.players);
        }
        let who = self.seat();
        match self.current_guess.check_raise(&guess) {
            Ok(()) => {
                let mut sent: Vec<Outbound> = Vec::new();
                self.bidder = Some(who);
                self.turn(guess, &mut sent);
                proof {
                    let event = EventView::Message {
                        uuid: before.current().uuid,
                        name: before.current().name,
                        payload: PayloadView::Action(
                            Action::IThinkThereAre { number: guess.number, face: guess.face },
                        ),
                    };
                    lemma_seat_of_player(before.players, before.seat());
                    assert(sent_view(sent@) =~= seq![
                        to_everyone(
                            MsgOutView::Turn {
                                turn: self@.turn,
                                number: guess.number,
                                face: guess.face,
                                next_player: self@.current().name,
                            },
                        ),
                    ]);
                    lemma_carry_keeps_valid(before, event, self@, sent_view(sent@));
                }
                sent
            },
            Err(broken) => {
                let reason = invalid_bid_reason_string(broken, self.current_guess, guess);
                let text = invalid_bid_string(reason.as_str());
                let uuid = players_at(&self.players, who).unwrap().uuid;
                let mut notice: Vec<Outbound> = Vec::new();
                notice.push(
                    Outbound { to: Recipient::Player(uuid), msg: MsgOut::InvalidBid { reason } },
                );
                assert(sent_view(notice@) =~= seq![
                    to_player(before.current().uuid, MsgOutView::InvalidBid { reason: reason@ }),
                ]);
                self.round(who, true, text, notice)
            },
        }
    }

    /// Handles one event while a round is on.
    fn game_loop(&mut self, event: &Event) -> (sent: Vec<Outbound>)
        requires
            old(self).wf(),
            old(self)@.phase == Phase::AwaitingBid,
            old(self).has_turns_left(),
        ensures
            final(self).wf(),
            old(self)@.steps_to(event@, final(self)@, sent_view(sent@)),
    {
        let ghost before = self@;
        proof {
            lemma_turn_is_with_a_player(self@);
        }
        match event {
            Event::TimedOut => self.action_idle(),
            Event::Message { uuid, name, payload } => {
                let known = players_index_of(&self.players, *uuid);
                let mut sent: Vec<Outbound> = Vec::new();
                assert(sent_view(sent@) =~= Seq::<OutboundView>::empty());
                match known {
                    None => {
                        sent.push(
                            Outbound {
                                to: Recipient::Player(*uuid),
                                msg: MsgOut::GameAlreadyStarted,
                            },
                        );
                        assert(sent_view(sent@) =~= seq![
                            to_player(*uuid, MsgOutView::GameAlreadyStarted),
                        ]);
                        sent
                    },
                    Some(seat) => {
                        proof {
                            lemma_seat_of_player(before.players, seat as int);
                            lemma_seat_of_player(before.players, before.seat());
                        }
                        match payload {
                            Payload::Admin(MsgIn::Connect) => {
                                let player = players_at_mut(&mut self.players, seat);
                                player.name = name.clone();
                                sent.push(
                                    Outbound {
                                        to: Recipient::Player(*uuid),
                                        msg: MsgOut::Reconnected,
                                    },
                                );
                                proof {
                                    assert(sent_view(sent@) =~= seq![
                                        to_player(*uuid, MsgOutView::Reconnected),
                                    ]);
                                    assert(roster(self.players) =~= before.players.update(
                                        seat as int,
                                        PlayerView { name: name@, ..before.players[seat as int] },
                                    ));
                                    lemma_carry_keeps_valid(
                                        before,
                                        event@,
                                        self@,
                                        sent_view(sent@),
                                    );
                                }
                                sent
                            },
                            Payload::Admin(MsgIn::Disconnect) => sent,
                            Payload::Unknown(why) => {
                                sent.push(
                                    Outbound {
                                        to: Recipient::Player(*uuid),
                                        msg: MsgOut::UnknownMessage(why.clone()),
                                    },
                                );
                                assert(sent_view(sent@) =~= seq![
                                    to_player(*uuid, MsgOutView::UnknownMessage(why@)),
                                ]);
                                sent
                            },
                            Payload::Action(action) => {
                                if seat != self.seat() {
                                    sent.push(
                                        Outbound {
                                            to: Recipient::Player(*uuid),
                                            msg: MsgOut::NotYourTurn,
                                        },
                                    );
                                    assert(sent_view(sent@) =~= seq![
                                        to_player(*uuid, MsgOutView::NotYourTurn),
                                    ]);
                                    sent
                                } else {
                                    match action {
                                        Action::IThinkThereAre { number, face } => {
                                            self.action_i_think_there_are(
                                                Guess::new(*number, *face),
                                            )
                                        },
                                        Action::Liar => self.action_liar(),
                                        Action::Exactly => self.action_exactly(),
                                    }
                                }
                            },
                        }
                    },
                }
            },
        }
    }

    /// Handles one event while players are joining, and starts the game with
    /// the player that completes the roster.
    fn join(&mut self, event: &Event) -> (sent: Vec<Outbound>)
        requires
            old(self).wf(),
            old(self)@.phase == Phase::Joining,
        ensures
            final(self).wf(),
            old(self)@.steps_to(event@, final(self)@, sent_view(sent@)),
    {
        let ghost before = self@;
        let mut sent: Vec<Outbound> = Vec::new();
        assert(sent_view(sent@) =~= Seq::<OutboundView>::empty());
        match event {
            Event::TimedOut => {},
            Event::Message { uuid, name, payload } => {
                let reply = join_player(
                    &mut self.players,
                    *uuid,
                    name,
                    payload,
                    self.config.number_of_players,
                    self.config.starting_hand_size,
                );
                sent.push(Outbound { to: Recipient::Player(*uuid), msg: reply });
                let ghost replies = sent_view(sent@);
                let ghost joined = roster(self.players);
                assert(replies =~= reply_step(
                    before.players,
                    event@,
                    before.number_of_players,
                ));
                if players_len(&self.players) == self.config.number_of_players {
                    sent.push(Outbound { to: Recipient::Everyone, msg: MsgOut::GameStarted });
                    roll_all(&mut self.players, &mut self.rng, &mut sent);
                    proof {
                        lemma_all_alive(joined);
                        lemma_roll_keeps_seats(joined, roster(self.players));
                    }
                    self.turn(Guess::start(), &mut sent);
                    proof {
                        vstd::arithmetic::div_mod::lemma_mod_bound(
                            1,
                            before.number_of_players as int,
                        );
                        assert(!sits_out(joined, 1));
                    }
                    let ghost opened = sent_view(sent@);
                    assert(opened =~= replies + seq![to_everyone(MsgOutView::GameStarted)]
                        + rolled(self@.players) + seq![
                        to_everyone(
                            MsgOutView::Turn {
                                turn: 1,
                                number: 0,
                                face: JOKER,
                                next_player: self@.current().name,
                            },
                        ),
                    ]);
                    if self.config.number_of_players == 1 {
                        self.phase = Phase::GameEnd;
                        let winner = name_at(&self.players, self.seat());
                        sent.push(
                            Outbound { to: Recipient::Everyone, msg: MsgOut::GameEnded { winner } },
                        );
                        assert(sent_view(sent@) =~= opened + seq![
                            to_everyone(MsgOutView::GameEnded { winner: self@.current().name }),
                        ]);
                    } else {
                        self.phase = Phase::AwaitingBid;
                    }
                }
            },
        }
        proof {
            lemma_step_keeps_valid(before, event@, self@, sent_view(sent@));
        }
        sent
    }

    /// Handles one event: a message from a player, or the time for the turn
    /// that has run out.
    ///
    /// While players are joining, a message is answered as the joining has
    /// it, and the game starts with the player that completes the roster.
    /// While a round is on, the event ends the round or carries it on, as
    /// the rules have it. Once the game is over, nothing happens.
    ///
    /// The reaction says what is to be sent, and whether the time allowed
    /// for a turn starts anew: it does when a turn has begun.
    pub fn step(&mut self, event: &Event) -> (reaction: Reaction)
        requires
            old(self).wf(),
            old(self).has_turns_left(),
        ensures
            final(self).wf(),
            old(self)@.steps_to(event@, final(self)@, sent_view(reaction.sent@)),
            reaction.rearm == old(self)@.rearms(final(self)@),
    {
        let turn = self.turn;
        let sent = match self.phase {
            Phase::Joining => self.join(event),
            Phase::AwaitingBid => self.game_loop(event),
            Phase::GameEnd => {
                let sent: Vec<Outbound> = Vec::new();
                assert(sent_view(sent@) =~= Seq::<OutboundView>::empty());
                sent
            },
        };
        let rearm = self.phase == Phase::AwaitingBid && self.turn != turn;
        Reaction { sent, rearm }
    }

    /// Handles `events` one after the other, from the joining of the players
    /// to the end of the game, and stops where the game is over, where it
    /// has no turns left, or where the events run out.
    pub fn run(&mut self, events: &Vec<Event>) -> (played: Played)
        requires
            old(self).wf(),
        ensures
            final(self).wf(),
            played.consumed <= events@.len(),
            old(self)@.runs_to(
                events_view(events@).take(played.consumed as int),
                final(self)@,
                sent_view(played.sent@),
            ),
            played.consumed == events@.len() || final(self)@.phase == Phase::GameEnd
                || !final(self).has_turns_left(),
    {
        let ghost start = self@;
        let ghost all = events_view(events@);
        let mut sent: Vec<Outbound> = Vec::new();
        let mut consumed: usize = 0;
        proof {
            assert(sent_view(sent@) =~= Seq::<OutboundView>::empty());
        }
        while consumed < events.len() && self.phase != Phase::GameEnd && self.turn <= usize::MAX
            - self.config.number_of_players
            invariant
                all == events_view(events@),
                self.wf(),
                consumed <= events@.len(),
                start.runs_to(all.take(consumed as int), self@, sent_view(sent@)),
            decreases events@.len() - consumed,
        {
            let ghost mid = self@;
            let ghost said = sent_view(sent@);
            let mut told = self.step(&events[consumed]).sent;
            let ghost told_view = sent_view(told@);
            sent.append(&mut told);
            proof {
                let upto = all.take(consumed + 1);
                assert(sent_view(sent@) =~= said + told_view);
                lemma_run_goes_on(
                    start,
                    all.take(consumed as int),
                    mid,
                    said,
                    events@[consumed as int]@,
                    self@,
                    told_view,
                );
                assert(upto =~= all.take(consumed as int).push(events@[consumed as int]@));
            }
            consumed += 1;
        }
        Played { sent, consumed }
    }
}

} // verus!
