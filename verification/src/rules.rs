use crate::die::{is_face, JOKER};
use crate::guess::{Guess, InvalidBid};
use crate::hand::{all_faces, fresh, matching};
use crate::message::{
    to_everyone, to_player, Action, EventView, MsgIn, MsgOutView, OutboundView, PayloadView,
};
use crate::player::{all_hands_faces, distinct, has_joined, seat_of, PlayerView};
use crate::text::{
    count_text, full_text, gained_text, idle_text, invalid_bid_reason, invalid_bid_text,
    lost_text,
};
use crate::wait_for_players_to_join::{reply_step, roster_step};
use vstd::prelude::*;

verus! {

/// Where a game stands between two events. A round that is called is
/// resolved and ended within the step that calls it, so a game is never
/// found in the middle of that.
#[derive(Debug, Clone, Copy, PartialEq, Eq, Structural)]
pub enum Phase {
    /// Players are still joining.
    Joining,
    /// A round is on: the player whose turn it is has to raise the bid or
    /// challenge it.
    AwaitingBid,
    /// One player is left. Nothing happens any more.
    GameEnd,
}

/// A game as the rules see it.
pub struct GameView {
    /// How long a player has for its turn, in milliseconds.
    pub turn_duration_ms: u64,
    /// How many players the game is for.
    pub number_of_players: nat,
    /// How many dice each player starts with, and may hold at most.
    pub starting_hand_size: nat,
    /// The players, in the order in which they joined. A player keeps its
    /// seat, its position here, for the whole game, also when it is out of
    /// the game; the turn then passes over its seat.
    pub players: Seq<PlayerView>,
    /// The number of the turn. The seat whose turn it is, is this number
    /// modulo the number of players. The number grows by one from turn to
    /// turn while every player is in the game, and by more where it has to
    /// pass over the seats of players who are out.
    pub turn: nat,
    /// The bid that stands.
    pub guess: Guess,
    /// The seat that made the bid, if a bid was made in this round.
    pub bidder: Option<int>,
    /// How many players are left in the game.
    pub remaining: nat,
    pub phase: Phase,
}

/// What ends a round: who pays for it, with a die lost or won, why, and what
/// the engine says before it announces the result.
pub struct Ruling {
    pub who: int,
    pub lost: bool,
    pub reason: Seq<char>,
    pub notice: Seq<OutboundView>,
}

/// Who pays for a challenge: the one who made the bid, or the one who
/// challenged it.
#[derive(Debug, Clone, Copy, PartialEq, Eq, Structural)]
pub enum Payer {
    Bidder,
    Challenger,
}

/// How a challenge ends: who pays, and whether with a die lost or a die won.
#[derive(Debug, Clone, Copy, PartialEq, Eq, Structural)]
pub struct Verdict {
    pub payer: Payer,
    pub lost: bool,
}

/// How it ends to dispute a bid on `number` dice when `actual` count: the
/// bidder loses a die if fewer count than were bid; the challenger loses one
/// if as many count, or more.
pub open spec fn liar_verdict(actual: nat, number: u8) -> Verdict {
    if actual < number {
        Verdict { payer: Payer::Bidder, lost: true }
    } else {
        Verdict { payer: Payer::Challenger, lost: true }
    }
}

/// How it ends to claim that a bid on `number` dice is met to the die when
/// `actual` count: the challenger wins a die if it is, and loses one if it
/// is not.
pub open spec fn exactly_verdict(actual: nat, number: u8) -> Verdict {
    Verdict { payer: Payer::Challenger, lost: actual != number }
}

/// Judges a bid that is disputed, by the number of dice that count.
pub fn judge_liar(actual: u128, guess: &Guess) -> (verdict: Verdict)
    ensures
        verdict == liar_verdict(actual as nat, guess.number),
{
    if actual < guess.number as u128 {
        Verdict { payer: Payer::Bidder, lost: true }
    } else {
        Verdict { payer: Payer::Challenger, lost: true }
    }
}

/// Judges a bid that is claimed to be met to the die, by the number of dice
/// that count.
pub fn judge_exactly(actual: u128, guess: &Guess) -> (verdict: Verdict)
    ensures
        verdict == exactly_verdict(actual as nat, guess.number),
{
    Verdict { payer: Payer::Challenger, lost: actual != guess.number as u128 }
}

/// The seats whose players are still in the game.
pub open spec fn alive_seats(players: Seq<PlayerView>) -> Set<int> {
    Set::new(|i: int| 0 <= i < players.len() && !players[i].is_eliminated())
}

/// Whether the seat that turn number `turn` falls to is empty: its player is
/// out of the game.
pub open spec fn sits_out(players: Seq<PlayerView>, turn: nat) -> bool {
    players[(turn % players.len()) as int].is_eliminated()
}

/// Whether `next` is the turn that follows `turn`: the first turn number
/// after it that falls to a player who is still in the game.
pub open spec fn is_next_turn(players: Seq<PlayerView>, turn: nat, next: nat) -> bool {
    &&& turn < next
    &&& !sits_out(players, next)
    &&& forall|t: nat| turn < t < next ==> #[trigger] sits_out(players, t)
}

/// How many dice, over all hands of `players`, count towards a bid on
/// `face`.
pub open spec fn total_matching(players: Seq<PlayerView>, face: u8) -> nat
    decreases players.len(),
{
    if players.len() == 0 {
        0
    } else {
        total_matching(players.drop_last(), face) + matching(players.last().hand, face)
    }
}

/// Whether `after` is `before` with every hand rolled again: the same
/// players with as many dice each, showing whatever they show.
pub open spec fn rerolled(before: Seq<PlayerView>, after: Seq<PlayerView>) -> bool {
    &&& after.len() == before.len()
    &&& forall|i: int|
        0 <= i < after.len() ==> {
            &&& (#[trigger] after[i]).uuid == before[i].uuid
            &&& after[i].name == before[i].name
            &&& after[i].hand.len() == before[i].hand.len()
            &&& all_faces(after[i].hand)
        }
}

/// Every player's name with its hand, in the order of the seats.
pub open spec fn revealed(players: Seq<PlayerView>) -> Seq<(Seq<char>, Seq<u8>)> {
    Seq::new(players.len(), |i: int| (players[i].name, players[i].hand))
}

/// What each player is told after a roll: its own hand, in the order of the
/// seats.
pub open spec fn rolled(players: Seq<PlayerView>) -> Seq<OutboundView> {
    Seq::new(
        players.len(),
        |i: int| to_player(players[i].uuid, MsgOutView::YouRolled { hand: players[i].hand }),
    )
}

/// A hand after a round that its player paid for: without its last die
/// where a die is lost; with one more die, showing the joker, where one is
/// won and the hand holds fewer than `limit`.
pub open spec fn settled_hand(hand: Seq<u8>, lost: bool, limit: nat) -> Seq<u8> {
    if lost {
        if hand.len() > 0 {
            hand.drop_last()
        } else {
            hand
        }
    } else if hand.len() < limit {
        hand.push(JOKER)
    } else {
        hand
    }
}

/// The bid that opens every round.
pub open spec fn opening_bid() -> Guess {
    Guess { number: 0, face: JOKER }
}

impl GameView {
    /// A game for which nobody has joined yet.
    pub open spec fn initial(
        turn_duration_ms: u64,
        number_of_players: nat,
        starting_hand_size: nat,
    ) -> GameView {
        GameView {
            turn_duration_ms,
            number_of_players,
            starting_hand_size,
            players: Seq::empty(),
            turn: 0,
            guess: opening_bid(),
            bidder: None,
            remaining: number_of_players,
            phase: Phase::Joining,
        }
    }

    /// The seat whose turn it is.
    pub open spec fn seat(self) -> int {
        (self.turn % self.number_of_players) as int
    }

    /// The player whose turn it is.
    pub open spec fn current(self) -> PlayerView {
        self.players[self.seat()]
    }

    /// How many dice, over all hands, count towards the bid that stands.
    pub open spec fn actual(self) -> nat {
        total_matching(self.players, self.guess.face)
    }

    /// What holds of every game, whatever has happened in it.
    pub open spec fn valid(self) -> bool {
        &&& self.number_of_players >= 1
        &&& self.starting_hand_size >= 1
        &&& distinct(self.players)
        &&& all_hands_faces(self.players)
        &&& forall|i: int|
            0 <= i < self.players.len() ==> (#[trigger] self.players[i]).hand.len()
                <= self.starting_hand_size
        &&& is_face(self.guess.face)
        &&& match self.phase {
            Phase::Joining => {
                &&& self.players.len() < self.number_of_players
                &&& forall|i: int|
                    0 <= i < self.players.len() ==> (#[trigger] self.players[i]).hand == fresh(
                        self.starting_hand_size,
                    )
                &&& self.turn == 0
                &&& self.guess == opening_bid()
                &&& self.bidder is None
                &&& self.remaining == self.number_of_players
            },
            Phase::AwaitingBid => {
                &&& self.seated()
                &&& self.remaining >= 2
                &&& match self.bidder {
                    Some(bidder) => {
                        &&& 0 <= bidder < self.number_of_players
                        &&& bidder != self.seat()
                        &&& !self.players[bidder].is_eliminated()
                    },
                    None => self.guess.number == 0,
                }
            },
            Phase::GameEnd => {
                &&& self.seated()
                &&& self.remaining == 1
                &&& self.bidder is None
            },
        }
    }

    /// Every seat is taken, the players left in the game are counted right,
    /// and the turn is with one of them.
    pub open spec fn seated(self) -> bool {
        &&& self.players.len() == self.number_of_players
        &&& self.remaining == alive_seats(self.players).len()
        &&& !sits_out(self.players, self.turn)
    }

    /// The seat that pays as `payer`: the one that made the bid, or the one
    /// whose turn it is.
    pub open spec fn seat_of_payer(self, payer: Payer) -> int {
        match payer {
            Payer::Bidder => self.bidder.unwrap(),
            Payer::Challenger => self.seat(),
        }
    }

    /// What ends the round when the time runs out: the player whose turn it
    /// is loses a die.
    pub open spec fn idle_ruling(self) -> Ruling {
        Ruling { who: self.seat(), lost: true, reason: idle_text(), notice: Seq::empty() }
    }

    /// What ends the round when the player whose turn it is raises to `raise`
    /// and breaks the rule `broken`: it is told so, and loses a die.
    pub open spec fn refused_ruling(self, raise: Guess, broken: InvalidBid) -> Ruling {
        let reason = invalid_bid_reason(broken, self.guess, raise);
        Ruling {
            who: self.seat(),
            lost: true,
            reason: invalid_bid_text(reason),
            notice: seq![to_player(self.current().uuid, MsgOutView::InvalidBid { reason })],
        }
    }

    /// What ends the round when the player whose turn it is disputes the bid.
    pub open spec fn liar_ruling(self) -> Ruling {
        let verdict = liar_verdict(self.actual(), self.guess.number);
        Ruling {
            who: self.seat_of_payer(verdict.payer),
            lost: verdict.lost,
            reason: count_text(self.actual(), self.guess),
            notice: Seq::empty(),
        }
    }

    /// What ends the round when the player whose turn it is claims that the
    /// bid is met to the die.
    pub open spec fn exactly_ruling(self) -> Ruling {
        let verdict = exactly_verdict(self.actual(), self.guess.number);
        Ruling {
            who: self.seat_of_payer(verdict.payer),
            lost: verdict.lost,
            reason: count_text(self.actual(), self.guess),
            notice: Seq::empty(),
        }
    }

    /// What ends the round on `event`, if `event` ends it: the time that
    /// runs out, a raise that breaks a rule, or a challenge, each by the
    /// player whose turn it is.
    pub open spec fn ruling(self, event: EventView) -> Option<Ruling> {
        match event {
            EventView::TimedOut => Some(self.idle_ruling()),
            EventView::Message { uuid, name, payload: PayloadView::Action(action) } => {
                if uuid != self.current().uuid {
                    None
                } else {
                    match action {
                        Action::IThinkThereAre { number, face } => {
                            let raise = Guess { number, face };
                            match self.guess.objection(raise) {
                                None => None,
                                Some(broken) => Some(self.refused_ruling(raise, broken)),
                            }
                        },
                        Action::Liar => Some(self.liar_ruling()),
                        Action::Exactly => Some(self.exactly_ruling()),
                    }
                }
            },
            _ => None,
        }
    }

    /// The players after the seat `who` has paid for a round, with a die lost
    /// or won, and before any hand is rolled again.
    pub open spec fn settled(self, who: int, lost: bool) -> Seq<PlayerView> {
        let payer = self.players[who];
        self.players.update(
            who,
            PlayerView { hand: settled_hand(payer.hand, lost, self.starting_hand_size), ..payer },
        )
    }

    /// Whether a round that the seat `who` pays for, with a die lost or won,
    /// leaves the game as `next`.
    ///
    /// The one who pays loses or wins its die, and is out of the game if it
    /// has none left; the number of players left goes down with it. If that
    /// leaves one player, the game is over with the hands as they are.
    /// Otherwise every hand is rolled again. Either way the opening bid
    /// stands, and the turn passes on.
    pub open spec fn round_leaves(self, who: int, lost: bool, next: GameView) -> bool {
        let settled = self.settled(who, lost);
        let remaining = if settled[who].is_eliminated() {
            (self.remaining - 1) as nat
        } else {
            self.remaining
        };
        &&& next.turn_duration_ms == self.turn_duration_ms
        &&& next.number_of_players == self.number_of_players
        &&& next.starting_hand_size == self.starting_hand_size
        &&& next.guess == opening_bid()
        &&& next.bidder is None
        &&& next.remaining == remaining
        &&& is_next_turn(settled, self.turn, next.turn)
        &&& if remaining <= 1 {
            next.phase == Phase::GameEnd && next.players == settled
        } else {
            next.phase == Phase::AwaitingBid && rerolled(settled, next.players)
        }
    }

    /// What is said when a round ends by `ruling` and leaves the game as
    /// `next`: what the ruling has to say first; the result, with the hands
    /// as they were when the round was called; and then either the winner,
    /// or to each player its new hand and to all the turn that follows. The
    /// result names the one who pays and says whether a die was lost, was
    /// won, or was won by a hand that was full and could take none.
    pub open spec fn round_says(self, ruling: Ruling, next: GameView) -> Seq<OutboundView> {
        let payer = self.players[ruling.who];
        let result = if ruling.lost {
            lost_text(payer.name, ruling.reason)
        } else if payer.hand.len() < self.starting_hand_size {
            gained_text(payer.name, ruling.reason)
        } else {
            full_text(payer.name, ruling.reason)
        };
        let announced = to_everyone(
            MsgOutView::Round { result, revealed_hands: revealed(self.players) },
        );
        if next.phase == Phase::GameEnd {
            ruling.notice + seq![
                announced,
                to_everyone(MsgOutView::GameEnded { winner: next.current().name }),
            ]
        } else {
            ruling.notice + seq![announced] + rolled(next.players) + seq![
                to_everyone(
                    MsgOutView::Turn {
                        turn: next.turn,
                        number: 0,
                        face: JOKER,
                        next_player: next.current().name,
                    },
                ),
            ]
        }
    }

    /// Whether a round that ends by `ruling` leaves the game as `next`, with
    /// `sent` said on the way.
    pub open spec fn round_ends(self, ruling: Ruling, next: GameView, sent: Seq<OutboundView>) -> bool {
        self.round_leaves(ruling.who, ruling.lost, next) && sent == self.round_says(ruling, next)
    }

    /// Whether a raise to `guess` by the player whose turn it is, which the
    /// rules allow, leaves the game as `next`, with `sent` said on the way:
    /// the raise is the bid that stands, its player is the bidder, the turn
    /// passes on, and everybody is told.
    pub open spec fn raise_stands(self, guess: Guess, next: GameView, sent: Seq<OutboundView>) -> bool {
        &&& next == GameView { guess, bidder: Some(self.seat()), turn: next.turn, ..self }
        &&& is_next_turn(self.players, self.turn, next.turn)
        &&& sent == seq![
            to_everyone(
                MsgOutView::Turn {
                    turn: next.turn,
                    number: guess.number,
                    face: guess.face,
                    next_player: next.current().name,
                },
            ),
        ]
    }

    /// Whether `event`, which does not end the round, leaves the game as
    /// `next`, with `sent` said on the way.
    ///
    /// A stranger is told that the game has started. A player who connects
    /// again is known by the name it gives from then on. A player who
    /// disconnects gets no answer. A message that cannot be read is answered
    /// with the reason. An action out of turn is refused. A raise that the
    /// rules allow becomes the bid, and the turn passes on.
    pub open spec fn carries_on(self, event: EventView, next: GameView, sent: Seq<OutboundView>) -> bool {
        match event {
            EventView::TimedOut => false,
            EventView::Message { uuid, name, payload } => {
                if !has_joined(self.players, uuid) {
                    next == self && sent == seq![to_player(uuid, MsgOutView::GameAlreadyStarted)]
                } else {
                    let seat = seat_of(self.players, uuid);
                    match payload {
                        PayloadView::Admin(MsgIn::Connect) => {
                            &&& next == GameView {
                                players: self.players.update(
                                    seat,
                                    PlayerView { name, ..self.players[seat] },
                                ),
                                ..self
                            }
                            &&& sent == seq![to_player(uuid, MsgOutView::Reconnected)]
                        },
                        PayloadView::Admin(MsgIn::Disconnect) => {
                            next == self && sent == Seq::<OutboundView>::empty()
                        },
                        PayloadView::Unknown(why) => {
                            next == self && sent == seq![
                                to_player(uuid, MsgOutView::UnknownMessage(why)),
                            ]
                        },
                        PayloadView::Action(action) => {
                            if uuid != self.current().uuid {
                                next == self && sent == seq![
                                    to_player(uuid, MsgOutView::NotYourTurn),
                                ]
                            } else {
                                match action {
                                    Action::IThinkThereAre { number, face } => self.raise_stands(
                                        Guess { number, face },
                                        next,
                                        sent,
                                    ),
                                    _ => false,
                                }
                            }
                        },
                    }
                }
            },
        }
    }

    /// Whether `event` leaves a game whose players are still joining as
    /// `next`, with `sent` said on the way.
    ///
    /// A message is answered as the joining of players has it. With the
    /// player that completes the roster the game starts: everybody is told
    /// so, every hand is rolled, and the first turn is announced. A game
    /// for one player is over as it starts.
    pub open spec fn joins(self, event: EventView, next: GameView, sent: Seq<OutboundView>) -> bool {
        let joined = roster_step(self.players, event, self.starting_hand_size);
        let replies = reply_step(self.players, event, self.number_of_players);
        if joined.len() == self.number_of_players && self.players.len() != joined.len() {
            &&& next.turn_duration_ms == self.turn_duration_ms
            &&& next.number_of_players == self.number_of_players
            &&& next.starting_hand_size == self.starting_hand_size
            &&& rerolled(joined, next.players)
            &&& next.turn == 1
            &&& next.guess == opening_bid()
            &&& next.bidder is None
            &&& next.remaining == self.number_of_players
            &&& next.phase == if self.number_of_players == 1 {
                Phase::GameEnd
            } else {
                Phase::AwaitingBid
            }
            &&& sent == replies + seq![to_everyone(MsgOutView::GameStarted)] + rolled(next.players)
                + seq![
                to_everyone(
                    MsgOutView::Turn {
                        turn: 1,
                        number: 0,
                        face: JOKER,
                        next_player: next.current().name,
                    },
                ),
            ] + if self.number_of_players == 1 {
                seq![to_everyone(MsgOutView::GameEnded { winner: next.current().name })]
            } else {
                Seq::empty()
            }
        } else {
            next == GameView { players: joined, ..self } && sent == replies
        }
    }

    /// Whether `event` leaves the game as `next`, with `sent` said on the
    /// way. The dice decide what the hands show after a roll; everything
    /// else follows from the game and the event.
    pub open spec fn steps_to(self, event: EventView, next: GameView, sent: Seq<OutboundView>) -> bool {
        match self.phase {
            Phase::Joining => self.joins(event, next, sent),
            Phase::AwaitingBid => match self.ruling(event) {
                Some(ruling) => self.round_ends(ruling, next, sent),
                None => self.carries_on(event, next, sent),
            },
            Phase::GameEnd => next == self && sent == Seq::<OutboundView>::empty(),
        }
    }

    /// Whether the time allowed for a turn starts anew as the game goes from
    /// `self` to `next`: it does where a turn begins, and only there. The
    /// time of a turn is one span, set when the turn begins; what happens
    /// during the turn without ending it neither shortens nor renews it.
    pub open spec fn rearms(self, next: GameView) -> bool {
        next.phase == Phase::AwaitingBid && next.turn != self.turn
    }

    /// Whether the number of the turn can still grow by a full round of the
    /// table without leaving the range of the machine's integers.
    pub open spec fn has_turns_left(self) -> bool {
        self.turn + self.number_of_players <= usize::MAX
    }

    /// Whether `events`, handled one after the other, leave the game as
    /// `next`, with `sent` said on the way. Every event is handled while the
    /// game is not over and has turns left.
    pub open spec fn runs_to(self, events: Seq<EventView>, next: GameView, sent: Seq<OutboundView>) -> bool
        decreases events.len(),
    {
        if events.len() == 0 {
            next == self && sent == Seq::<OutboundView>::empty()
        } else {
            exists|mid: GameView, said: Seq<OutboundView>, told: Seq<OutboundView>|
                {
                    &&& self.runs_to(events.drop_last(), mid, said)
                    &&& mid.phase != Phase::GameEnd
                    &&& mid.has_turns_left()
                    &&& #[trigger] mid.steps_to(events.last(), next, told)
                    &&& sent == #[trigger] (said + told)
                }
        }
    }
}

} // verus!
