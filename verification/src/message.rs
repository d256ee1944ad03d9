use vstd::prelude::*;

verus! {

/// What a player may say at any time, whoever's turn it is.
#[derive(Debug, Clone, Copy, PartialEq, Eq, Structural)]
pub enum MsgIn {
    Connect,
    Disconnect,
}

/// What the player whose turn it is may do.
#[derive(Debug, Clone, Copy, PartialEq, Eq, Structural)]
pub enum Action {
    /// Raises the bid to `number` dice showing `face`.
    IThinkThereAre { number: u8, face: u8 },
    /// Disputes the bid.
    Liar,
    /// Claims that the bid is met to the die.
    Exactly,
}

/// What a message holds, once it has been read.
#[derive(Debug, Clone, PartialEq, Eq)]
pub enum Payload {
    Admin(MsgIn),
    Action(Action),
    /// The message could not be read; the text says why.
    Unknown(String),
}

/// What the engine reacts to.
#[derive(Debug, Clone, PartialEq, Eq)]
pub enum Event {
    /// The player `uuid`, who calls itself `name`, sent `payload`.
    Message { uuid: u128, name: String, payload: Payload },
    /// The time allowed for the turn has run out.
    TimedOut,
}

/// Who a message goes to.
#[derive(Debug, Clone, Copy, PartialEq, Eq, Structural)]
pub enum Recipient {
    Player(u128),
    Everyone,
}

/// What the engine tells the players.
#[derive(Debug, Clone, PartialEq, Eq)]
pub enum MsgOut {
    GameStarted,
    GameEnded { winner: String },
    Reconnected,
    GameAlreadyStarted,
    UnknownMessage(String),
    NotYourTurn,
    Turn { turn: usize, number: u8, face: u8, next_player: String },
    /// How a round ended, with every player's name and hand as they were
    /// when the round was called.
    Round { result: String, revealed_hands: Vec<(String, Vec<u8>)> },
    YouRolled { hand: Vec<u8> },
    Connected { number_of_players: usize, already_connected: usize },
    AlreadyConnected,
    InvalidBid { reason: String },
}

/// A message with the one it goes to.
#[derive(Debug, Clone, PartialEq, Eq)]
pub struct Outbound {
    pub to: Recipient,
    pub msg: MsgOut,
}

pub enum PayloadView {
    Admin(MsgIn),
    Action(Action),
    Unknown(Seq<char>),
}

pub enum EventView {
    Message { uuid: u128, name: Seq<char>, payload: PayloadView },
    TimedOut,
}

pub enum MsgOutView {
    GameStarted,
    GameEnded { winner: Seq<char> },
    Reconnected,
    GameAlreadyStarted,
    UnknownMessage(Seq<char>),
    NotYourTurn,
    Turn { turn: nat, number: u8, face: u8, next_player: Seq<char> },
    Round { result: Seq<char>, revealed_hands: Seq<(Seq<char>, Seq<u8>)> },
    YouRolled { hand: Seq<u8> },
    Connected { number_of_players: nat, already_connected: nat },
    AlreadyConnected,
    InvalidBid { reason: Seq<char> },
}

pub struct OutboundView {
    pub to: Recipient,
    pub msg: MsgOutView,
}

impl View for Payload {
    type V = PayloadView;

    open spec fn view(&self) -> PayloadView {
        match *self {
            Payload::Admin(msg) => PayloadView::Admin(msg),
            Payload::Action(action) => PayloadView::Action(action),
            Payload::Unknown(why) => PayloadView::Unknown(why@),
        }
    }
}

impl View for Event {
    type V = EventView;

    open spec fn view(&self) -> EventView {
        match *self {
            Event::Message { uuid, name, payload } => EventView::Message {
                uuid,
                name: name@,
                payload: payload@,
            },
            Event::TimedOut => EventView::TimedOut,
        }
    }
}

/// Names and hands as sequences of characters and faces.
pub open spec fn hands_view(hands: Seq<(String, Vec<u8>)>) -> Seq<(Seq<char>, Seq<u8>)> {
    Seq::new(hands.len(), |i: int| (hands[i].0@, hands[i].1@))
}

impl View for MsgOut {
    type V = MsgOutView;

    open spec fn view(&self) -> MsgOutView {
        match *self {
            MsgOut::GameStarted => MsgOutView::GameStarted,
            MsgOut::GameEnded { winner } => MsgOutView::GameEnded { winner: winner@ },
            MsgOut::Reconnected => MsgOutView::Reconnected,
            MsgOut::GameAlreadyStarted => MsgOutView::GameAlreadyStarted,
            MsgOut::UnknownMessage(why) => MsgOutView::UnknownMessage(why@),
            MsgOut::NotYourTurn => MsgOutView::NotYourTurn,
            MsgOut::Turn { turn, number, face, next_player } => MsgOutView::Turn {
                turn: turn as nat,
                number,
                face,
                next_player: next_player@,
            },
            MsgOut::Round { result, revealed_hands } => MsgOutView::Round {
                result: result@,
                revealed_hands: hands_view(revealed_hands@),
            },
            MsgOut::YouRolled { hand } => MsgOutView::YouRolled { hand: hand@ },
            MsgOut::Connected { number_of_players, already_connected } => MsgOutView::Connected {
                number_of_players: number_of_players as nat,
                already_connected: already_connected as nat,
            },
            MsgOut::AlreadyConnected => MsgOutView::AlreadyConnected,
            MsgOut::InvalidBid { reason } => MsgOutView::InvalidBid { reason: reason@ },
        }
    }
}

impl View for Outbound {
    type V = OutboundView;

    open spec fn view(&self) -> OutboundView {
        OutboundView { to: self.to, msg: self.msg@ }
    }
}

/// The messages of `sent`, each by its view.
pub open spec fn sent_view(sent: Seq<Outbound>) -> Seq<OutboundView> {
    Seq::new(sent.len(), |i: int| sent[i]@)
}

/// `msg`, addressed to the player `uuid`.
pub open spec fn to_player(uuid: u128, msg: MsgOutView) -> OutboundView {
    OutboundView { to: Recipient::Player(uuid), msg }
}

/// `msg`, addressed to every player.
pub open spec fn to_everyone(msg: MsgOutView) -> OutboundView {
    OutboundView { to: Recipient::Everyone, msg }
}

} // verus!
