use crate::hand::fresh;
use crate::message::{
    sent_view, to_player, Event, EventView, MsgIn, MsgOut, MsgOutView, Outbound, OutboundView,
    Payload, PayloadView, Recipient,
};
use crate::player::{
    has_joined, keyed, no_players, players_index_of, players_insert, players_len, roster,
    Player, PlayerView, Players,
};
use crate::text::{not_connect_string, not_connect_text};
use vstd::prelude::*;

verus! {

/// Whether a message from `uuid` with `payload` brings a new player into
/// `roster`: it asks to join, and `uuid` has not joined yet.
pub open spec fn brings_newcomer(roster: Seq<PlayerView>, uuid: u128, payload: PayloadView) -> bool {
    payload == PayloadView::Admin(MsgIn::Connect) && !has_joined(roster, uuid)
}

/// The roster after a message from `uuid`, who calls itself `name`: a player
/// who comes in takes the next place, with a fresh hand.
pub open spec fn roster_with(
    roster: Seq<PlayerView>,
    uuid: u128,
    name: Seq<char>,
    payload: PayloadView,
    starting_hand_size: nat,
) -> Seq<PlayerView> {
    if brings_newcomer(roster, uuid, payload) {
        roster.push(PlayerView { uuid, name, hand: fresh(starting_hand_size) })
    } else {
        roster
    }
}

/// The answer to a message from `uuid` while players are joining.
pub open spec fn join_reply(
    roster: Seq<PlayerView>,
    uuid: u128,
    payload: PayloadView,
    number_of_players: nat,
) -> MsgOutView {
    match payload {
        PayloadView::Admin(MsgIn::Connect) => if has_joined(roster, uuid) {
            MsgOutView::AlreadyConnected
        } else {
            MsgOutView::Connected { number_of_players, already_connected: roster.len() + 1 }
        },
        PayloadView::Unknown(why) => MsgOutView::UnknownMessage(why),
        _ => MsgOutView::UnknownMessage(not_connect_text()),
    }
}

/// Handles one message while players are joining: a player who asks to join
/// and has not joined yet comes in; whoever has joined already, or sends
/// anything else, is told so, and the roster stays as it is.
pub fn join_player(
    players: &mut Players,
    uuid: u128,
    name: &String,
    payload: &Payload,
    number_of_players: usize,
    starting_hand_size: usize,
) -> (reply: MsgOut)
    requires
        keyed(*old(players)),
    ensures
        keyed(*final(players)),
        roster(*final(players)) == roster_with(
            roster(*old(players)),
            uuid,
            name@,
            payload@,
            starting_hand_size as nat,
        ),
        reply@ == join_reply(roster(*old(players)), uuid, payload@, number_of_players as nat),
{
    match payload {
        Payload::Admin(MsgIn::Connect) => {
            let known = players_index_of(players, uuid);
            match known {
                Some(seat) => {
                    assert(roster(*players)[seat as int].uuid == uuid);
                    MsgOut::AlreadyConnected
                },
                None => {
                    let player = Player::new(uuid, name.clone(), starting_hand_size);
                    players_insert(players, uuid, player);
                    assert(roster(*players) =~= roster(*old(players)).push(player@));
                    let already_connected = players_len(players);
                    MsgOut::Connected { number_of_players, already_connected }
                },
            }
        },
        Payload::Unknown(why) => MsgOut::UnknownMessage(why.clone()),
        _ => MsgOut::UnknownMessage(not_connect_string()),
    }
}

/// The events of `events`, each by its view.
pub open spec fn events_view(events: Seq<Event>) -> Seq<EventView> {
    Seq::new(events.len(), |i: int| events[i]@)
}

/// The roster after one more event.
pub open spec fn roster_step(roster: Seq<PlayerView>, event: EventView, starting_hand_size: nat) -> Seq<
    PlayerView,
> {
    match event {
        EventView::Message { uuid, name, payload } => roster_with(
            roster,
            uuid,
            name,
            payload,
            starting_hand_size,
        ),
        EventView::TimedOut => roster,
    }
}

/// What is answered to one more event: a message gets its answer, a time
/// that ran out gets none.
pub open spec fn reply_step(roster: Seq<PlayerView>, event: EventView, number_of_players: nat) -> Seq<
    OutboundView,
> {
    match event {
        EventView::Message { uuid, name, payload } => seq![
            to_player(uuid, join_reply(roster, uuid, payload, number_of_players)),
        ],
        EventView::TimedOut => Seq::empty(),
    }
}

/// The roster that `events` build, starting from nobody.
pub open spec fn roster_after(events: Seq<EventView>, starting_hand_size: nat) -> Seq<PlayerView>
    decreases events.len(),
{
    if events.len() == 0 {
        Seq::empty()
    } else {
        roster_step(
            roster_after(events.drop_last(), starting_hand_size),
            events.last(),
            starting_hand_size,
        )
    }
}

/// The answers to `events`, in their order.
pub open spec fn replies_after(
    events: Seq<EventView>,
    number_of_players: nat,
    starting_hand_size: nat,
) -> Seq<OutboundView>
    decreases events.len(),
{
    if events.len() == 0 {
        Seq::empty()
    } else {
        replies_after(events.drop_last(), number_of_players, starting_hand_size) + reply_step(
            roster_after(events.drop_last(), starting_hand_size),
            events.last(),
            number_of_players,
        )
    }
}

/// Whether the last of `events` brings in the player that completes the roster.
pub open spec fn fills(events: Seq<EventView>, number_of_players: nat, starting_hand_size: nat) -> bool {
    &&& events.len() > 0
    &&& roster_after(events, starting_hand_size).len() == number_of_players
    &&& roster_after(events.drop_last(), starting_hand_size).len() != number_of_players
}

/// What the joining of the players has come to.
pub struct Lobby {
    /// The players who came in, in the order in which they joined.
    pub players: Players,
    /// The answers given, in the order of the events.
    pub replies: Vec<Outbound>,
    /// How many of the events were handled.
    pub consumed: usize,
}

/// Takes in players from `events`, in their order, until `number_of_players`
/// have joined or the events run out. The events after the one that
/// completes the roster are left alone.
pub fn wait_for_players_to_join(
    events: &Vec<Event>,
    number_of_players: usize,
    starting_hand_size: usize,
) -> (lobby: Lobby)
    ensures
        keyed(lobby.players),
        lobby.consumed <= events@.len(),
        roster(lobby.players) == roster_after(
            events_view(events@).take(lobby.consumed as int),
            starting_hand_size as nat,
        ),
        sent_view(lobby.replies@) == replies_after(
            events_view(events@).take(lobby.consumed as int),
            number_of_players as nat,
            starting_hand_size as nat,
        ),
        lobby.consumed == events@.len() || fills(
            events_view(events@).take(lobby.consumed as int),
            number_of_players as nat,
            starting_hand_size as nat,
        ),
        forall|k: int|
            0 <= k < lobby.consumed ==> !fills(
                #[trigger] events_view(events@).take(k),
                number_of_players as nat,
                starting_hand_size as nat,
            ),
{
    let mut players = no_players();
    let mut replies: Vec<Outbound> = Vec::new();
    let mut consumed: usize = 0;
    let ghost all = events_view(events@);
    while consumed < events.len()
        invariant_except_break
            forall|k: int|
                0 <= k <= consumed ==> !fills(
                    #[trigger] all.take(k),
                    number_of_players as nat,
                    starting_hand_size as nat,
                ),
        invariant
            all == events_view(events@),
            consumed <= events@.len(),
            keyed(players),
            roster(players) == roster_after(all.take(consumed as int), starting_hand_size as nat),
            sent_view(replies@) == replies_after(
                all.take(consumed as int),
                number_of_players as nat,
                starting_hand_size as nat,
            ),
        ensures
            consumed <= events@.len(),
            keyed(players),
            roster(players) == roster_after(all.take(consumed as int), starting_hand_size as nat),
            sent_view(replies@) == replies_after(
                all.take(consumed as int),
                number_of_players as nat,
                starting_hand_size as nat,
            ),
            consumed == events@.len() || fills(
                all.take(consumed as int),
                number_of_players as nat,
                starting_hand_size as nat,
            ),
            forall|k: int|
                0 <= k < consumed ==> !fills(
                    #[trigger] all.take(k),
                    number_of_players as nat,
                    starting_hand_size as nat,
                ),
        decreases events@.len() - consumed,
    {
        let ghost before = all.take(consumed as int);
        let ghost sent_before = sent_view(replies@);
        let ghost roster_before = roster(players);
        proof {
            assert(all.take(consumed + 1).drop_last() =~= before);
        }
        let mut full = false;
        match &events[consumed] {
            Event::Message { uuid, name, payload } => {
                let reply = join_player(
                    &mut players,
                    *uuid,
                    name,
                    payload,
                    number_of_players,
                    starting_hand_size,
                );
                let came_in = match reply {
                    MsgOut::Connected { .. } => true,
                    _ => false,
                };
                replies.push(Outbound { to: Recipient::Player(*uuid), msg: reply });
                assert(sent_view(replies@) =~= sent_before + seq![
                    to_player(
                        *uuid,
                        join_reply(roster_before, *uuid, payload@, number_of_players as nat),
                    ),
                ]);
                full = came_in && players_len(&players) == number_of_players;
            },
            Event::TimedOut => {
            },
        }
        consumed += 1;
        proof {
            let now = all.take(consumed as int);
            assert(full == fills(now, number_of_players as nat, starting_hand_size as nat));
        }
        if full {
            break ;
        }
    }
    Lobby { players, replies, consumed }
}

} // verus!
