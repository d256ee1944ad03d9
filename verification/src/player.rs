use crate::hand::{all_faces, Hand};
use indexmap::IndexMap;
use vstd::prelude::*;

verus! {

/// `indexmap::IndexMap`, a hash map that keeps its entries in the order in
/// which they were inserted and gives each a position, counted from zero.
#[verifier::external_type_specification]
#[verifier::external_body]
#[verifier::reject_recursive_types(K)]
#[verifier::reject_recursive_types(V)]
#[verifier::reject_recursive_types(S)]
pub struct ExIndexMap<K, V, S>(IndexMap<K, V, S>);

/// One participant: who it is, what it is called, and the dice it holds.
#[derive(Debug, Clone)]
pub struct Player {
    pub uuid: u128,
    pub name: String,
    pub hand: Hand,
}

/// A player as the rules see it.
pub struct PlayerView {
    pub uuid: u128,
    pub name: Seq<char>,
    pub hand: Seq<u8>,
}

impl View for Player {
    type V = PlayerView;

    open spec fn view(&self) -> PlayerView {
        PlayerView { uuid: self.uuid, name: self.name@, hand: self.hand@ }
    }
}

impl PlayerView {
    /// A player is out of the game once it holds no die.
    pub open spec fn is_eliminated(self) -> bool {
        self.hand.len() == 0
    }
}

impl Player {
    /// A player with a fresh hand of `starting_hand_size` dice.
    pub fn new(uuid: u128, name: String, starting_hand_size: usize) -> (player: Self)
        ensures
            player@ == (PlayerView {
                uuid,
                name: name@,
                hand: Seq::new(starting_hand_size as nat, |i: int| crate::die::JOKER),
            }),
    {
        Self { uuid, name, hand: Hand::new(starting_hand_size) }
    }

    /// Whether the player is out of the game.
    pub fn is_eliminated(&self) -> (out: bool)
        ensures
            out == self@.is_eliminated(),
    {
        self.hand.dice.len() == 0
    }
}

/// The players of a game by identity, in the order in which they joined.
pub type Players = IndexMap<u128, Player>;

/// The entries of the map, each a key with its value, in the map's order.
pub uninterp spec fn entries(players: Players) -> Seq<(u128, Player)>;

/// The players of the map, in its order.
pub open spec fn roster(players: Players) -> Seq<PlayerView> {
    Seq::new(entries(players).len(), |i: int| entries(players)[i].1@)
}

/// Every player is filed under its own identity, and no identity is filed
/// twice.
pub open spec fn keyed(players: Players) -> bool {
    &&& forall|i: int|
        0 <= i < entries(players).len() ==> (#[trigger] entries(players)[i]).0 == entries(
            players,
        )[i].1.uuid
    &&& distinct(roster(players))
}

/// No two players of `roster` share an identity.
pub open spec fn distinct(roster: Seq<PlayerView>) -> bool {
    forall|i: int, j: int|
        0 <= i < roster.len() && 0 <= j < roster.len() && i != j ==> (#[trigger] roster[i]).uuid
            != (#[trigger] roster[j]).uuid
}

/// Whether `uuid` is the identity of a player of `roster`.
pub open spec fn has_joined(roster: Seq<PlayerView>, uuid: u128) -> bool {
    exists|i: int| 0 <= i < roster.len() && (#[trigger] roster[i]).uuid == uuid
}

/// The position in `roster` of the player `uuid`. It means something only
/// where `has_joined` holds.
pub open spec fn seat_of(roster: Seq<PlayerView>, uuid: u128) -> int {
    choose|i: int| 0 <= i < roster.len() && (#[trigger] roster[i]).uuid == uuid
}

/// Every die of every hand shows one of the six faces.
pub open spec fn all_hands_faces(roster: Seq<PlayerView>) -> bool {
    forall|i: int| 0 <= i < roster.len() ==> all_faces((#[trigger] roster[i]).hand)
}

/// `IndexMap::new`. Trusted: the new map has no entry.
#[verifier::external_body]
pub(crate) fn players_new() -> (players: Players)
    ensures
        entries(players) == Seq::<(u128, Player)>::empty(),
{
    IndexMap::new()
}

/// A roster that nobody has joined yet.
pub fn no_players() -> (players: Players)
    ensures
        keyed(players),
        roster(players) == Seq::<PlayerView>::empty(),
{
    let players = players_new();
    players
}

/// `IndexMap::len`. Trusted: it is the number of entries.
#[verifier::external_body]
pub(crate) fn players_len(players: &Players) -> (len: usize)
    ensures
        len == entries(*players).len(),
{
    players.len()
}

/// `IndexMap::get_index_of`. Trusted: it gives a position at which `uuid` is
/// the key, and none only where no entry has that key.
#[verifier::external_body]
pub(crate) fn players_index_of(players: &Players, uuid: u128) -> (index: Option<usize>)
    ensures
        match index {
            Some(i) => i < entries(*players).len() && entries(*players)[i as int].0 == uuid,
            None => forall|i: int|
                0 <= i < entries(*players).len() ==> (#[trigger] entries(*players)[i]).0 != uuid,
        },
{
    players.get_index_of(&uuid)
}

/// `IndexMap::get_index`. Trusted: it gives the value of the entry at
/// `index`, and none only where `index` is no position of the map.
#[verifier::external_body]
pub(crate) fn players_at(players: &Players, index: usize) -> (found: Option<&Player>)
    ensures
        index < entries(*players).len() ==> found == Some(&entries(*players)[index as int].1),
        index >= entries(*players).len() ==> found is None,
{
    players.get_index(index).map(|(_, player)| player)
}

/// `IndexMap::get_index_mut`. Trusted: it lends the value of the entry at
/// `index`; what the borrower leaves there is the entry's new value, under
/// the same key, and no other entry changes.
#[verifier::external_body]
pub(crate) fn players_at_mut(players: &mut Players, index: usize) -> (found: &mut Player)
    requires
        index < entries(*old(players)).len(),
    ensures
        *found == entries(*old(players))[index as int].1,
        entries(*final(players)) == entries(*old(players)).update(
            index as int,
            (entries(*old(players))[index as int].0, *final(found)),
        ),
{
    players.get_index_mut(index).unwrap().1
}

/// `IndexMap::insert`. Trusted: where no entry has the key, the pair becomes
/// the last entry and nothing is given back; where one has it, that entry
/// keeps its position and its key, takes the new value and gives back the
/// old one.
#[verifier::external_body]
pub(crate) fn players_insert(players: &mut Players, uuid: u128, player: Player) -> (replaced:
    Option<Player>)
    ensures
        match replaced {
            None => {
                &&& forall|i: int|
                    0 <= i < entries(*old(players)).len() ==> (#[trigger] entries(
                        *old(players),
                    )[i]).0 != uuid
                &&& entries(*final(players)) == entries(*old(players)).push((uuid, player))
            },
            Some(before) => exists|i: int|
                {
                    &&& 0 <= i < entries(*old(players)).len()
                    &&& (#[trigger] entries(*old(players))[i]) == (uuid, before)
                    &&& entries(*final(players)) == entries(*old(players)).update(
                        i,
                        (uuid, player),
                    )
                },
        },
{
    players.insert(uuid, player)
}

} // verus!
