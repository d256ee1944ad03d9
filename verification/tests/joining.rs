use liars_dice::message::{Event, MsgIn, MsgOut, Outbound, Payload, Recipient, Action};
use liars_dice::player::{no_players, Player, Players};
use liars_dice::wait_for_players_to_join::{join_player, wait_for_players_to_join};

fn connect(uuid: u128, name: &str) -> Event {
    Event::Message { uuid, name: name.to_string(), payload: Payload::Admin(MsgIn::Connect) }
}

fn says(uuid: u128, name: &str, payload: Payload) -> Event {
    Event::Message { uuid, name: name.to_string(), payload }
}

fn to(uuid: u128, msg: MsgOut) -> Outbound {
    Outbound { to: Recipient::Player(uuid), msg }
}

fn names(players: &Players) -> Vec<String> {
    players.values().map(|player| player.name.clone()).collect()
}

#[test]
fn a_new_player_starts_with_a_fresh_hand() {
    let player = Player::new(42, "Ada".to_string(), 3);
    assert_eq!(player.uuid, 42);
    assert_eq!(player.name, "Ada");
    assert_eq!(player.hand.faces(), vec![1, 1, 1]);
    assert!(!player.is_eliminated());
    assert!(Player::new(43, "Bob".to_string(), 0).is_eliminated());
}

#[test]
fn a_player_who_asks_to_join_comes_in() {
    let mut players = no_players();
    let reply = join_player(
        &mut players,
        7,
        &"Ada".to_string(),
        &Payload::Admin(MsgIn::Connect),
        3,
        5,
    );
    assert_eq!(reply, MsgOut::Connected { number_of_players: 3, already_connected: 1 });
    assert_eq!(players.len(), 1);
    let (uuid, player) = players.get_index(0).unwrap();
    assert_eq!(*uuid, 7);
    assert_eq!(player.uuid, 7);
    assert_eq!(player.name, "Ada");
    assert_eq!(player.hand.faces(), vec![1, 1, 1, 1, 1]);
}

#[test]
fn a_player_who_has_joined_is_told_so() {
    let mut players = no_players();
    let ask = Payload::Admin(MsgIn::Connect);
    join_player(&mut players, 7, &"Ada".to_string(), &ask, 3, 5);
    join_player(&mut players, 8, &"Bob".to_string(), &ask, 3, 5);
    let reply = join_player(&mut players, 7, &"Ada again".to_string(), &ask, 3, 5);
    assert_eq!(reply, MsgOut::AlreadyConnected);
    assert_eq!(names(&players), vec!["Ada", "Bob"]);
}

#[test]
fn anything_but_a_request_to_join_is_unknown() {
    let mut players = no_players();
    let name = "Ada".to_string();
    let reply = join_player(
        &mut players,
        7,
        &name,
        &Payload::Unknown("expected value at line 1 column 1".to_string()),
        3,
        5,
    );
    assert_eq!(reply, MsgOut::UnknownMessage("expected value at line 1 column 1".to_string()));
    let expected = MsgOut::UnknownMessage("unknown variant, expected `Connect`".to_string());
    let reply = join_player(&mut players, 7, &name, &Payload::Admin(MsgIn::Disconnect), 3, 5);
    assert_eq!(reply, expected);
    let reply = join_player(&mut players, 7, &name, &Payload::Action(Action::Liar), 3, 5);
    assert_eq!(reply, expected);
    let reply = join_player(
        &mut players,
        7,
        &name,
        &Payload::Action(Action::IThinkThereAre { number: 1, face: 2 }),
        3,
        5,
    );
    assert_eq!(reply, expected);
    assert_eq!(players.len(), 0);
}

#[test]
fn joining_ends_with_the_player_that_completes_the_roster() {
    let events = vec![
        connect(1, "Ada"),
        says(9, "Eve", Payload::Unknown("no".to_string())),
        connect(1, "Ada"),
        Event::TimedOut,
        connect(2, "Bob"),
        connect(3, "Cy"),
        connect(4, "Di"),
    ];
    let lobby = wait_for_players_to_join(&events, 3, 2);
    assert_eq!(lobby.consumed, 6);
    assert_eq!(names(&lobby.players), vec!["Ada", "Bob", "Cy"]);
    assert_eq!(
        lobby.replies,
        vec![
            to(1, MsgOut::Connected { number_of_players: 3, already_connected: 1 }),
            to(9, MsgOut::UnknownMessage("no".to_string())),
            to(1, MsgOut::AlreadyConnected),
            to(2, MsgOut::Connected { number_of_players: 3, already_connected: 2 }),
            to(3, MsgOut::Connected { number_of_players: 3, already_connected: 3 }),
        ]
    );
    for player in lobby.players.values() {
        assert_eq!(player.hand.faces(), vec![1, 1]);
    }
}

#[test]
fn joining_goes_on_while_the_roster_is_open() {
    let events = vec![connect(1, "Ada"), connect(2, "Bob")];
    let lobby = wait_for_players_to_join(&events, 3, 2);
    assert_eq!(lobby.consumed, 2);
    assert_eq!(names(&lobby.players), vec!["Ada", "Bob"]);
    let nobody = wait_for_players_to_join(&Vec::new(), 3, 2);
    assert_eq!(nobody.consumed, 0);
    assert_eq!(nobody.players.len(), 0);
    assert_eq!(nobody.replies, Vec::new());
}

#[test]
fn a_roster_for_nobody_is_never_full() {
    let events = vec![connect(1, "Ada"), connect(2, "Bob")];
    let lobby = wait_for_players_to_join(&events, 0, 2);
    assert_eq!(lobby.consumed, 2);
    assert_eq!(names(&lobby.players), vec!["Ada", "Bob"]);
}

#[test]
fn a_roster_starts_with_nobody() {
    assert_eq!(no_players().len(), 0);
}
