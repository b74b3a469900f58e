use backend::attachment::WebsocketAttachment;
use backend::error::RoomError;
use backend::game_state::{GameState, Stored, User, GAME_STATE_KEY};
use backend::sync::{Departure, FetchAction, SillySync, Update};

fn user(x: f32, y: f32, avatar: &str) -> User {
    User::new(x.to_bits(), y.to_bits(), avatar.to_string())
}

fn state(entries: &[(&str, f32, f32, &str)]) -> GameState {
    let mut s = GameState::new();
    for (id, x, y, avatar) in entries {
        s.users.insert(id.to_string(), user(*x, *y, avatar));
    }
    s
}

fn assert_user(s: &GameState, id: &str, x: f32, y: f32, avatar: &str) {
    let u = s.users.get(&id.to_string()).expect("record present");
    assert_eq!(f32::from_bits(u.x), x);
    assert_eq!(f32::from_bits(u.y), y);
    assert_eq!(u.avatar, avatar);
}

fn attachment(id: &str) -> Option<WebsocketAttachment> {
    Some(WebsocketAttachment::new(id.to_string()))
}

fn connect(room: &mut SillySync<u32>, ws: u32, query: &str) {
    let upgrade = Some("websocket".to_string());
    match room.fetch(&upgrade, query) {
        Ok(FetchAction::Upgrade(meta)) => {
            room.accept(ws, meta);
        }
        other => panic!("expected an upgrade, got {:?}", other),
    }
}

fn sockets(recipients: &[&u32]) -> Vec<u32> {
    recipients.iter().map(|w| **w).collect()
}

/// What a read of a store that holds `stored` gives.
fn read(stored: Option<GameState>) -> Stored {
    match stored {
        Some(state) => Stored::Found(state),
        None => Stored::Missing,
    }
}

/// Plays the host for an update whose write succeeds: the new state and the
/// connections that were sent it.
fn carry_out(update: Update<'_, u32>) -> (GameState, Vec<u32>) {
    let Update { key, state, broadcast } = update;
    assert_eq!(key, GAME_STATE_KEY);
    let recipients = broadcast.after_write(true).expect("written");
    (state, sockets(&recipients))
}

#[test]
fn storage_key_is_fixed() {
    assert_eq!(GAME_STATE_KEY, "GAME_STATE");
}

#[test]
fn lobby_scenario() {
    let mut room: SillySync<u32> = SillySync::new(Vec::new());
    let mut stored: Option<GameState> = None;
    assert!(room.is_empty());

    // A connects and sends its record.
    connect(&mut room, 1, "client_id=a1");
    assert_eq!(room.len(), 1);
    let update = room
        .websocket_message(Some(state(&[("a1", 1.0, 2.0, "cat")])))
        .expect("accepted");
    let (written, heard) = carry_out(update);
    assert_eq!(heard, vec![1]);
    stored = Some(written);

    // A plain fetch answers that exact object.
    let fetched = SillySync::<u32>::fetch_state(read(stored.take()));
    assert_eq!(fetched.users.len(), 1);
    assert_user(&fetched, "a1", 1.0, 2.0, "cat");
    stored = Some(fetched);

    // B connects and sends both records; A and B both hear of them.
    connect(&mut room, 2, "client_id=b2");
    assert_eq!(room.len(), 2);
    let update = room
        .websocket_message(Some(state(&[("a1", 1.0, 2.0, "cat"), ("b2", 5.0, 5.0, "dog")])))
        .expect("accepted");
    let (written, heard) = carry_out(update);
    assert_eq!(heard, vec![1, 2]);
    assert_eq!(written.users.len(), 2);
    assert_user(&written, "a1", 1.0, 2.0, "cat");
    assert_user(&written, "b2", 5.0, 5.0, "dog");
    stored = Some(written);

    // A disconnects: its record is trimmed and B hears of the rest.
    let id = match room.websocket_close(attachment("a1"), 1000, String::new(), true) {
        Departure::Trim(id) => id,
        other => panic!("expected a trim, got {:?}", other),
    };
    assert_eq!(id, "a1");
    let (written, heard) = carry_out(room.trim(read(stored.take()), &id).expect("read"));
    assert_eq!(heard, vec![2]);
    assert_eq!(written.users.len(), 1);
    assert!(written.users.get(&"a1".to_string()).is_none());
    assert_user(&written, "b2", 5.0, 5.0, "dog");
    stored = Some(written);
    assert!(stored.is_some());

    // B disconnects: the room is torn down.
    match room.websocket_close(attachment("b2"), 1000, String::new(), true) {
        Departure::Teardown => stored = None,
        other => panic!("expected a teardown, got {:?}", other),
    }
    assert!(room.is_empty());
    let fetched = SillySync::<u32>::fetch_state(read(stored));
    assert!(fetched.users.is_empty());
}

#[test]
fn fetch_without_upgrade_reads_state() {
    let room: SillySync<u32> = SillySync::new(Vec::new());
    assert!(matches!(room.fetch(&None, "client_id=a1"), Ok(FetchAction::ReadState)));
    assert!(matches!(room.fetch(&None, ""), Ok(FetchAction::ReadState)));
    let other = Some("h2c".to_string());
    assert!(matches!(room.fetch(&other, ""), Ok(FetchAction::ReadState)));
    let cased = Some("WebSocket".to_string());
    assert!(matches!(room.fetch(&cased, ""), Ok(FetchAction::ReadState)));
}

#[test]
fn fetch_state_of_empty_store_is_empty() {
    let fetched = SillySync::<u32>::fetch_state(Stored::Missing);
    assert_eq!(fetched.users.len(), 0);
    assert!(fetched.users.is_empty());
}

#[test]
fn fetch_state_of_unreadable_store_is_empty() {
    let fetched = SillySync::<u32>::fetch_state(Stored::Failed);
    assert!(fetched.users.is_empty());
}

#[test]
fn fetch_state_answers_what_is_stored() {
    let fetched =
        SillySync::<u32>::fetch_state(Stored::Found(state(&[("z", -1.5, 0.25, "owl")])));
    assert_eq!(fetched.users.len(), 1);
    assert_user(&fetched, "z", -1.5, 0.25, "owl");
}

#[test]
fn upgrade_without_client_id_is_rejected() {
    let room: SillySync<u32> = SillySync::new(Vec::new());
    let upgrade = Some("websocket".to_string());
    for query in ["", "user_id=a1", "client=a1&id=a1", "client_id", "Client_Id=a1"] {
        match room.fetch(&upgrade, query) {
            Err(RoomError::MissingClientId) => {}
            Ok(FetchAction::Upgrade(meta)) if query == "client_id" => {
                // a name without a value is a pair with an empty value
                assert_eq!(meta.id, "");
            }
            other => panic!("query {:?}: got {:?}", query, other),
        }
    }
    assert!(room.is_empty());
    assert_eq!(room.len(), 0);
}

#[test]
fn upgrade_takes_first_client_id() {
    let room: SillySync<u32> = SillySync::new(Vec::new());
    let upgrade = Some("websocket".to_string());
    match room.fetch(&upgrade, "x=1&client_id=first&client_id=second") {
        Ok(FetchAction::Upgrade(meta)) => {
            assert_eq!(meta.id, "first");
            assert!(meta.name.is_none());
        }
        other => panic!("got {:?}", other),
    }
}

#[test]
fn upgrade_decodes_client_id() {
    let room: SillySync<u32> = SillySync::new(Vec::new());
    let upgrade = Some("websocket".to_string());
    match room.fetch(&upgrade, "client_id=a%201+b%26c&y=2") {
        Ok(FetchAction::Upgrade(meta)) => assert_eq!(meta.id, "a 1 b&c"),
        other => panic!("got {:?}", other),
    }
    match room.fetch(&upgrade, "client%5Fid=q") {
        Ok(FetchAction::Upgrade(meta)) => assert_eq!(meta.id, "q"),
        other => panic!("got {:?}", other),
    }
}

#[test]
fn fetch_action_on_given_pairs() {
    let upgrade = Some("websocket".to_string());
    let pairs = vec![
        ("room".to_string(), "lobby".to_string()),
        ("client_id".to_string(), "a1".to_string()),
        ("client_id".to_string(), "b2".to_string()),
    ];
    match SillySync::<u32>::fetch_action(&upgrade, &pairs) {
        Ok(FetchAction::Upgrade(meta)) => assert_eq!(meta.id, "a1"),
        other => panic!("got {:?}", other),
    }
    let none: Vec<(String, String)> = vec![("room".to_string(), "lobby".to_string())];
    assert!(matches!(
        SillySync::<u32>::fetch_action(&upgrade, &none),
        Err(RoomError::MissingClientId)
    ));
    assert!(matches!(SillySync::<u32>::fetch_action(&None, &none), Ok(FetchAction::ReadState)));
}

#[test]
fn message_replaces_whole_state() {
    let mut room: SillySync<u32> = SillySync::new(Vec::new());
    connect(&mut room, 7, "client_id=a1");
    let first = room
        .websocket_message(Some(state(&[("a1", 1.0, 2.0, "cat"), ("b2", 3.0, 4.0, "dog")])))
        .expect("accepted");
    let (written, _) = carry_out(first);
    assert_eq!(written.users.len(), 2);
    // a later message that names fewer clients wins outright
    let second = room.websocket_message(Some(state(&[("c3", 9.0, 9.0, "fox")]))).expect("accepted");
    let (written, heard) = carry_out(second);
    assert_eq!(heard, vec![7]);
    let fetched = SillySync::<u32>::fetch_state(Stored::Found(written));
    assert_eq!(fetched.users.len(), 1);
    assert_user(&fetched, "c3", 9.0, 9.0, "fox");
    assert!(fetched.users.get(&"a1".to_string()).is_none());
}

#[test]
fn message_with_no_sessions_has_no_recipients() {
    let room: SillySync<u32> = SillySync::new(Vec::new());
    let update = room.websocket_message(Some(GameState::new())).expect("accepted");
    let (written, heard) = carry_out(update);
    assert!(heard.is_empty());
    assert!(written.users.is_empty());
}

#[test]
fn failed_write_sends_nothing() {
    let mut room: SillySync<u32> = SillySync::new(Vec::new());
    connect(&mut room, 1, "client_id=a1");
    let update = room.websocket_message(Some(state(&[("a1", 1.0, 2.0, "cat")]))).expect("accepted");
    assert_eq!(update.broadcast.after_write(false).err(), Some(RoomError::Storage));
    assert_eq!(room.len(), 1);
}

#[test]
fn malformed_message_is_an_error() {
    let mut room: SillySync<u32> = SillySync::new(Vec::new());
    connect(&mut room, 1, "client_id=a1");
    match room.websocket_message(None) {
        Err(e) => {
            assert_eq!(e, RoomError::MalformedMessage);
            assert_eq!(e.message(), "Malformed room state");
        }
        Ok(_) => panic!("accepted"),
    }
    assert_eq!(room.len(), 1);
}

#[test]
fn error_texts() {
    assert_eq!(RoomError::MissingClientId.message(), "No client_id param");
    assert_eq!(RoomError::MalformedMessage.message(), "Malformed room state");
    assert_eq!(RoomError::Storage.message(), "Durable store failed");
}

#[test]
fn last_disconnect_tears_down() {
    let mut room: SillySync<u32> = SillySync::new(Vec::new());
    connect(&mut room, 1, "client_id=only");
    assert!(matches!(room.websocket_error(attachment("only")), Departure::Teardown));
    assert!(room.is_empty());
    assert!(SillySync::<u32>::fetch_state(Stored::Missing).users.is_empty());
}

#[test]
fn disconnect_of_non_last_trims_only_that_client() {
    let mut room: SillySync<u32> = SillySync::new(Vec::new());
    connect(&mut room, 1, "client_id=a");
    connect(&mut room, 2, "client_id=b");
    connect(&mut room, 3, "client_id=c");
    let stored = Some(state(&[("a", 1.0, 1.0, "x"), ("b", 2.0, 2.0, "y"), ("c", 3.0, 3.0, "z")]));
    let id = match room.handle_close_or_error(attachment("b")) {
        Departure::Trim(id) => id,
        other => panic!("got {:?}", other),
    };
    assert_eq!(room.len(), 2);
    assert!(room.session(&"b".to_string()).is_none());
    let (written, heard) = carry_out(room.trim(read(stored), &id).expect("read"));
    assert_eq!(heard, vec![1, 3]);
    assert_eq!(written.users.len(), 2);
    assert_user(&written, "a", 1.0, 1.0, "x");
    assert_user(&written, "c", 3.0, 3.0, "z");
    assert!(written.users.get(&"b".to_string()).is_none());
}

#[test]
fn trim_of_missing_state_persists_empty_state() {
    let mut room: SillySync<u32> = SillySync::new(Vec::new());
    connect(&mut room, 1, "client_id=a");
    connect(&mut room, 2, "client_id=b");
    let id = match room.handle_close_or_error(attachment("a")) {
        Departure::Trim(id) => id,
        other => panic!("got {:?}", other),
    };
    let update = room.trim(Stored::Missing, &id).expect("read");
    assert_eq!(update.key, "GAME_STATE");
    let (written, heard) = carry_out(update);
    assert!(written.users.is_empty());
    assert_eq!(heard, vec![2]);
}

#[test]
fn trim_after_failed_read_fails() {
    let mut room: SillySync<u32> = SillySync::new(Vec::new());
    connect(&mut room, 1, "client_id=a");
    connect(&mut room, 2, "client_id=b");
    let id = match room.handle_close_or_error(attachment("a")) {
        Departure::Trim(id) => id,
        other => panic!("got {:?}", other),
    };
    assert_eq!(room.trim(Stored::Failed, &id).err(), Some(RoomError::Storage));
    // the session is gone all the same
    assert_eq!(room.len(), 1);
}

#[test]
fn trim_of_client_without_record_keeps_state() {
    let mut room: SillySync<u32> = SillySync::new(Vec::new());
    connect(&mut room, 1, "client_id=a");
    connect(&mut room, 2, "client_id=b");
    let _ = room.handle_close_or_error(attachment("b"));
    let update =
        room.trim(Stored::Found(state(&[("a", 1.0, 1.0, "x")])), &"b".to_string()).expect("read");
    assert_eq!(update.state.users.len(), 1);
    assert_user(&update.state, "a", 1.0, 1.0, "x");
}

#[test]
fn close_without_attachment_is_ignored() {
    let mut room: SillySync<u32> = SillySync::new(Vec::new());
    connect(&mut room, 1, "client_id=a");
    assert!(matches!(room.handle_close_or_error(None), Departure::Ignored));
    assert!(matches!(room.websocket_close(None, 1006, "gone".to_string(), false), Departure::Ignored));
    assert!(matches!(room.websocket_error(None), Departure::Ignored));
    assert_eq!(room.len(), 1);
}

#[test]
fn close_of_unregistered_client() {
    let mut room: SillySync<u32> = SillySync::new(Vec::new());
    // nobody registered: the room is empty after the removal, so it is torn down
    assert!(matches!(room.handle_close_or_error(attachment("ghost")), Departure::Teardown));
    connect(&mut room, 1, "client_id=a");
    match room.handle_close_or_error(attachment("ghost")) {
        Departure::Trim(id) => assert_eq!(id, "ghost"),
        other => panic!("got {:?}", other),
    }
    assert_eq!(room.len(), 1);
}

#[test]
fn reconnect_overwrites_session() {
    let mut room: SillySync<u32> = SillySync::new(Vec::new());
    connect(&mut room, 1, "client_id=a");
    connect(&mut room, 2, "client_id=b");
    assert_eq!(room.len(), 2);
    let replaced = room.accept(9, WebsocketAttachment::new("a".to_string()));
    assert_eq!(replaced.expect("a session was registered").ws, 1);
    assert_eq!(room.len(), 2);
    assert_eq!(room.session(&"a".to_string()).expect("registered").ws, 9);
    assert_eq!(room.session(&"b".to_string()).expect("registered").ws, 2);
    // the new connection stands where the old one stood
    assert_eq!(sockets(&room.broadcast()), vec![9, 2]);
}

#[test]
fn accept_of_new_client_hands_nothing_back() {
    let mut room: SillySync<u32> = SillySync::new(Vec::new());
    assert!(room.accept(4, WebsocketAttachment::new("a".to_string())).is_none());
    let s = room.session(&"a".to_string()).expect("registered");
    assert_eq!(s.ws, 4);
    assert_eq!(s.meta.id, "a");
    assert!(s.meta.name.is_none());
}

#[test]
fn new_rebuilds_registry_from_attachments() {
    let named = WebsocketAttachment { id: "b".to_string(), name: Some("Bea".to_string()) };
    let room: SillySync<u32> = SillySync::new(vec![
        (10, attachment("a")),
        (11, None),
        (12, Some(named)),
        (13, attachment("a")),
    ]);
    assert_eq!(room.len(), 2);
    assert_eq!(room.session(&"a".to_string()).expect("registered").ws, 13);
    let b = room.session(&"b".to_string()).expect("registered");
    assert_eq!(b.ws, 12);
    assert_eq!(b.meta.name.as_deref(), Some("Bea"));
    assert_eq!(sockets(&room.broadcast()), vec![13, 12]);
}

#[test]
fn new_without_connections_is_empty() {
    let room: SillySync<u32> = SillySync::new(Vec::new());
    assert!(room.is_empty());
    assert!(room.broadcast().is_empty());
}
