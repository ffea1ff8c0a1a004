use chat::database::{ActorAction, ActorEvent, Command, Database, Reply};
use chat::error::ChatError;
use chat::message::{User, UserTextMessage};
use chat::protocol::{ClientMessage, ClientReply};
use chat::room::{Room, RoomInfo};
use chat::router::serve;
use chat::session::{Session, SessionAction, SessionEvent, SessionState};
use chat::time::Timestamp;

fn at(secs: i64) -> Timestamp {
    Timestamp::new(secs, 0)
}

fn user(id: u128, name: &str) -> User {
    User { name: name.to_string(), id, username: name.to_string() }
}

fn draft(text: &str) -> UserTextMessage {
    // What a client claims about time and author is not believed.
    UserTextMessage::new(at(-1), text.to_string(), 999, "forged".to_string())
}

fn send(room_id: u128, text: &str) -> SessionEvent {
    SessionEvent::Message(ClientMessage::SendMessage { room_id, message: draft(text) })
}

fn login(user_id: u128) -> SessionEvent {
    SessionEvent::Message(ClientMessage::Login { user_id })
}

fn join(room_id: u128) -> SessionEvent {
    SessionEvent::Message(ClientMessage::JoinRoom { room_id })
}

fn violation(user_id: u128) -> SessionAction {
    SessionAction::Tell(ClientReply::Error {
        message: Some("protocol violation".to_string()),
        user_id,
    })
}

fn not_found(user_id: u128) -> SessionAction {
    SessionAction::TellAndClose(ClientReply::Error {
        message: Some("not found".to_string()),
        user_id,
    })
}

fn greeting(now: Timestamp) -> UserTextMessage {
    UserTextMessage::new(now, "Hello, world!".to_string(), 123456, "Alice".to_string())
}

/// Runs one client event to its end against the database.
fn drive(db: &mut Database, session: &mut Session, event: SessionEvent, now: Timestamp) -> SessionAction {
    let id = session.id();
    let action = serve(db, session, event, now);
    assert!(!matches!(action, SessionAction::Ask(_)));
    assert_eq!(session.id(), id);
    action
}

fn in_room(db: &mut Database, id: u128, room_id: u128, now: Timestamp) -> Session {
    let mut session = Session::new(id);
    assert_eq!(drive(db, &mut session, login(id), now), SessionAction::Nothing);
    match drive(db, &mut session, join(room_id), now) {
        SessionAction::Tell(ClientReply::Messages { .. }) => {}
        other => panic!("join failed: {:?}", other),
    }
    session
}

#[test]
fn new_session_is_unauthenticated() {
    let session = Session::new(9);
    assert_eq!(session.id(), 9);
    assert_eq!(session.state(), SessionState::Unauthenticated);
    assert_eq!(session.user(), None);
    assert_eq!(session.room_id(), None);
    assert!(!session.is_waiting());
}

#[test]
fn opened_sessions_get_their_own_identifiers() {
    let a = Session::open();
    let b = Session::open();
    assert_eq!(a.state(), SessionState::Unauthenticated);
    assert_eq!(b.state(), SessionState::Unauthenticated);
    assert_ne!(a.id(), b.id());
    // Version 4, RFC variant, read with the byte order turned round.
    let bytes = a.id().to_le_bytes();
    assert_eq!(bytes[6] >> 4, 4);
    assert_eq!(bytes[8] >> 6, 2);
}

#[test]
fn login_asks_the_actor_who_the_user_is() {
    let mut session = Session::new(1);
    assert_eq!(session.step(login(42), at(0)), SessionAction::Ask(Command::FindUser { id: 42 }));
    assert_eq!(session.state(), SessionState::Unauthenticated);
    assert!(session.is_waiting());
    assert_eq!(
        session.step(SessionEvent::Answer(Reply::User(user(42, "bob"))), at(0)),
        SessionAction::Nothing
    );
    assert_eq!(session.state(), SessionState::Authenticated);
    assert_eq!(session.user(), Some(user(42, "bob")));
    assert!(!session.is_waiting());
}

#[test]
fn login_of_unknown_user_closes_the_session() {
    let mut session = Session::new(1);
    session.step(login(42), at(0));
    assert_eq!(session.step(SessionEvent::Answer(Reply::NotFound), at(0)), not_found(42));
    assert_eq!(session.state(), SessionState::Closed);
    assert_eq!(session.user(), None);
}

#[test]
fn join_asks_for_the_room_then_for_its_messages() {
    let mut session = Session::new(1);
    session.step(login(42), at(0));
    session.step(SessionEvent::Answer(Reply::User(user(42, "bob"))), at(0));
    assert_eq!(
        session.step(join(1), at(0)),
        SessionAction::Ask(Command::GetRoomInfo { room_id: 1 })
    );
    assert_eq!(session.state(), SessionState::Authenticated);
    let info = RoomInfo { name: "Room1".to_string(), number: 1, capacity: 10 };
    assert_eq!(
        session.step(SessionEvent::Answer(Reply::RoomInfo(info)), at(0)),
        SessionAction::Ask(Command::GetAllMessages { room_id: 1 })
    );
    assert_eq!(session.state(), SessionState::Authenticated);
    assert_eq!(session.room_id(), None);
    assert_eq!(
        session.step(SessionEvent::Answer(Reply::Messages(vec![greeting(at(5))])), at(0)),
        SessionAction::Tell(ClientReply::Messages {
            room_id: 1,
            messages: vec![greeting(at(5))],
            user_id: 42
        })
    );
    assert_eq!(session.state(), SessionState::InRoom);
    assert_eq!(session.room_id(), Some(1));
}

#[test]
fn join_of_unknown_room_closes_the_session() {
    let mut db = Database::seeded(at(0));
    db.add_user(user(42, "bob"));
    let mut session = Session::new(1);
    drive(&mut db, &mut session, login(42), at(1));
    assert_eq!(drive(&mut db, &mut session, join(77), at(1)), not_found(42));
    assert_eq!(session.state(), SessionState::Closed);
}

#[test]
fn send_is_stamped_with_identity_and_time() {
    let mut db = Database::seeded(at(0));
    db.add_user(user(42, "bob"));
    let mut session = in_room(&mut db, 42, 1, at(1));
    assert_eq!(
        session.step(send(1, "hello"), at(77)),
        SessionAction::Ask(Command::AppendMessage {
            room_id: 1,
            message: UserTextMessage::new(at(77), "hello".to_string(), 42, "bob".to_string()),
        })
    );
    assert!(session.is_waiting());
    assert_eq!(
        session.step(SessionEvent::Answer(Reply::Ack), at(78)),
        SessionAction::Tell(ClientReply::MessageDelivered { room_id: 1, user_id: 42 })
    );
    assert_eq!(session.state(), SessionState::InRoom);
}

#[test]
fn send_before_login_is_a_protocol_violation() {
    let mut db = Database::seeded(at(0));
    let mut session = Session::new(1);
    assert_eq!(drive(&mut db, &mut session, send(1, "too early"), at(1)), violation(0));
    assert_eq!(session.state(), SessionState::Unauthenticated);
    assert_eq!(
        db.handle(Command::GetAllMessages { room_id: 1 }),
        Reply::Messages(vec![greeting(at(0))])
    );
}

#[test]
fn send_before_join_is_a_protocol_violation() {
    let mut db = Database::seeded(at(0));
    db.add_user(user(42, "bob"));
    let mut session = Session::new(1);
    drive(&mut db, &mut session, login(42), at(1));
    assert_eq!(drive(&mut db, &mut session, send(1, "too early"), at(2)), violation(42));
    assert_eq!(session.state(), SessionState::Authenticated);
    assert_eq!(
        db.handle(Command::GetAllMessages { room_id: 1 }),
        Reply::Messages(vec![greeting(at(0))])
    );
    // The session has lost nothing by it.
    match drive(&mut db, &mut session, join(1), at(3)) {
        SessionAction::Tell(ClientReply::Messages { room_id: 1, .. }) => {}
        other => panic!("{:?}", other),
    }
}

#[test]
fn send_while_login_is_in_flight_is_a_protocol_violation() {
    let mut session = Session::new(1);
    session.step(login(42), at(0));
    assert_eq!(session.step(send(1, "too early"), at(0)), violation(42));
    assert!(session.is_waiting());
    assert_eq!(
        session.step(SessionEvent::Answer(Reply::User(user(42, "bob"))), at(0)),
        SessionAction::Nothing
    );
    assert_eq!(session.state(), SessionState::Authenticated);
}

#[test]
fn send_to_another_room_is_a_protocol_violation() {
    let mut db = Database::seeded(at(0));
    db.add_user(user(42, "bob"));
    let mut session = in_room(&mut db, 42, 1, at(1));
    assert_eq!(session.step(send(2, "elsewhere"), at(2)), violation(42));
    assert_eq!(session.state(), SessionState::InRoom);
    assert_eq!(session.room_id(), Some(1));
}

#[test]
fn messages_out_of_turn_are_protocol_violations() {
    let mut db = Database::seeded(at(0));
    db.add_user(user(42, "bob"));
    let mut session = Session::new(1);
    assert_eq!(session.step(join(1), at(0)), violation(0));
    assert_eq!(session.step(SessionEvent::Message(ClientMessage::LeaveRoom), at(0)), violation(0));
    assert_eq!(session.step(SessionEvent::Malformed, at(0)), violation(0));
    drive(&mut db, &mut session, login(42), at(1));
    assert_eq!(session.step(login(42), at(0)), violation(42));
    assert_eq!(session.step(SessionEvent::Message(ClientMessage::LeaveRoom), at(0)), violation(42));
    drive(&mut db, &mut session, join(1), at(1));
    assert_eq!(session.step(login(42), at(0)), violation(42));
    assert_eq!(session.step(join(1), at(0)), violation(42));
    assert_eq!(session.step(SessionEvent::Malformed, at(0)), violation(42));
    assert_eq!(session.state(), SessionState::InRoom);
}

#[test]
fn leave_room_returns_to_authenticated() {
    let mut db = Database::seeded(at(0));
    db.add_user(user(42, "bob"));
    let mut session = in_room(&mut db, 42, 1, at(1));
    assert_eq!(
        session.step(SessionEvent::Message(ClientMessage::LeaveRoom), at(2)),
        SessionAction::Nothing
    );
    assert_eq!(session.state(), SessionState::Authenticated);
    assert_eq!(session.room_id(), None);
    assert_eq!(session.user(), Some(user(42, "bob")));
    assert_eq!(session.step(send(1, "gone"), at(3)), violation(42));
    match drive(&mut db, &mut session, join(1), at(4)) {
        SessionAction::Tell(ClientReply::Messages { room_id: 1, .. }) => {}
        other => panic!("{:?}", other),
    }
    assert_eq!(session.state(), SessionState::InRoom);
}

#[test]
fn disconnect_closes_from_every_state() {
    let mut db = Database::seeded(at(0));
    db.add_user(user(42, "bob"));
    let mut fresh = Session::new(1);
    assert_eq!(fresh.step(SessionEvent::Disconnected, at(0)), SessionAction::Close);
    assert_eq!(fresh.state(), SessionState::Closed);
    let mut joined = in_room(&mut db, 42, 1, at(1));
    assert_eq!(joined.step(SessionEvent::Disconnected, at(0)), SessionAction::Close);
    assert_eq!(joined.state(), SessionState::Closed);
    assert_eq!(joined.step(SessionEvent::Disconnected, at(0)), SessionAction::Nothing);
    assert_eq!(joined.step(login(42), at(0)), SessionAction::Nothing);
    assert_eq!(joined.step(SessionEvent::Malformed, at(0)), SessionAction::Nothing);
    assert_eq!(joined.step(SessionEvent::ActorGone, at(0)), SessionAction::Nothing);
    assert_eq!(joined.step(SessionEvent::Answer(Reply::Ack), at(0)), SessionAction::Nothing);
    assert_eq!(joined.state(), SessionState::Closed);
}

#[test]
fn actor_gone_closes_the_session_with_an_error() {
    let mut session = Session::new(1);
    session.step(login(42), at(0));
    assert_eq!(
        session.step(SessionEvent::ActorGone, at(0)),
        SessionAction::TellAndClose(ClientReply::Error {
            message: Some("channel closed".to_string()),
            user_id: 42
        })
    );
    assert_eq!(session.state(), SessionState::Closed);
}

#[test]
fn answers_that_fit_no_question_are_dropped() {
    let mut session = Session::new(1);
    assert_eq!(session.step(SessionEvent::Answer(Reply::Ack), at(0)), SessionAction::Nothing);
    assert_eq!(session.step(SessionEvent::Answer(Reply::NotFound), at(0)), SessionAction::Nothing);
    assert_eq!(session.state(), SessionState::Unauthenticated);
    session.step(login(42), at(0));
    assert_eq!(session.step(SessionEvent::Answer(Reply::Ack), at(0)), SessionAction::Nothing);
    assert_eq!(
        session.step(SessionEvent::Answer(Reply::User(user(43, "eve"))), at(0)),
        SessionAction::Nothing
    );
    assert!(session.is_waiting());
    assert_eq!(session.state(), SessionState::Unauthenticated);
    session.step(SessionEvent::Answer(Reply::User(user(42, "bob"))), at(0));
    session.step(join(1), at(0));
    let other = RoomInfo { name: "x".to_string(), number: 2, capacity: 1 };
    assert_eq!(
        session.step(SessionEvent::Answer(Reply::RoomInfo(other)), at(0)),
        SessionAction::Nothing
    );
    assert!(session.is_waiting());
}

#[test]
fn on_event_stamps_with_the_clock() {
    let mut db = Database::seeded(at(0));
    db.add_user(user(42, "bob"));
    let mut session = in_room(&mut db, 42, 1, at(1));
    match session.on_event(send(1, "now")) {
        SessionAction::Ask(Command::AppendMessage { room_id, message }) => {
            assert_eq!(room_id, 1);
            assert_eq!(message.text, "now");
            assert_eq!(message.from, 42);
            assert_eq!(message.username, "bob");
            assert!(message.time.secs > 1_577_836_800);
        }
        other => panic!("{:?}", other),
    }
    let mut fresh = Session::new(2);
    assert_eq!(fresh.on_event(login(7)), SessionAction::Ask(Command::FindUser { id: 7 }));
}

#[test]
fn second_user_sees_seed_and_hello_in_order() {
    let mut db = Database::seeded(at(100));
    assert!(db.add_user(user(42, "bob")));
    assert!(db.add_user(user(43, "carol")));

    let mut first = Session::new(1);
    assert_eq!(drive(&mut db, &mut first, login(42), at(101)), SessionAction::Nothing);
    assert_eq!(
        drive(&mut db, &mut first, join(1), at(102)),
        SessionAction::Tell(ClientReply::Messages {
            room_id: 1,
            messages: vec![greeting(at(100))],
            user_id: 42
        })
    );
    assert_eq!(
        drive(&mut db, &mut first, send(1, "hello"), at(103)),
        SessionAction::Tell(ClientReply::MessageDelivered { room_id: 1, user_id: 42 })
    );

    let mut second = Session::new(2);
    assert_eq!(drive(&mut db, &mut second, login(43), at(104)), SessionAction::Nothing);
    let seen = match drive(&mut db, &mut second, join(1), at(105)) {
        SessionAction::Tell(ClientReply::Messages { room_id: 1, messages, user_id: 43 }) => messages,
        other => panic!("{:?}", other),
    };
    assert_eq!(seen.len(), 2);
    assert_eq!(seen[0], greeting(at(100)));
    assert_eq!(seen[1].from, 42);
    assert_eq!(seen[1].text, "hello");
    assert_eq!(seen[1].username, "bob");
    assert_eq!(seen[1].time, at(103));
}

#[test]
fn hello_at_the_time_of_the_seed_still_comes_second() {
    let mut db = Database::seeded(at(100));
    db.add_user(user(42, "bob"));
    let mut first = in_room(&mut db, 42, 1, at(100));
    drive(&mut db, &mut first, send(1, "hello"), at(100));
    assert_eq!(
        db.handle(Command::GetAllMessages { room_id: 1 }),
        Reply::Messages(vec![
            greeting(at(100)),
            UserTextMessage::new(at(100), "hello".to_string(), 42, "bob".to_string())
        ])
    );
}

#[test]
fn connection_dropped_mid_join_leaves_the_actor_working() {
    let mut db = Database::seeded(at(100));
    db.add_user(user(42, "bob"));
    db.add_user(user(43, "carol"));

    let mut first = Session::new(1);
    drive(&mut db, &mut first, login(42), at(101));
    let cmd = match first.step(join(1), at(102)) {
        SessionAction::Ask(cmd) => cmd,
        other => panic!("{:?}", other),
    };
    let reply = match db.on_event(ActorEvent::Command(cmd)) {
        ActorAction::Reply(reply) => reply,
        other => panic!("{:?}", other),
    };
    // The connection breaks before the answer can be handed over.
    assert_eq!(first.step(SessionEvent::Disconnected, at(103)), SessionAction::Close);
    assert_eq!(db.on_event(ActorEvent::ReplyDropped), ActorAction::Log(ChatError::DeadReply));
    assert_eq!(first.step(SessionEvent::Answer(reply), at(104)), SessionAction::Nothing);
    assert_eq!(first.state(), SessionState::Closed);

    let mut second = Session::new(2);
    assert_eq!(drive(&mut db, &mut second, login(43), at(105)), SessionAction::Nothing);
    assert_eq!(second.state(), SessionState::Authenticated);
    assert_eq!(second.user(), Some(user(43, "carol")));
}

#[test]
fn refresh_asks_for_what_is_later_than_what_was_seen() {
    let mut db = Database::seeded(at(100));
    db.add_user(user(42, "bob"));
    let mut session = in_room(&mut db, 42, 1, at(101));
    assert_eq!(session.seen(), Some(at(100)));
    assert_eq!(
        session.step(SessionEvent::Refresh, at(102)),
        SessionAction::Ask(Command::GetMessagesSince { room_id: 1, time: at(100) })
    );
    assert!(session.is_waiting());
    assert_eq!(session.state(), SessionState::InRoom);
    assert_eq!(session.step(send(1, "not now"), at(102)), violation(42));
    assert_eq!(
        session.step(SessionEvent::Answer(Reply::Messages(vec![])), at(102)),
        SessionAction::Nothing
    );
    assert!(!session.is_waiting());
    assert_eq!(session.seen(), Some(at(100)));
}

#[test]
fn refresh_in_a_silent_room_asks_for_everything() {
    let mut db = Database::seeded(at(100));
    db.add_user(user(42, "bob"));
    db.add_room(Room::new("quiet".to_string(), 2, 3));
    let mut session = in_room(&mut db, 42, 2, at(101));
    assert_eq!(session.seen(), None);
    assert_eq!(
        session.step(SessionEvent::Refresh, at(102)),
        SessionAction::Ask(Command::GetAllMessages { room_id: 2 })
    );
    assert_eq!(session.step(SessionEvent::Answer(Reply::NotFound), at(102)), not_found(42));
    assert_eq!(session.state(), SessionState::Closed);
}

#[test]
fn refresh_shows_what_others_said_once() {
    let mut db = Database::seeded(at(100));
    db.add_user(user(42, "bob"));
    db.add_user(user(43, "carol"));
    let mut bob = in_room(&mut db, 42, 1, at(101));
    let mut carol = in_room(&mut db, 43, 1, at(102));
    assert_eq!(drive(&mut db, &mut bob, SessionEvent::Refresh, at(103)), SessionAction::Nothing);

    drive(&mut db, &mut carol, send(1, "hi bob"), at(104));
    drive(&mut db, &mut carol, send(1, "are you there"), at(105));
    let said = vec![
        UserTextMessage::new(at(104), "hi bob".to_string(), 43, "carol".to_string()),
        UserTextMessage::new(at(105), "are you there".to_string(), 43, "carol".to_string()),
    ];
    assert_eq!(
        drive(&mut db, &mut bob, SessionEvent::Refresh, at(106)),
        SessionAction::Tell(ClientReply::Messages { room_id: 1, messages: said, user_id: 42 })
    );
    assert_eq!(bob.seen(), Some(at(105)));
    assert_eq!(drive(&mut db, &mut bob, SessionEvent::Refresh, at(107)), SessionAction::Nothing);
    assert_eq!(bob.seen(), Some(at(105)));

    // What one has written oneself is news like any other.
    drive(&mut db, &mut bob, send(1, "here"), at(108));
    assert_eq!(bob.seen(), Some(at(105)));
    assert_eq!(
        drive(&mut db, &mut bob, SessionEvent::Refresh, at(109)),
        SessionAction::Tell(ClientReply::Messages {
            room_id: 1,
            messages: vec![UserTextMessage::new(at(108), "here".to_string(), 42, "bob".to_string())],
            user_id: 42
        })
    );
    assert_eq!(bob.seen(), Some(at(108)));
}

#[test]
fn refresh_means_nothing_outside_a_room() {
    let mut db = Database::seeded(at(100));
    db.add_user(user(42, "bob"));
    let mut session = Session::new(1);
    assert_eq!(drive(&mut db, &mut session, SessionEvent::Refresh, at(1)), SessionAction::Nothing);
    assert_eq!(session.state(), SessionState::Unauthenticated);
    session.step(login(42), at(1));
    assert_eq!(session.step(SessionEvent::Refresh, at(1)), SessionAction::Nothing);
    assert!(session.is_waiting());
    session.step(SessionEvent::Answer(Reply::User(user(42, "bob"))), at(1));
    assert_eq!(drive(&mut db, &mut session, SessionEvent::Refresh, at(1)), SessionAction::Nothing);
    assert_eq!(session.state(), SessionState::Authenticated);
    assert_eq!(session.seen(), None);
    session.step(SessionEvent::Disconnected, at(1));
    assert_eq!(drive(&mut db, &mut session, SessionEvent::Refresh, at(1)), SessionAction::Nothing);
    assert_eq!(session.state(), SessionState::Closed);
}

#[test]
fn serving_by_hand_and_by_the_router_agree() {
    let mut by_router = Database::seeded(at(100));
    let mut by_hand = Database::seeded(at(100));
    by_router.add_user(user(42, "bob"));
    by_hand.add_user(user(42, "bob"));
    let mut a = Session::new(1);
    let mut b = Session::new(1);
    let events = || vec![login(42), send(1, "early"), join(1), send(1, "hello"), send(2, "astray")];
    for (i, (ea, eb)) in events().into_iter().zip(events()).enumerate() {
        let now = at(200 + i as i64);
        let served = serve(&mut by_router, &mut a, ea, now);
        let mut action = b.step(eb, now);
        while let SessionAction::Ask(cmd) = action {
            let reply = by_hand.handle(cmd);
            action = b.step(SessionEvent::Answer(reply), now);
        }
        assert_eq!(served, action);
        assert_eq!(a.state(), b.state());
    }
    assert_eq!(
        by_router.handle(Command::GetAllMessages { room_id: 1 }),
        by_hand.handle(Command::GetAllMessages { room_id: 1 })
    );
    assert_eq!(
        by_router.handle(Command::GetAllMessages { room_id: 1 }),
        Reply::Messages(vec![
            greeting(at(100)),
            UserTextMessage::new(at(203), "hello".to_string(), 42, "bob".to_string())
        ])
    );
}

#[test]
fn only_a_send_from_within_a_room_changes_the_log() {
    let mut db = Database::seeded(at(100));
    db.add_user(user(42, "bob"));
    let mut session = Session::new(1);
    let unchanged = |db: &mut Database| {
        assert_eq!(
            db.handle(Command::GetAllMessages { room_id: 1 }),
            Reply::Messages(vec![greeting(at(100))])
        );
    };
    serve(&mut db, &mut session, send(1, "a"), at(101));
    unchanged(&mut db);
    serve(&mut db, &mut session, SessionEvent::Malformed, at(101));
    unchanged(&mut db);
    serve(&mut db, &mut session, login(42), at(101));
    unchanged(&mut db);
    serve(&mut db, &mut session, send(1, "b"), at(101));
    unchanged(&mut db);
    serve(&mut db, &mut session, join(1), at(101));
    unchanged(&mut db);
    serve(&mut db, &mut session, send(2, "c"), at(101));
    unchanged(&mut db);
    serve(&mut db, &mut session, SessionEvent::Message(ClientMessage::LeaveRoom), at(101));
    serve(&mut db, &mut session, send(1, "d"), at(101));
    unchanged(&mut db);
    serve(&mut db, &mut session, SessionEvent::Disconnected, at(101));
    serve(&mut db, &mut session, send(1, "e"), at(101));
    unchanged(&mut db);
}
