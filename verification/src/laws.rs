//! What holds of the chat actor whatever it is asked, and of a session
//! whatever happens to it, stated over the mathematical values of their
//! states, commands and replies.

use vstd::prelude::*;
use crate::database::{halted, ActorActionView, ActorEventView, CommandView, DatabaseView, ReplyView};
use crate::log::{
    is_after, is_at, lemma_append_keeps_order_and_loses_nothing,
    lemma_appends_keep_order_and_lose_nothing, lemma_split, sorted, with_message, with_messages,
};
use crate::error::ChatError;
use crate::message::{MessageView, UserView};
use crate::protocol::{ClientMessageView, ClientReplyView};
use crate::room::RoomView;
use crate::router::{served, Outcome};
use crate::session::{PhaseView, SessionActionView, SessionEventView, SessionState, Step};
use crate::time::Timestamp;

verus! {

/// No command breaks the invariant of the database.
pub proof fn lemma_commands_keep_invariant(db: DatabaseView, cmd: CommandView)
    requires
        db.wf(),
    ensures
        db.next(cmd).wf(),
{
    if let CommandView::AppendMessage { room_id, message } = cmd {
        if db.rooms.contains_key(room_id) {
            lemma_append_keeps_order_and_loses_nothing(db.rooms[room_id].messages, message);
        }
    }
}

/// A command changes one log at most. It never changes who is in the
/// directory, which rooms there are, or a room's name, number or capacity.
pub proof fn lemma_commands_change_one_log_at_most(db: DatabaseView, cmd: CommandView)
    ensures
        db.next(cmd).users == db.users,
        db.next(cmd).rooms.dom() == db.rooms.dom(),
        forall|id: u128|
            db.rooms.contains_key(id) ==> (#[trigger] db.next(cmd).rooms[id]).info()
                == db.rooms[id].info(),
        forall|id: u128|
            db.rooms.contains_key(id) && !(cmd matches CommandView::AppendMessage {
                room_id,
                ..
            } && room_id == id) ==> #[trigger] db.next(cmd).rooms[id] == db.rooms[id],
{
    if let CommandView::AppendMessage { room_id, message } = cmd {
        if db.rooms.contains_key(room_id) {
            assert(db.next(cmd).rooms.dom() =~= db.rooms.dom());
        }
    }
}

/// A command that only asks changes nothing, so asking twice gives the same
/// answer twice.
pub proof fn lemma_asking_changes_nothing(db: DatabaseView, cmd: CommandView)
    requires
        !(cmd is AppendMessage),
    ensures
        db.next(cmd) == db,
        db.next(cmd).reply(cmd) == db.reply(cmd),
{
}

/// The messages since `t` are exactly those of the whole log that were written
/// strictly later than `t`, in the order in which the whole log has them.
pub proof fn lemma_since_is_the_later_part_of_all(db: DatabaseView, room_id: u128, t: Timestamp)
    ensures
        match db.reply(CommandView::GetAllMessages { room_id }) {
            ReplyView::Messages(all) => db.reply(
                CommandView::GetMessagesSince { room_id, time: t },
            ) == ReplyView::Messages(all.filter(is_after(t))),
            other => other == ReplyView::NotFound && db.reply(
                CommandView::GetMessagesSince { room_id, time: t },
            ) == ReplyView::NotFound,
        },
{
}

/// This state after the users of `users` were filed one by one, first to last.
pub open spec fn with_users(db: DatabaseView, users: Seq<UserView>) -> DatabaseView
    decreases users.len(),
{
    if users.len() == 0 {
        db
    } else {
        with_users(db, users.drop_last()).with_user(users.last())
    }
}

/// An identity that the directory did not hold is found exactly if a user of
/// that identity was filed since, and what is found is the profile that was
/// filed first under it.
pub proof fn lemma_found_iff_filed(db: DatabaseView, users: Seq<UserView>, id: u128)
    requires
        !db.users.contains_key(id),
    ensures
        with_users(db, users).rooms == db.rooms,
        match with_users(db, users).reply(CommandView::FindUser { id }) {
            ReplyView::User(found) => exists|i: int|
                0 <= i < users.len() && #[trigger] users[i] == found && found.id == id && forall|
                    j: int,
                | 0 <= j < i ==> (#[trigger] users[j]).id != id,
            other => other == ReplyView::NotFound && forall|i: int|
                0 <= i < users.len() ==> (#[trigger] users[i]).id != id,
        },
    decreases users.len(),
{
    if users.len() > 0 {
        let front = users.drop_last();
        let last = users.last();
        lemma_found_iff_filed(db, front, id);
        let mid = with_users(db, front);
        assert forall|i: int| 0 <= i < front.len() implies front[i] == users[i] by {}
        match mid.reply(CommandView::FindUser { id }) {
            ReplyView::User(found) => {
                let i = choose|i: int|
                    0 <= i < front.len() && #[trigger] front[i] == found && found.id == id
                        && forall|j: int| 0 <= j < i ==> (#[trigger] front[j]).id != id;
                assert(users[i] == found);
                assert forall|j: int| 0 <= j < i implies (#[trigger] users[j]).id != id by {
                    assert(front[j] == users[j]);
                }
            },
            _ => {
                assert forall|j: int| 0 <= j < front.len() implies (#[trigger] users[j]).id
                    != id by {
                    assert(front[j] == users[j]);
                }
                if last.id == id {
                    assert(users[users.len() - 1] == last);
                }
            },
        }
    }
}

/// The commands that append the messages of `ms` to room `room_id`, one
/// command for each message, in the order of `ms`.
pub open spec fn appends(room_id: u128, ms: Seq<MessageView>) -> Seq<ActorEventView> {
    ms.map_values(
        |m: MessageView|
            ActorEventView::Command(CommandView::AppendMessage { room_id, message: m }),
    )
}

/// However many appends to one room arrive, and in whatever order, each is
/// acknowledged once, and afterwards the room's log holds what it held before
/// and every one of the new messages: it has grown by their number, stands in
/// time order, and has messages of equal time in the order of their arrival.
/// Nothing else in the database has changed.
pub proof fn lemma_every_append_lands_once(db: DatabaseView, room_id: u128, ms: Seq<MessageView>)
    requires
        db.wf(),
        db.rooms.contains_key(room_id),
    ensures
        db.actions(appends(room_id, ms)) == Seq::new(
            ms.len(),
            |i: int| ActorActionView::Reply(ReplyView::Ack),
        ),
        db.after_events(appends(room_id, ms)).wf(),
        db.after_events(appends(room_id, ms)) == (DatabaseView {
            rooms: db.rooms.insert(
                room_id,
                RoomView {
                    messages: with_messages(db.rooms[room_id].messages, ms),
                    ..db.rooms[room_id]
                },
            ),
            users: db.users,
        }),
        db.after_events(appends(room_id, ms)).reply(CommandView::GetAllMessages { room_id })
            == ReplyView::Messages(with_messages(db.rooms[room_id].messages, ms)),
        sorted(with_messages(db.rooms[room_id].messages, ms)),
        with_messages(db.rooms[room_id].messages, ms).len() == db.rooms[room_id].messages.len()
            + ms.len(),
        with_messages(db.rooms[room_id].messages, ms).to_multiset()
            == db.rooms[room_id].messages.to_multiset().add(ms.to_multiset()),
        forall|t: Timestamp|
            #![trigger is_at(t)]
            with_messages(db.rooms[room_id].messages, ms).filter(is_at(t))
                == db.rooms[room_id].messages.filter(is_at(t)) + ms.filter(is_at(t)),
    decreases ms.len(),
{
    let old_log = db.rooms[room_id].messages;
    lemma_appends_keep_order_and_lose_nothing(old_log, ms);
    lemma_appends_never_halt(room_id, ms);
    let acks = Seq::new(ms.len(), |i: int| ActorActionView::Reply(ReplyView::Ack));
    if ms.len() == 0 {
        assert(db.actions(appends(room_id, ms)) =~= acks);
        assert(db.rooms.insert(room_id, RoomView { messages: old_log, ..db.rooms[room_id] })
            =~= db.rooms);
    } else {
        let front = ms.drop_last();
        lemma_every_append_lands_once(db, room_id, front);
        lemma_appends_never_halt(room_id, front);
        assert(appends(room_id, ms).drop_last() =~= appends(room_id, front));
        let mid = db.after_events(appends(room_id, front));
        let last = db.after_events(appends(room_id, ms));
        assert(last == mid.next(CommandView::AppendMessage { room_id, message: ms.last() }));
        assert(last.rooms =~= db.rooms.insert(
            room_id,
            RoomView { messages: with_messages(old_log, ms), ..db.rooms[room_id] },
        ));
        assert(db.actions(appends(room_id, ms)) =~= acks);
        lemma_commands_keep_invariant(
            mid,
            CommandView::AppendMessage { room_id, message: ms.last() },
        );
    }
}

/// A session that is gone harms nobody. Whatever command it had in flight,
/// the actor answers it, notes that the reply found nobody, and stands as it
/// would have stood had the reply arrived. Whoever is in the directory can
/// log in afterwards.
pub proof fn lemma_a_dropped_reply_harms_nobody(
    db: DatabaseView,
    cmd: CommandView,
    user_id: u128,
    now: Timestamp,
)
    requires
        db.wf(),
        db.users.contains_key(user_id),
    ensures
        ({
            let events = seq![ActorEventView::Command(cmd), ActorEventView::ReplyDropped];
            let then = db.after_events(events);
            let login = served(
                then,
                PhaseView::Unauthenticated,
                SessionEventView::Message(ClientMessageView::Login { user_id }),
                now,
            );
            &&& db.actions(events) == seq![
                ActorActionView::Reply(db.reply(cmd)),
                ActorActionView::Log(ChatError::DeadReply),
            ]
            &&& then == db.next(cmd)
            &&& then.wf()
            &&& login.phase == PhaseView::Authenticated { user: db.users[user_id] }
            &&& login.db == then
        }),
{
    let one = seq![ActorEventView::Command(cmd)];
    let events = seq![ActorEventView::Command(cmd), ActorEventView::ReplyDropped];
    assert(events.drop_last() =~= one);
    assert(one.drop_last() =~= Seq::<ActorEventView>::empty());
    assert(!halted(one));
    assert(db.after_events(one.drop_last()) == db);
    assert(db.actions(one.drop_last()) =~= Seq::<ActorActionView>::empty());
    assert(db.actions(one) =~= seq![ActorActionView::Reply(db.reply(cmd))]);
    assert(db.actions(events) =~= seq![
        ActorActionView::Reply(db.reply(cmd)),
        ActorActionView::Log(ChatError::DeadReply),
    ]);
    lemma_commands_keep_invariant(db, cmd);
    lemma_commands_change_one_log_at_most(db, cmd);
}

/// A run of appends never closes the inbox.
pub proof fn lemma_appends_never_halt(room_id: u128, ms: Seq<MessageView>)
    ensures
        !halted(appends(room_id, ms)),
    decreases ms.len(),
{
    if ms.len() > 0 {
        lemma_appends_never_halt(room_id, ms.drop_last());
        assert(appends(room_id, ms).drop_last() =~= appends(room_id, ms.drop_last()));
    }
}

/// A client that sends a chat message before it has logged in and joined a
/// room is told that it broke the protocol. Its session stays where it was and
/// asks the actor nothing, so no room and no log can have changed.
pub proof fn lemma_send_before_join_is_rejected(
    phase: PhaseView,
    room_id: u128,
    message: MessageView,
    now: Timestamp,
)
    requires
        phase.state() == SessionState::Unauthenticated || phase.state()
            == SessionState::Authenticated,
    ensures
        phase.step(
            SessionEventView::Message(ClientMessageView::SendMessage { room_id, message }),
            now,
        ) == (Step {
            phase,
            action: SessionActionView::Tell(
                ClientReplyView::failure(ChatError::ProtocolViolation, phase.acts_for()),
            ),
        }),
{
}

/// A session asks the actor only what its standing allows: who a user is,
/// when that user logs in; about a room, when a user who has logged in wants
/// to join it; for a room's messages, once the room is known to exist or for
/// a user who is in it; and to append a message only for a user who is in that
/// very room, under that user's name and at the time of the request.
pub proof fn lemma_commands_need_standing(phase: PhaseView, event: SessionEventView, now: Timestamp)
    ensures
        match phase.step(event, now).action {
            SessionActionView::Ask(CommandView::FindUser { id }) => phase is Unauthenticated
                && event == SessionEventView::Message(ClientMessageView::Login { user_id: id }),
            SessionActionView::Ask(CommandView::GetRoomInfo { room_id }) => phase is Authenticated
                && event == SessionEventView::Message(ClientMessageView::JoinRoom { room_id }),
            SessionActionView::Ask(CommandView::GetAllMessages { room_id }) => {
                ||| phase is Joining && phase->Joining_room_id == room_id && event is Answer
                ||| phase is InRoom && phase.room() == Some(room_id) && phase.seen() is None
                    && event is Refresh
            },
            SessionActionView::Ask(CommandView::GetMessagesSince { room_id, time }) => {
                &&& phase is InRoom
                &&& phase.room() == Some(room_id)
                &&& phase.seen() == Some(time)
                &&& event is Refresh
            },
            SessionActionView::Ask(CommandView::AppendMessage { room_id, message }) => {
                &&& phase is InRoom
                &&& phase.room() == Some(room_id)
                &&& phase.user() is Some
                &&& message.from == phase.user()->0.id
                &&& message.username == phase.user()->0.username
                &&& message.time == now
                &&& event is Message
            },
            _ => true,
        },
{
}

/// The identity of a session is assigned once: whoever has logged in stays
/// the user of the session until the session is closed.
pub proof fn lemma_identity_is_kept(phase: PhaseView, event: SessionEventView, now: Timestamp)
    requires
        phase.user() is Some,
    ensures
        phase.step(event, now).phase is Closed || phase.step(event, now).phase.user()
            == phase.user(),
{
}

/// A closed session stays closed and wants nothing done, whatever happens:
/// an answer that comes too late is dropped.
pub proof fn lemma_closed_is_final(event: SessionEventView, now: Timestamp)
    ensures
        PhaseView::Closed.step(event, now) == (Step {
            phase: PhaseView::Closed,
            action: SessionActionView::Nothing,
        }),
{
}

/// Whatever a client sends, its session does not end over it: a request out
/// of turn or an unreadable one is answered, and the session stays where it was.
pub proof fn lemma_client_errors_are_recoverable(
    phase: PhaseView,
    event: SessionEventView,
    now: Timestamp,
)
    requires
        event is Message || event is Malformed,
        !(phase is Closed),
    ensures
        !(phase.step(event, now).phase is Closed),
        phase.step(event, now).action is Tell ==> phase.step(event, now) == phase.rejects(),
{
}

/// Carried to its end, no event leaves a session asking: every command has
/// had its one reply.
pub proof fn lemma_served_never_asks(
    db: DatabaseView,
    phase: PhaseView,
    event: SessionEventView,
    now: Timestamp,
)
    ensures
        !(served(db, phase, event, now).action is Ask),
{
}

/// A chat message from a client that has not logged in and joined a room
/// changes nothing at all: not the database, not the session. The client is
/// told that it broke the protocol.
pub proof fn lemma_send_before_join_changes_nothing(
    db: DatabaseView,
    phase: PhaseView,
    room_id: u128,
    message: MessageView,
    now: Timestamp,
)
    requires
        phase.state() == SessionState::Unauthenticated || phase.state()
            == SessionState::Authenticated,
    ensures
        served(
            db,
            phase,
            SessionEventView::Message(ClientMessageView::SendMessage { room_id, message }),
            now,
        ) == (Outcome {
            db,
            phase,
            action: SessionActionView::Tell(
                ClientReplyView::failure(ChatError::ProtocolViolation, phase.acts_for()),
            ),
        }),
{
}

/// Whatever happens to a session, the database changes in one case only: a
/// user who is in a room sends a message to that room. Then the message is
/// appended to that room's log, under the user's identity and name and with
/// the time of the request. The directory never changes.
pub proof fn lemma_only_a_send_from_within_changes_the_database(
    db: DatabaseView,
    phase: PhaseView,
    event: SessionEventView,
    now: Timestamp,
)
    ensures
        served(db, phase, event, now).db == (match (phase, event) {
            (
                PhaseView::InRoom { user, room_id, .. },
                SessionEventView::Message(ClientMessageView::SendMessage { room_id: target, message }),
            ) => if target == room_id {
                db.next(
                    CommandView::AppendMessage {
                        room_id,
                        message: PhaseView::stamped(user, message, now),
                    },
                )
            } else {
                db
            },
            _ => db,
        }),
        served(db, phase, event, now).db.users == db.users,
{
}

/// What one user says in a room, the next to join reads: a user logs in,
/// joins a room and sends a message; whoever logs in and joins the room after
/// that is shown the room's earlier messages and the new one, which carries
/// the sender's identity and name and the time at which it was sent.
pub proof fn lemma_who_joins_later_reads_what_was_said(
    db: DatabaseView,
    author: u128,
    reader: u128,
    room_id: u128,
    draft: MessageView,
    times: Seq<Timestamp>,
)
    requires
        db.wf(),
        db.users.contains_key(author),
        db.users.contains_key(reader),
        db.rooms.contains_key(room_id),
        times.len() == 5,
    ensures
        ({
            let said = MessageView {
                time: times[2],
                text: draft.text,
                from: author,
                username: db.users[author].username,
            };
            let a1 = served(
                db,
                PhaseView::Unauthenticated,
                SessionEventView::Message(ClientMessageView::Login { user_id: author }),
                times[0],
            );
            let a2 = served(
                a1.db,
                a1.phase,
                SessionEventView::Message(ClientMessageView::JoinRoom { room_id }),
                times[1],
            );
            let a3 = served(
                a2.db,
                a2.phase,
                SessionEventView::Message(
                    ClientMessageView::SendMessage { room_id, message: draft },
                ),
                times[2],
            );
            let b1 = served(
                a3.db,
                PhaseView::Unauthenticated,
                SessionEventView::Message(ClientMessageView::Login { user_id: reader }),
                times[3],
            );
            let b2 = served(
                b1.db,
                b1.phase,
                SessionEventView::Message(ClientMessageView::JoinRoom { room_id }),
                times[4],
            );
            &&& a1.action == SessionActionView::Nothing
            &&& a2.action == SessionActionView::Tell(
                ClientReplyView::Messages {
                    room_id,
                    messages: db.rooms[room_id].messages,
                    user_id: author,
                },
            )
            &&& a3.action == SessionActionView::Tell(
                ClientReplyView::MessageDelivered { room_id, user_id: author },
            )
            &&& b1.action == SessionActionView::Nothing
            &&& b2.action == SessionActionView::Tell(
                ClientReplyView::Messages {
                    room_id,
                    messages: with_message(db.rooms[room_id].messages, said),
                    user_id: reader,
                },
            )
        }),
{
}

/// A look for news shows a user who is in a room exactly what the room's log
/// holds later than the newest message that the client was shown before, in
/// the order of the log, and all of the log to a client that was shown
/// nothing. Where there is no news the client is told nothing. The database
/// stays as it is, and what counts as seen never moves back in time.
pub proof fn lemma_refresh_shows_the_news(
    db: DatabaseView,
    user: UserView,
    room_id: u128,
    seen: Option<Timestamp>,
    now: Timestamp,
)
    requires
        db.wf(),
        db.rooms.contains_key(room_id),
    ensures
        ({
            let log = db.rooms[room_id].messages;
            let news = match seen {
                Some(t) => log.filter(is_after(t)),
                None => log,
            };
            let out = served(
                db,
                PhaseView::InRoom { user, room_id, seen },
                SessionEventView::Refresh,
                now,
            );
            &&& out.db == db
            &&& out.phase == PhaseView::InRoom {
                user,
                room_id,
                seen: PhaseView::newest(seen, news),
            }
            &&& out.action == if news.len() == 0 {
                SessionActionView::Nothing
            } else {
                SessionActionView::Tell(
                    ClientReplyView::Messages { room_id, messages: news, user_id: user.id },
                )
            }
            &&& seen matches Some(t) ==> PhaseView::newest(seen, news) matches Some(later)
                && t.key() <= later.key()
        }),
{
    if let Some(t) = seen {
        let news = db.rooms[room_id].messages.filter(is_after(t));
        if news.len() > 0 {
            db.rooms[room_id].messages.lemma_filter_pred(is_after(t), news.len() - 1);
        }
    }
}

/// In a room that holds one message, a message sent no earlier than that one
/// comes second.
pub proof fn lemma_second_message_comes_second(first: MessageView, second: MessageView)
    requires
        first.time.key() <= second.time.key(),
    ensures
        with_message(seq![first], second) == seq![first, second],
{
    lemma_split(seq![first], second.time, 1);
    assert(seq![first].subrange(0, 1) + seq![second] + seq![first].subrange(1, 1) =~= seq![
        first,
        second,
    ]);
}

} // verus!
