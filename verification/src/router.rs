//! Session and chat actor in one thread: an event of a session is carried
//! to its end, with every command that the session asks put to the database
//! at once.
//!
//! Where sessions and actor run as tasks of their own, channels do this
//! carrying. What comes of it is the same.

use vstd::prelude::*;
use crate::database::{Database, DatabaseView};
use crate::session::{
    PhaseView, Session, SessionAction, SessionActionView, SessionEvent, SessionEventView, Step,
};
use crate::time::Timestamp;

verus! {

/// What has come of an event: the database, the session, and what the
/// session wants done.
pub struct Outcome {
    pub db: DatabaseView,
    pub phase: PhaseView,
    pub action: SessionActionView,
}

/// The step `step` of a session, with the command that it asks, if it asks
/// one, put to `db` and answered.
pub open spec fn settled(db: DatabaseView, step: Step, now: Timestamp) -> Outcome {
    match step.action {
        SessionActionView::Ask(cmd) => {
            let then = step.phase.step(SessionEventView::Answer(db.reply(cmd)), now);
            Outcome { db: db.next(cmd), phase: then.phase, action: then.action }
        },
        _ => Outcome { db, phase: step.phase, action: step.action },
    }
}

/// What comes of `event` for a session at `phase` and the database `db`.
/// No event makes a session ask more than twice in a row.
pub open spec fn served(
    db: DatabaseView,
    phase: PhaseView,
    event: SessionEventView,
    now: Timestamp,
) -> Outcome {
    let first = settled(db, phase.step(event, now), now);
    settled(first.db, Step { phase: first.phase, action: first.action }, now)
}

/// Asks `db` the command of `action`, if it is one, and tells `session` the answer.
fn settle(db: &mut Database, session: &mut Session, action: SessionAction, now: Timestamp) -> (out:
    SessionAction)
    requires
        old(db).wf(),
    ensures
        final(db).wf(),
        final(session)@.id == old(session)@.id,
        settled(old(db)@, Step { phase: old(session)@.phase, action: action@ }, now) == (Outcome {
            db: final(db)@,
            phase: final(session)@.phase,
            action: out@,
        }),
{
    match action {
        SessionAction::Ask(cmd) => {
            let reply = db.handle(cmd);
            session.step(SessionEvent::Answer(reply), now)
        },
        other => other,
    }
}

/// Carries `event`, which has happened at `now`, to its end: the session
/// takes its step, and whatever it asks is put to `db` and answered, until
/// the session wants something other than to ask.
pub fn serve(db: &mut Database, session: &mut Session, event: SessionEvent, now: Timestamp) -> (out:
    SessionAction)
    requires
        old(db).wf(),
    ensures
        final(db).wf(),
        final(session)@.id == old(session)@.id,
        served(old(db)@, old(session)@.phase, event@, now) == (Outcome {
            db: final(db)@,
            phase: final(session)@.phase,
            action: out@,
        }),
        !(out@ is Ask),
{
    let first = session.step(event, now);
    let second = settle(db, session, first, now);
    settle(db, session, second, now)
}

} // verus!
