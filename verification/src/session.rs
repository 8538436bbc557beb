//! The session engine's decisions: the authentication verdict, the fixed
//! authentication-phase reply lines, one step of the steady-state multiplexed
//! loop, the unconditional teardown, and the grid signal adapter's
//! alternation. The surrounding I/O — reading frames, sending replies under
//! deadlines, awaiting the alert channel and the idle timer — is the caller's
//! loop; every decision it needs is taken here.

use vstd::prelude::*;

use crate::calendar::DateTime;
use crate::calendar::spec_next_month;
use crate::connection_context::spec_add_reading;
use crate::connection_context::spec_flush;
use crate::connection_context::ConnectionContext;
use crate::store::Message;
use crate::store::Store;
use crate::Bill;
use crate::DatabaseError;
use crate::DatabaseInterface;
use crate::DbResult;
use crate::Reading;

verus! {

/// The result bcrypt's verifier computes for a password against a stored
/// hash: `Some` of the comparison, `None` when the stored hash cannot be
/// parsed. It is a function of the two strings alone.
pub uninterp spec fn bcrypt_verify_result(password: Seq<char>, hash: Seq<char>) -> Option<bool>;

/// Relies on bcrypt::verify: recomputes the hash of `password` under the
/// parameters and salt carried in `hash` and compares the outcome;
/// deterministic in its two arguments.
#[verifier::external_body]
fn bcrypt_verify(password: &str, hash: &str) -> (r: Option<bool>)
    ensures
        r == bcrypt_verify_result(password@, hash@),
{
    match bcrypt::verify(password, hash) {
        Ok(b) => Some(b),
        Err(_) => None,
    }
}

/// The verdict of the authentication phase.
#[derive(Debug, PartialEq)]
pub enum AuthOutcome {
    /// Credentials match: proceed to the subscription phase.
    Granted,
    /// Unknown id or wrong token: the fixed failure line is sent, then the
    /// session closes.
    Denied,
    /// The stored hash could not be checked; the session closes without a
    /// reply.
    Error,
}

/// Decide the authentication phase for a parsed auth frame against the
/// stored credential.
pub fn authenticate_client<D: DatabaseInterface>(database: &D, id: u64, token: &str) -> (r:
    AuthOutcome)
    ensures
        !database.db().contains_key(id) ==> r == AuthOutcome::Denied,
        database.db().contains_key(id) ==> (match bcrypt_verify_result(
            token@,
            database.db()[id].token,
        ) {
            Some(true) => r == AuthOutcome::Granted,
            Some(false) => r == AuthOutcome::Denied,
            None => r == AuthOutcome::Error,
        }),
{
    match database.client_exists(id) {
        Ok(Some(hash)) => match bcrypt_verify(token, hash.as_str()) {
            Some(true) => AuthOutcome::Granted,
            Some(false) => AuthOutcome::Denied,
            None => AuthOutcome::Error,
        },
        Ok(None) => AuthOutcome::Denied,
        Err(_) => AuthOutcome::Denied,
    }
}

/// The fixed authentication-phase reply line.
pub fn auth_response(granted: bool) -> (r: &'static str)
    ensures
        granted ==> r@ == "Authentication successful"@,
        !granted ==> r@ == "Authentication failed"@,
{
    if granted {
        "Authentication successful"
    } else {
        "Authentication failed"
    }
}

/// The reply line for a second meter connecting under an id that is already
/// subscribed.
pub fn busy_response() -> (r: &'static str)
    ensures
        r@ == "Another smart meter is already connected"@,
{
    "Another smart meter is already connected"
}

/// A message from the meter after authentication.
#[derive(Clone, Copy, PartialEq, Eq, Structural, Debug)]
pub enum ClientMessage {
    MeterReading { reading: u64 },
}

/// A message from the server after authentication.
#[derive(Debug, PartialEq)]
pub enum ServerMessage {
    Bill(Bill),
    PowerGridIssue { error: String },
    PowerGridIssueResolved {},
}

/// One occurrence the session's multiplexed loop can observe.
pub enum SessionEvent {
    /// A well-formed meter frame arrived.
    Frame(ClientMessage),
    /// The byte stream ended.
    Disconnected,
    /// A frame arrived but could not be read as a message.
    FrameUnreadable,
    /// An event arrived on the alert channel.
    Alert(Message),
    /// The alert channel reported lag or closure.
    AlertChannelClosed,
    /// No inbound frame within the idle window.
    IdleTimeout,
}

/// What the session loop must do next.
#[derive(Debug)]
pub enum SessionAction {
    /// Send this message under the send deadline, then keep going.
    Reply(ServerMessage),
    /// Keep waiting without replying (an out-of-order reading was rejected).
    Continue,
    /// Leave the loop and run teardown.
    Terminate,
    /// A database failure: leave the loop, reporting the error.
    Fail(DatabaseError),
}

/// The action answers an alert event with the matching outbound message.
pub open spec fn is_alert_reply(r: SessionAction, m: Message) -> bool {
    match m {
        Message::PowerGridError(p) => match r {
            SessionAction::Reply(ServerMessage::PowerGridIssue { error }) => error@ == p.error@,
            _ => false,
        },
        Message::PowerGridErrorResolved {  } => r == SessionAction::Reply(
            ServerMessage::PowerGridIssueResolved {  },
        ),
    }
}

/// The outbound message that replays a standing alert to a subscriber that
/// joined while the incident was unresolved.
pub fn replay_message(alert: crate::store::PowerGridError) -> (r: ServerMessage)
    ensures
        (r matches ServerMessage::PowerGridIssue { error } && error@ == alert.error@),
{
    ServerMessage::PowerGridIssue { error: alert.error }
}

/// One decision step of the steady-state loop. Meter readings arrive as
/// deltas against the reading current at session start; the absolute reading
/// is stamped with `now` and fed to the aggregator, and an accepted reading
/// is answered with the updated bill. An out-of-order reading is rejected
/// and the session continues; any other database failure ends it.
pub fn session_step<D: DatabaseInterface>(
    ctx: &mut ConnectionContext,
    database: &mut D,
    initial_cost: u64,
    event: SessionEvent,
    now: DateTime,
) -> (r: SessionAction)
    requires
        event matches SessionEvent::Frame(ClientMessage::MeterReading { reading })
            ==> initial_cost + reading <= u64::MAX && spec_next_month(now.date) is Some,
    ensures
        !(event matches SessionEvent::Frame(_)) ==> *final(ctx) == *old(ctx) && *final(database)
            == *old(database),
        match event {
            SessionEvent::Frame(ClientMessage::MeterReading { reading }) => ({
                let rd = Reading { reading: (initial_cost + reading) as u64, time: now };
                let (c1, d1, res) = spec_add_reading(*old(ctx), old(database).db(), rd);
                &&& *final(ctx) == c1
                &&& final(database).db() == d1
                &&& (res is Ok ==> r == SessionAction::Reply(ServerMessage::Bill(c1.current_bill)))
                &&& (res matches Err(e) ==> (match e {
                    DatabaseError::InvalidReading => r == SessionAction::Continue,
                    _ => r == SessionAction::Fail(e),
                }))
            }),
            SessionEvent::Alert(m) => is_alert_reply(r, m),
            SessionEvent::Disconnected => r == SessionAction::Terminate,
            SessionEvent::FrameUnreadable => r == SessionAction::Terminate,
            SessionEvent::AlertChannelClosed => r == SessionAction::Terminate,
            SessionEvent::IdleTimeout => r == SessionAction::Terminate,
        },
{
    match event {
        SessionEvent::Frame(ClientMessage::MeterReading { reading }) => {
            let absolute: u64 = initial_cost + reading;
            let rd: Reading = Reading { reading: absolute, time: now };
            match ctx.add_reading(database, rd) {
                Ok(_) => SessionAction::Reply(ServerMessage::Bill(ctx.current_bill())),
                Err(e) => match e {
                    DatabaseError::InvalidReading => SessionAction::Continue,
                    other => SessionAction::Fail(other),
                },
            }
        },
        SessionEvent::Alert(m) => match m {
            Message::PowerGridError(p) => SessionAction::Reply(
                ServerMessage::PowerGridIssue { error: p.error },
            ),
            Message::PowerGridErrorResolved {  } => SessionAction::Reply(
                ServerMessage::PowerGridIssueResolved {  },
            ),
        },
        SessionEvent::Disconnected => SessionAction::Terminate,
        SessionEvent::FrameUnreadable => SessionAction::Terminate,
        SessionEvent::AlertChannelClosed => SessionAction::Terminate,
        SessionEvent::IdleTimeout => SessionAction::Terminate,
    }
}

/// Teardown, run on every session exit path: deregister from the alert
/// store, then flush the aggregator's last in-hour reading.
pub fn session_teardown<D: DatabaseInterface>(
    store: &mut Store,
    ctx: &mut ConnectionContext,
    database: &mut D,
) -> (r: DbResult<()>)
    requires
        spec_next_month(old(ctx).current_reading.time.date) is Some,
    ensures
        final(store).clients@ == old(store).clients@.remove(old(ctx).client_id),
        final(store).alert == old(store).alert,
        final(store).tx == old(store).tx,
        ({
            let (c1, d1, res) = spec_flush(*old(ctx), old(database).db());
            *final(ctx) == c1 && final(database).db() == d1 && r == res
        }),
{
    store.unsubscribe(ctx.client_id);
    ctx.flush(database)
}

/// The grid signal adapter's alternation: each external signal toggles
/// between publishing an incident and publishing the all-clear. Returns the
/// new "incident standing" flag.
pub fn grid_signal_step(store: &mut Store, errored: bool, message: &str) -> (r: bool)
    ensures
        r == !errored,
        final(store).clients@ == old(store).clients@,
        final(store).tx == old(store).tx,
        !errored ==> (final(store).alert matches Some(a) && a.error@ == message@),
        errored ==> final(store).alert is None,
{
    if !errored {
        store.broadcast_err(message);
        true
    } else {
        store.broadcast_resolved();
        false
    }
}

} // verus!
