use smart_meter_server::calendar::Date;
use smart_meter_server::calendar::DateTime;
use smart_meter_server::connection_context::ConnectionContext;
use smart_meter_server::mock::MockDatabase;
use smart_meter_server::session::auth_response;
use smart_meter_server::session::authenticate_client;
use smart_meter_server::session::busy_response;
use smart_meter_server::session::grid_signal_step;
use smart_meter_server::session::replay_message;
use smart_meter_server::session::session_step;
use smart_meter_server::session::session_teardown;
use smart_meter_server::session::AuthOutcome;
use smart_meter_server::session::ClientMessage;
use smart_meter_server::session::ServerMessage;
use smart_meter_server::session::SessionAction;
use smart_meter_server::session::SessionEvent;
use smart_meter_server::store::Message;
use smart_meter_server::store::Store;
use smart_meter_server::Bill;
use smart_meter_server::Client;
use smart_meter_server::DatabaseInterface;
use smart_meter_server::Reading;

const CLIENT_ID: u64 = 0;
const UNIT_COST: u32 = 200;
const STANDING_CHARGE: u32 = 400;

fn seed_time() -> DateTime {
    DateTime { date: Date { year: 2024, month: 5, day: 10 }, hour: 10, minute: 59, second: 0 }
}

fn db_with_auth_client(initial: u64) -> MockDatabase {
    let mut db = MockDatabase::new();
    let first = Reading { reading: initial, time: seed_time() };
    let bill = Bill::from_reading(&first, UNIT_COST, STANDING_CHARGE).expect("date overflow");
    let token = bcrypt::hash(CLIENT_ID.to_string(), 4).expect("invalid bcrypt cost");
    let client = Client { token, bills: vec![bill], readings: vec![first] };
    db.add_client(CLIENT_ID, client).expect("seed failed");
    db
}

#[test]
fn test_valid_auth() {
    let db = db_with_auth_client(0);
    assert_eq!(
        authenticate_client(&db, CLIENT_ID, &CLIENT_ID.to_string()),
        AuthOutcome::Granted
    );
    assert_eq!(auth_response(true), "Authentication successful");
}

#[test]
fn test_invalid_token_auth() {
    let db = db_with_auth_client(0);
    assert_eq!(
        authenticate_client(&db, CLIENT_ID, &1.to_string()),
        AuthOutcome::Denied
    );
    assert_eq!(auth_response(false), "Authentication failed");
}

#[test]
fn test_invalid_id_auth() {
    let db = db_with_auth_client(0);
    assert_eq!(
        authenticate_client(&db, 1, &CLIENT_ID.to_string()),
        AuthOutcome::Denied
    );
    assert_eq!(auth_response(false), "Authentication failed");
}

#[test]
fn test_unparsable_hash_is_error() {
    let mut db = MockDatabase::new();
    let client = Client { token: "not a bcrypt hash".to_string(), bills: vec![], readings: vec![] };
    db.add_client(CLIENT_ID, client).unwrap();
    assert_eq!(
        authenticate_client(&db, CLIENT_ID, "whatever"),
        AuthOutcome::Error
    );
}

#[test]
fn test_send() {
    let mut db = db_with_auth_client(0);
    let mut ctx = ConnectionContext::new(CLIENT_ID, UNIT_COST, STANDING_CHARGE, &db)
        .expect("context construction failed");
    let initial_cost = ctx.current_reading().reading;

    let action = session_step(
        &mut ctx,
        &mut db,
        initial_cost,
        SessionEvent::Frame(ClientMessage::MeterReading { reading: 100 }),
        seed_time(),
    );
    match action {
        SessionAction::Reply(ServerMessage::Bill(bill)) => {
            assert_eq!(bill.actual_usage, 20_000); // 20.0 at a milli quantum
            assert_eq!(bill.standing_charge, 400); // 0.4
            assert_eq!(bill.total, 20_400); // 20.4
            assert_eq!(bill.units_end, 100);
        }
        other => panic!("expected a bill reply, got {:?}", other),
    }
}

#[test]
fn test_rejected_reading_continues() {
    let mut db = db_with_auth_client(10);
    let mut ctx = ConnectionContext::new(CLIENT_ID, UNIT_COST, STANDING_CHARGE, &db)
        .expect("context construction failed");

    // a delta of zero against initial cost 10 resubmits 10; force a backwards
    // absolute reading by using initial cost 0
    let action = session_step(
        &mut ctx,
        &mut db,
        0,
        SessionEvent::Frame(ClientMessage::MeterReading { reading: 5 }),
        seed_time(),
    );
    assert!(matches!(action, SessionAction::Continue));
    assert_eq!(ctx.current_reading().reading, 10);
}

#[test]
fn test_alert() {
    let mut db = db_with_auth_client(0);
    let mut ctx = ConnectionContext::new(CLIENT_ID, UNIT_COST, STANDING_CHARGE, &db)
        .expect("context construction failed");

    let mut store = Store::new(2);
    let (replay, mut rx) = store.subscribe(CLIENT_ID).expect("subscribe refused");
    assert!(replay.is_none());

    store.broadcast_err("power grid error");
    let event = rx.try_recv().expect("no alert on the channel");
    match &event {
        Message::PowerGridError(e) => assert_eq!(e.error().as_str(), "power grid error"),
        other => panic!("expected a grid error event, got {:?}", other),
    }

    let action = session_step(&mut ctx, &mut db, 0, SessionEvent::Alert(event), seed_time());
    match action {
        SessionAction::Reply(ServerMessage::PowerGridIssue { error }) => {
            assert_eq!(error, "power grid error");
        }
        other => panic!("expected a grid issue reply, got {:?}", other),
    }
}

#[test]
fn test_resolved_alert_reply() {
    let mut db = db_with_auth_client(0);
    let mut ctx = ConnectionContext::new(CLIENT_ID, UNIT_COST, STANDING_CHARGE, &db)
        .expect("context construction failed");
    let action = session_step(
        &mut ctx,
        &mut db,
        0,
        SessionEvent::Alert(Message::PowerGridErrorResolved {}),
        seed_time(),
    );
    assert!(matches!(
        action,
        SessionAction::Reply(ServerMessage::PowerGridIssueResolved {})
    ));
}

#[test]
fn test_terminating_events() {
    let mut db = db_with_auth_client(0);
    let mut ctx = ConnectionContext::new(CLIENT_ID, UNIT_COST, STANDING_CHARGE, &db)
        .expect("context construction failed");
    for event in [
        SessionEvent::Disconnected,
        SessionEvent::FrameUnreadable,
        SessionEvent::AlertChannelClosed,
        SessionEvent::IdleTimeout,
    ] {
        let action = session_step(&mut ctx, &mut db, 0, event, seed_time());
        assert!(matches!(action, SessionAction::Terminate));
    }
}

#[test]
fn test_replay_message() {
    let mut store = Store::new(2);
    store.broadcast_err("power grid error");
    let (replay, _rx) = store.subscribe(9).expect("subscribe refused");
    let alert = replay.expect("standing alert not replayed");
    match replay_message(alert) {
        ServerMessage::PowerGridIssue { error } => assert_eq!(error, "power grid error"),
        other => panic!("expected a grid issue message, got {:?}", other),
    }
}

#[test]
fn test_busy_response_line() {
    assert_eq!(busy_response(), "Another smart meter is already connected");
}

#[test]
fn test_teardown_unsubscribes_and_flushes() {
    let mut db = db_with_auth_client(0);
    let mut ctx = ConnectionContext::new(CLIENT_ID, UNIT_COST, STANDING_CHARGE, &db)
        .expect("context construction failed");
    let mut store = Store::new(2);
    store.subscribe(CLIENT_ID).expect("subscribe refused");

    // an in-hour reading leaves dirty state behind
    let reading = Reading { reading: 42, time: seed_time() };
    session_step(
        &mut ctx,
        &mut db,
        0,
        SessionEvent::Frame(ClientMessage::MeterReading { reading: 42 }),
        seed_time(),
    );
    assert_ne!(db.last_reading(CLIENT_ID).unwrap(), Some(reading));

    session_teardown(&mut store, &mut ctx, &mut db).expect("teardown failed");
    assert_eq!(db.last_reading(CLIENT_ID).unwrap(), Some(reading));

    // the id can connect again
    assert!(store.subscribe(CLIENT_ID).is_some());
}

#[test]
fn test_grid_signal_alternation() {
    let mut store = Store::new(2);
    let errored = grid_signal_step(&mut store, false, "someone unplugged the power cable!");
    assert!(errored);
    assert!(store.alert.is_some());
    let errored = grid_signal_step(&mut store, errored, "someone unplugged the power cable!");
    assert!(!errored);
    assert!(store.alert.is_none());
}
