use smart_meter_server::calendar::Date;
use smart_meter_server::calendar::DateTime;
use smart_meter_server::mock::MockDatabase;
use smart_meter_server::Bill;
use smart_meter_server::Client;
use smart_meter_server::DatabaseError;
use smart_meter_server::DatabaseInterface;
use smart_meter_server::Reading;

const CLIENT_ID: u64 = 1;

fn sample_time() -> DateTime {
    DateTime { date: Date { year: 2024, month: 5, day: 10 }, hour: 10, minute: 30, second: 0 }
}

fn reading_of(value: u64) -> Reading {
    Reading { reading: value, time: sample_time() }
}

fn db_with_client(client_id: u64) -> MockDatabase {
    let mut db = MockDatabase::new();
    let client = Client { token: "".to_string(), bills: vec![], readings: vec![] };
    db.add_client(client_id, client).expect("something went terribly wrong");
    db
}

#[test]
fn test_add_client() {
    let mut db = db_with_client(CLIENT_ID);
    assert!(db.client_exists(CLIENT_ID).unwrap().is_some());

    let client = Client { token: "".to_string(), bills: vec![], readings: vec![] };
    assert_eq!(db.add_client(CLIENT_ID, client), Err(DatabaseError::DataConflict));
}

#[test]
fn test_remove_client() {
    let mut db = db_with_client(CLIENT_ID);

    assert_eq!(db.remove_client(CLIENT_ID), Ok(()));
    assert!(db.client_exists(CLIENT_ID).unwrap().is_none());

    assert_eq!(db.remove_client(CLIENT_ID), Err(DatabaseError::ClientNotFound));
}

#[test]
fn test_add_reading() {
    let mut db = db_with_client(CLIENT_ID);
    let reading = reading_of(10);

    assert_eq!(db.add_reading(CLIENT_ID, reading), Ok(()));

    let reading2 = db.last_reading(CLIENT_ID).expect("something went terribly wrong");
    assert!(reading2.is_some());
    assert_eq!(reading2.unwrap().reading, reading.reading);
    assert_eq!(reading2.unwrap().time, reading.time);

    assert_eq!(
        db.add_reading(CLIENT_ID + 1, reading),
        Err(DatabaseError::ClientNotFound)
    );
}

#[test]
fn test_add_bill() {
    let mut db = db_with_client(CLIENT_ID);
    let reading = reading_of(10);
    let bill = Bill::from_reading(&reading, 200, 400).expect("date overflow");

    assert_eq!(db.add_bill(CLIENT_ID, bill), Ok(()));

    let last = db.last_bill(CLIENT_ID).expect("something went terribly wrong");
    assert!(last.is_some());
    assert_eq!(last.unwrap(), bill);
}

#[test]
fn test_update_last_bill() {
    let mut db = db_with_client(CLIENT_ID);

    // no bill appended yet
    let reading = reading_of(10);
    let bill = Bill::from_reading(&reading, 200, 400).expect("date overflow");
    assert_eq!(db.update_last_bill(CLIENT_ID, bill), Err(DatabaseError::BillNotFound));

    db.add_bill(CLIENT_ID, bill).unwrap();
    let mut changed = bill;
    changed.units_end = 25;
    assert_eq!(db.update_last_bill(CLIENT_ID, changed), Ok(()));
    assert_eq!(db.last_bill(CLIENT_ID).unwrap(), Some(changed));

    assert_eq!(
        db.update_last_bill(CLIENT_ID + 1, changed),
        Err(DatabaseError::ClientNotFound)
    );
}
