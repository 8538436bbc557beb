//! Server-side core of a smart-meter telemetry service: per-client billing
//! aggregation with hourly flushing and monthly period rollover, an in-memory
//! client database behind an abstract port, a length-framed wire codec, the
//! session decision logic, and a shared alert store that fans grid incidents
//! out to active sessions.
//!
//! Quantities are exact integers: meter readings are cumulative consumption
//! units, money amounts are counted in the smallest currency quantum.

use vstd::prelude::*;

pub mod calendar;
pub mod codec;
pub mod connection_context;
pub mod mock;
pub mod session;
pub mod store;

use crate::calendar::Date;
use crate::calendar::DateTime;
use crate::calendar::spec_next_month;

verus! {

/// A cumulative meter reading: the meter's counter in consumption units and
/// the wall-clock time it was observed.
#[derive(Clone, Copy, PartialEq, Eq, Structural, Debug)]
pub struct Reading {
    pub reading: u64,
    pub time: DateTime,
}

/// A half-open interval `[start, end)` of calendar dates, one calendar month
/// long.
#[derive(Clone, Copy, PartialEq, Eq, Structural, Debug)]
pub struct BillingPeriod {
    pub start: Date,
    pub end: Date,
}

impl BillingPeriod {
    pub fn start(&self) -> (r: Date)
        ensures
            r == self.start,
    {
        self.start
    }

    pub fn end(&self) -> (r: Date)
        ensures
            r == self.end,
    {
        self.end
    }
}

/// One billing period's accreting bill. `price_per_unit` is money per
/// consumption unit, `daily_standing_charge` is money per day; the money
/// fields are signed so that out-of-order timestamps, which the aggregator
/// tolerates, cannot wrap.
#[derive(Clone, Copy, PartialEq, Eq, Structural, Debug)]
pub struct Bill {
    pub actual_usage: i128,
    pub standing_charge: i128,
    pub total: i128,
    pub units_start: u64,
    pub units_end: u64,
    pub price_per_unit: u32,
    pub daily_standing_charge: u32,
    pub billing_period: BillingPeriod,
}

/// The opening bill built from a client's first stored reading: the whole
/// opening reading priced as usage, one day of standing charge, and a period
/// of one calendar month starting on the reading's date. `None` exactly when
/// the period end would overflow the year counter.
pub open spec fn spec_bill_from_reading(
    r: Reading,
    price_per_unit: u32,
    daily_standing_charge: u32,
) -> Option<Bill> {
    match spec_next_month(r.time.date) {
        None => None,
        Some(end) => Some(
            Bill {
                actual_usage: (r.reading * price_per_unit) as i128,
                standing_charge: daily_standing_charge as i128,
                total: (r.reading * price_per_unit + daily_standing_charge) as i128,
                units_start: 0,
                units_end: r.reading,
                price_per_unit,
                daily_standing_charge,
                billing_period: BillingPeriod { start: r.time.date, end },
            },
        ),
    }
}

impl Bill {
    pub fn from_reading(
        reading: &Reading,
        price_per_unit: u32,
        daily_standing_charge: u32,
    ) -> (r: Option<Bill>)
        ensures
            r == spec_bill_from_reading(*reading, price_per_unit, daily_standing_charge),
    {
        match crate::calendar::next_month(&reading.time.date) {
            None => None,
            Some(end) => {
                proof {
                    assert(reading.reading * price_per_unit < 0x10000000000000000 * 0x100000000)
                        by (nonlinear_arith)
                        requires
                            reading.reading < 0x10000000000000000,
                            price_per_unit < 0x100000000,
                    ;
                }
                let usage: i128 = reading.reading as i128 * price_per_unit as i128;
                Some(
                    Bill {
                        actual_usage: usage,
                        standing_charge: daily_standing_charge as i128,
                        total: usage + daily_standing_charge as i128,
                        units_start: 0,
                        units_end: reading.reading,
                        price_per_unit,
                        daily_standing_charge,
                        billing_period: BillingPeriod { start: reading.time.date, end },
                    },
                )
            },
        }
    }
}

/// The errors of the database port and of the billing aggregator.
#[derive(PartialEq, Eq, Debug)]
pub enum DatabaseError {
    ClientNotFound,
    BillNotFound,
    ConnectionError,
    DataConflict,
    InvalidReading,
    MissingReading,
    Unknown(String),
}

pub type DbResult<T> = Result<T, DatabaseError>;

/// A stored client record: credential token (a password hash) and the
/// append-ordered histories of readings and bills.
pub struct Client {
    pub token: String,
    pub bills: Vec<Bill>,
    pub readings: Vec<Reading>,
}

/// The mathematical content of one stored client record.
pub struct ClientView {
    pub token: Seq<char>,
    pub bills: Seq<Bill>,
    pub readings: Seq<Reading>,
}

impl View for Client {
    type V = ClientView;

    open spec fn view(&self) -> ClientView {
        ClientView { token: self.token@, bills: self.bills@, readings: self.readings@ }
    }
}

/// Abstract CRUD port over clients, readings and bills. `db()` is the content
/// an implementation exposes: a map from client id to the stored record.
/// Operations on a single client are atomic with respect to this model.
pub trait DatabaseInterface: Sized {
    spec fn db(&self) -> Map<u64, ClientView>;

    /// Insert a fresh client record; refused when the id is already taken.
    fn add_client(&mut self, client_id: u64, client: Client) -> (r: DbResult<()>)
        ensures
            !old(self).db().contains_key(client_id) ==> (r is Ok && final(self).db() == old(
                self,
            ).db().insert(client_id, client@)),
            old(self).db().contains_key(client_id) ==> (r matches Err(DatabaseError::DataConflict)
                && final(self).db() == old(self).db()),
    ;

    /// Remove a client record and its histories.
    fn remove_client(&mut self, client_id: u64) -> (r: DbResult<()>)
        ensures
            old(self).db().contains_key(client_id) ==> r is Ok && final(self).db() == old(
                self,
            ).db().remove(client_id),
            !old(self).db().contains_key(client_id) ==> (r matches Err(
                DatabaseError::ClientNotFound,
            ) && final(self).db() == old(self).db()),
    ;

    /// Append a reading to the client's history.
    fn add_reading(&mut self, client_id: u64, reading: Reading) -> (r: DbResult<()>)
        ensures
            old(self).db().contains_key(client_id) ==> r is Ok && final(self).db() == old(
                self,
            ).db().insert(
                client_id,
                ClientView {
                    readings: old(self).db()[client_id].readings.push(reading),
                    ..old(self).db()[client_id]
                },
            ),
            !old(self).db().contains_key(client_id) ==> (r matches Err(
                DatabaseError::ClientNotFound,
            ) && final(self).db() == old(self).db()),
    ;

    /// Append a bill to the client's history.
    fn add_bill(&mut self, client_id: u64, bill: Bill) -> (r: DbResult<()>)
        ensures
            old(self).db().contains_key(client_id) ==> r is Ok && final(self).db() == old(
                self,
            ).db().insert(
                client_id,
                ClientView {
                    bills: old(self).db()[client_id].bills.push(bill),
                    ..old(self).db()[client_id]
                },
            ),
            !old(self).db().contains_key(client_id) ==> (r matches Err(
                DatabaseError::ClientNotFound,
            ) && final(self).db() == old(self).db()),
    ;

    /// The most recently appended or updated bill, if any.
    fn last_bill(&self, client_id: u64) -> (r: DbResult<Option<Bill>>)
        ensures
            !self.db().contains_key(client_id) ==> r matches Err(DatabaseError::ClientNotFound),
            self.db().contains_key(client_id) && self.db()[client_id].bills.len() == 0 ==> (r
                matches Ok(b) && b is None),
            self.db().contains_key(client_id) && self.db()[client_id].bills.len() > 0 ==> (r
                matches Ok(b) && b == Some(self.db()[client_id].bills.last())),
    ;

    /// The most recently appended reading, if any.
    fn last_reading(&self, client_id: u64) -> (r: DbResult<Option<Reading>>)
        ensures
            !self.db().contains_key(client_id) ==> r matches Err(DatabaseError::ClientNotFound),
            self.db().contains_key(client_id) && self.db()[client_id].readings.len() == 0 ==> (r
                matches Ok(x) && x is None),
            self.db().contains_key(client_id) && self.db()[client_id].readings.len() > 0 ==> (r
                matches Ok(x) && x == Some(self.db()[client_id].readings.last())),
    ;

    /// Overwrite the most recently appended bill in place.
    fn update_last_bill(&mut self, client_id: u64, bill: Bill) -> (r: DbResult<()>)
        ensures
            !old(self).db().contains_key(client_id) ==> (r matches Err(
                DatabaseError::ClientNotFound,
            ) && final(self).db() == old(self).db()),
            old(self).db().contains_key(client_id) && old(self).db()[client_id].bills.len() == 0
                ==> (r matches Err(DatabaseError::BillNotFound) && final(self).db() == old(
                self,
            ).db()),
            old(self).db().contains_key(client_id) && old(self).db()[client_id].bills.len() > 0
                ==> r is Ok && final(self).db() == old(self).db().insert(
                client_id,
                ClientView {
                    bills: old(self).db()[client_id].bills.update(
                        old(self).db()[client_id].bills.len() - 1,
                        bill,
                    ),
                    ..old(self).db()[client_id]
                },
            ),
    ;

    /// The stored credential token of the client, `Ok(None)` when the id is
    /// unknown.
    fn client_exists(&self, client_id: u64) -> (r: DbResult<Option<String>>)
        ensures
            self.db().contains_key(client_id) ==> (r matches Ok(t) && t matches Some(tok) && tok@
                == self.db()[client_id].token),
            !self.db().contains_key(client_id) ==> (r matches Ok(t) && t is None),
    ;
}

} // verus!
