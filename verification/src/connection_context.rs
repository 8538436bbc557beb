//! The per-session billing aggregator. It accepts cumulative readings,
//! maintains the bill of the current billing period in memory, persists at
//! hour boundaries, rolls the bill over when a reading falls outside the
//! period, and flushes the last in-hour reading on graceful shutdown.
//!
//! Each operation is specified as a pure transition on the pair of aggregator
//! state and database content; the laws at the end of the module are proved
//! over those transitions.

use vstd::prelude::*;

use crate::calendar::Date;
use crate::calendar::date_lt;
use crate::calendar::day_number;
use crate::calendar::lemma_day_number_bounds;
use crate::calendar::same_hour;
use crate::calendar::spec_next_month;
use crate::Bill;
use crate::BillingPeriod;
use crate::ClientView;
use crate::DatabaseError;
use crate::DatabaseInterface;
use crate::DbResult;
use crate::Reading;

verus! {

/// Aggregator state for one authenticated session. `flushed` records whether
/// the current reading has been persisted by an hour-boundary write; the
/// session's teardown flush is a no-op while it holds.
pub struct ConnectionContext {
    pub client_id: u64,
    pub current_reading: Reading,
    pub current_bill: Bill,
    pub daily_standing_charge: u32,
    pub price_per_unit: u32,
    pub flushed: bool,
}

/// The current bill with a further reading of the same period folded in:
/// usage is counted from the period's opening units at the context's price,
/// and the standing charge covers the days since the period start, the first
/// day counting as one.
pub open spec fn spec_update_bill(
    bill: Bill,
    r: Reading,
    price_per_unit: u32,
    daily_standing_charge: u32,
) -> Bill {
    let usage = (r.reading - bill.units_start) * price_per_unit;
    let days_elapsed = day_number(r.time.date) - day_number(bill.billing_period.start) + 1;
    let standing = days_elapsed * daily_standing_charge;
    Bill {
        units_end: r.reading,
        actual_usage: usage as i128,
        standing_charge: standing as i128,
        total: (usage + standing) as i128,
        ..bill
    }
}

/// The fresh bill opened by a reading that falls outside the current period:
/// the whole reading priced as usage, one day of standing charge, and a new
/// one-month period starting on the reading's date.
pub open spec fn spec_new_bill(r: Reading, price_per_unit: u32, daily_standing_charge: u32) -> Bill
    recommends
        spec_next_month(r.time.date) is Some,
{
    let usage = r.reading * price_per_unit;
    Bill {
        actual_usage: usage as i128,
        standing_charge: daily_standing_charge as i128,
        total: (usage + daily_standing_charge) as i128,
        units_start: r.reading,
        units_end: r.reading,
        price_per_unit,
        daily_standing_charge,
        billing_period: BillingPeriod {
            start: r.time.date,
            end: spec_next_month(r.time.date).unwrap(),
        },
    }
}

/// A reading starts a new billing period when its date is on or past the
/// period's end date.
pub open spec fn starts_new_period(bill: Bill, r: Reading) -> bool {
    !date_lt(r.time.date, bill.billing_period.end)
}

/// The bill-update-or-rollover step, taken after the reading itself has been
/// persisted: inside the period the last stored bill is overwritten with the
/// recomputed one; outside it a fresh bill is appended. When the store holds
/// no bill to overwrite, the step fails and the aggregator state is left
/// as-is.
pub open spec fn spec_update_or_create(
    pre: ConnectionContext,
    db: Map<u64, ClientView>,
    r: Reading,
) -> (ConnectionContext, Map<u64, ClientView>, DbResult<()>)
    recommends
        db.contains_key(pre.client_id),
{
    if !starts_new_period(pre.current_bill, r) {
        let nb = spec_update_bill(pre.current_bill, r, pre.price_per_unit, pre.daily_standing_charge);
        if db[pre.client_id].bills.len() == 0 {
            (pre, db, Err(DatabaseError::BillNotFound))
        } else {
            (
                ConnectionContext { current_bill: nb, ..pre },
                db.insert(
                    pre.client_id,
                    ClientView {
                        bills: db[pre.client_id].bills.update(
                            db[pre.client_id].bills.len() - 1,
                            nb,
                        ),
                        ..db[pre.client_id]
                    },
                ),
                Ok(()),
            )
        }
    } else {
        let nb = spec_new_bill(r, pre.price_per_unit, pre.daily_standing_charge);
        (
            ConnectionContext { current_bill: nb, ..pre },
            db.insert(
                pre.client_id,
                ClientView { bills: db[pre.client_id].bills.push(nb), ..db[pre.client_id] },
            ),
            Ok(()),
        )
    }
}

/// The full `add_reading` transition. A reading below the current one is
/// rejected outright. A reading in the same hour bucket only recomputes the
/// in-memory bill and marks the state dirty. A reading across an hour
/// boundary is persisted and the bill updated or rolled over; a database
/// failure on that path returns the error and leaves the aggregator state
/// as-is — the reading already persisted stays in the store.
pub open spec fn spec_add_reading(
    pre: ConnectionContext,
    db: Map<u64, ClientView>,
    r: Reading,
) -> (ConnectionContext, Map<u64, ClientView>, DbResult<()>) {
    if pre.current_reading.reading > r.reading {
        (pre, db, Err(DatabaseError::InvalidReading))
    } else if !same_hour(pre.current_reading.time, r.time) {
        if !db.contains_key(pre.client_id) {
            (pre, db, Err(DatabaseError::ClientNotFound))
        } else {
            let db1 = db.insert(
                pre.client_id,
                ClientView { readings: db[pre.client_id].readings.push(r), ..db[pre.client_id] },
            );
            let (c1, d1, res) = spec_update_or_create(pre, db1, r);
            if res is Ok {
                (ConnectionContext { current_reading: r, flushed: true, ..c1 }, d1, Ok(()))
            } else {
                (c1, d1, res)
            }
        }
    } else {
        (
            ConnectionContext {
                current_bill: spec_update_bill(
                    pre.current_bill,
                    r,
                    pre.price_per_unit,
                    pre.daily_standing_charge,
                ),
                current_reading: r,
                flushed: false,
                ..pre
            },
            db,
            Ok(()),
        )
    }
}

/// The `flush` transition: a no-op when the current reading is already
/// persisted, otherwise the hour-boundary persistence applied to the current
/// reading itself.
pub open spec fn spec_flush(pre: ConnectionContext, db: Map<u64, ClientView>) -> (
    ConnectionContext,
    Map<u64, ClientView>,
    DbResult<()>,
) {
    if pre.flushed {
        (pre, db, Ok(()))
    } else if !db.contains_key(pre.client_id) {
        (pre, db, Err(DatabaseError::ClientNotFound))
    } else {
        let r = pre.current_reading;
        let db1 = db.insert(
            pre.client_id,
            ClientView { readings: db[pre.client_id].readings.push(r), ..db[pre.client_id] },
        );
        let (c1, d1, res) = spec_update_or_create(pre, db1, r);
        if res is Ok {
            (ConnectionContext { flushed: true, ..c1 }, d1, Ok(()))
        } else {
            (c1, d1, res)
        }
    }
}

/// The construction of an aggregator from the client's stored histories: the
/// most recent reading and bill become the running state.
pub open spec fn spec_new_context(
    client_id: u64,
    price_per_unit: u32,
    daily_standing_charge: u32,
    db: Map<u64, ClientView>,
) -> Result<ConnectionContext, DatabaseError> {
    if !db.contains_key(client_id) {
        Err(DatabaseError::ClientNotFound)
    } else if db[client_id].readings.len() == 0 {
        Err(DatabaseError::MissingReading)
    } else if db[client_id].bills.len() == 0 {
        Err(DatabaseError::BillNotFound)
    } else {
        Ok(
            ConnectionContext {
                client_id,
                current_reading: db[client_id].readings.last(),
                current_bill: db[client_id].bills.last(),
                daily_standing_charge,
                price_per_unit,
                flushed: false,
            },
        )
    }
}

impl ConnectionContext {
    pub fn new<D: DatabaseInterface>(
        client_id: u64,
        price_per_unit: u32,
        daily_standing_charge: u32,
        database: &D,
    ) -> (r: Result<ConnectionContext, DatabaseError>)
        ensures
            r == spec_new_context(client_id, price_per_unit, daily_standing_charge, database.db()),
    {
        let last_reading: Reading = match database.last_reading(client_id) {
            Ok(Some(x)) => x,
            Ok(None) => {
                return Err(DatabaseError::MissingReading);
            },
            Err(e) => {
                return Err(e);
            },
        };
        let last_bill: Bill = match database.last_bill(client_id) {
            Ok(Some(b)) => b,
            Ok(None) => {
                return Err(DatabaseError::BillNotFound);
            },
            Err(e) => {
                return Err(e);
            },
        };
        Ok(
            ConnectionContext {
                client_id,
                current_reading: last_reading,
                current_bill: last_bill,
                daily_standing_charge,
                price_per_unit,
                flushed: false,
            },
        )
    }

    fn updated_bill(&self, reading: &Reading) -> (r: Bill)
        ensures
            r == spec_update_bill(
                self.current_bill,
                *reading,
                self.price_per_unit,
                self.daily_standing_charge,
            ),
    {
        let units_end: u64 = reading.reading;
        let diff: i128 = units_end as i128 - self.current_bill.units_start as i128;
        proof {
            assert(diff * self.price_per_unit < 0x10000000000000000 * 0x100000000 && diff
                * self.price_per_unit > -0x10000000000000000 * 0x100000000) by (nonlinear_arith)
                requires
                    -0x10000000000000000 < diff < 0x10000000000000000,
                    0 <= self.price_per_unit < 0x100000000,
            ;
        }
        let usage: i128 = diff * self.price_per_unit as i128;
        let days: i64 = crate::calendar::days_between(
            &self.current_bill.billing_period.start,
            &reading.time.date,
        ) + 1;
        proof {
            assert(days * self.daily_standing_charge < 0x80000000000 * 0x100000000 && days
                * self.daily_standing_charge > -0x80000000000 * 0x100000000) by (nonlinear_arith)
                requires
                    -0x80000000000 < days < 0x80000000000,
                    0 <= self.daily_standing_charge < 0x100000000,
            ;
        }
        let standing: i128 = days as i128 * self.daily_standing_charge as i128;
        Bill {
            units_end,
            actual_usage: usage,
            standing_charge: standing,
            total: usage + standing,
            ..self.current_bill
        }
    }

    fn create_new_bill(&self, reading: Reading) -> (r: Bill)
        requires
            spec_next_month(reading.time.date) is Some,
        ensures
            r == spec_new_bill(reading, self.price_per_unit, self.daily_standing_charge),
    {
        let end: Date = match crate::calendar::next_month(&reading.time.date) {
            Some(d) => d,
            None => Date { year: 0, month: 0, day: 0 },
        };
        proof {
            assert(reading.reading * self.price_per_unit < 0x10000000000000000 * 0x100000000)
                by (nonlinear_arith)
                requires
                    reading.reading < 0x10000000000000000,
                    self.price_per_unit < 0x100000000,
            ;
        }
        let usage: i128 = reading.reading as i128 * self.price_per_unit as i128;
        Bill {
            actual_usage: usage,
            standing_charge: self.daily_standing_charge as i128,
            total: usage + self.daily_standing_charge as i128,
            units_start: reading.reading,
            units_end: reading.reading,
            price_per_unit: self.price_per_unit,
            daily_standing_charge: self.daily_standing_charge,
            billing_period: BillingPeriod { start: reading.time.date, end },
        }
    }

    fn update_or_create_bill<D: DatabaseInterface>(
        &mut self,
        database: &mut D,
        reading: &Reading,
    ) -> (r: DbResult<()>)
        requires
            old(database).db().contains_key(old(self).client_id),
            spec_next_month(reading.time.date) is Some,
        ensures
            ({
                let (c1, d1, res) = spec_update_or_create(
                    *old(self),
                    old(database).db(),
                    *reading,
                );
                *final(self) == c1 && final(database).db() == d1 && r == res
            }),
    {
        if crate::calendar::date_before(&reading.time.date, &self.current_bill.billing_period.end) {
            let updated: Bill = self.updated_bill(reading);
            match database.update_last_bill(self.client_id, updated) {
                Ok(_) => {
                    self.current_bill = updated;
                    Ok(())
                },
                Err(e) => Err(e),
            }
        } else {
            let new_bill: Bill = self.create_new_bill(*reading);
            match database.add_bill(self.client_id, new_bill) {
                Ok(_) => {
                    self.current_bill = new_bill;
                    Ok(())
                },
                Err(e) => Err(e),
            }
        }
    }

    /// Accept one reading; see `spec_add_reading` for the full effect.
    pub fn add_reading<D: DatabaseInterface>(&mut self, database: &mut D, reading: Reading) -> (r:
        DbResult<()>)
        requires
            spec_next_month(reading.time.date) is Some,
        ensures
            ({
                let (c1, d1, res) = spec_add_reading(*old(self), old(database).db(), reading);
                *final(self) == c1 && final(database).db() == d1 && r == res
            }),
    {
        if self.current_reading.reading > reading.reading {
            return Err(DatabaseError::InvalidReading);
        }
        if crate::calendar::crosses_hour_boundary(&self.current_reading.time, &reading.time) {
            match database.add_reading(self.client_id, reading) {
                Ok(_) => {},
                Err(e) => {
                    return Err(e);
                },
            }
            match self.update_or_create_bill(database, &reading) {
                Ok(_) => {},
                Err(e) => {
                    return Err(e);
                },
            }
            self.flushed = true;
            self.current_reading = reading;
            Ok(())
        } else {
            self.flushed = false;
            self.current_bill = self.updated_bill(&reading);
            self.current_reading = reading;
            Ok(())
        }
    }

    /// Persist the last in-hour reading on graceful shutdown; see
    /// `spec_flush`.
    pub fn flush<D: DatabaseInterface>(&mut self, database: &mut D) -> (r: DbResult<()>)
        requires
            spec_next_month(old(self).current_reading.time.date) is Some,
        ensures
            ({
                let (c1, d1, res) = spec_flush(*old(self), old(database).db());
                *final(self) == c1 && final(database).db() == d1 && r == res
            }),
    {
        if self.flushed {
            return Ok(());
        }
        match database.add_reading(self.client_id, self.current_reading) {
            Ok(_) => {},
            Err(e) => {
                return Err(e);
            },
        }
        let current: Reading = self.current_reading;
        match self.update_or_create_bill(database, &current) {
            Ok(_) => {},
            Err(e) => {
                return Err(e);
            },
        }
        self.flushed = true;
        Ok(())
    }

    pub fn current_reading(&self) -> (r: Reading)
        ensures
            r == self.current_reading,
    {
        self.current_reading
    }

    pub fn current_bill(&self) -> (r: Bill)
        ensures
            r == self.current_bill,
    {
        self.current_bill
    }
}

/// One aggregator step never decreases the current reading, and an accepted
/// step carries exactly the submitted reading into the state.
pub proof fn lemma_reading_monotone(pre: ConnectionContext, db: Map<u64, ClientView>, r: Reading)
    ensures
        spec_add_reading(pre, db, r).0.current_reading.reading >= pre.current_reading.reading,
        spec_add_reading(pre, db, r).2 is Ok ==> spec_add_reading(pre, db, r).0.current_reading
            == r,
{
}

/// The aggregator state and database content after a whole run of
/// `add_reading` steps, applied in order.
pub open spec fn spec_run_readings(
    pre: ConnectionContext,
    db: Map<u64, ClientView>,
    rs: Seq<Reading>,
) -> (ConnectionContext, Map<u64, ClientView>)
    decreases rs.len(),
{
    if rs.len() == 0 {
        (pre, db)
    } else {
        let (c1, d1, res) = spec_add_reading(pre, db, rs[0]);
        spec_run_readings(c1, d1, rs.drop_first())
    }
}

/// A whole run of steps never decreases the current reading.
pub proof fn lemma_run_monotone(
    pre: ConnectionContext,
    db: Map<u64, ClientView>,
    rs: Seq<Reading>,
)
    ensures
        spec_run_readings(pre, db, rs).0.current_reading.reading
            >= pre.current_reading.reading,
    decreases rs.len(),
{
    if rs.len() > 0 {
        let (c1, d1, res) = spec_add_reading(pre, db, rs[0]);
        lemma_reading_monotone(pre, db, rs[0]);
        lemma_run_monotone(c1, d1, rs.drop_first());
    }
}

/// Monotonicity: after any run of `add_reading` steps, the current reading is
/// at least every reading that some step of the run accepted.
pub proof fn lemma_history_monotone(
    pre: ConnectionContext,
    db: Map<u64, ClientView>,
    rs: Seq<Reading>,
    i: int,
)
    requires
        0 <= i < rs.len(),
        ({
            let (ci, di) = spec_run_readings(pre, db, rs.take(i));
            spec_add_reading(ci, di, rs[i]).2 is Ok
        }),
    ensures
        spec_run_readings(pre, db, rs).0.current_reading.reading >= rs[i].reading,
    decreases i,
{
    let (c1, d1, res) = spec_add_reading(pre, db, rs[0]);
    if i == 0 {
        assert(rs.take(0).len() == 0);
        lemma_reading_monotone(pre, db, rs[0]);
        lemma_run_monotone(c1, d1, rs.drop_first());
    } else {
        assert(rs.take(i)[0] == rs[0]);
        assert(rs.take(i).drop_first() =~= rs.drop_first().take(i - 1));
        assert(rs.drop_first()[i - 1] == rs[i]);
        lemma_history_monotone(c1, d1, rs.drop_first(), i - 1);
    }
}

/// Bill arithmetic: a bill recomputed inside the current period satisfies
/// `total == (units_end - units_start) * price_per_unit
///     + days_elapsed * daily_standing_charge`,
/// with `days_elapsed` counted inclusively from the period start. (A bill
/// freshly opened by a rollover instead prices the whole opening reading as
/// usage, so this identity is stated of the in-period update only.)
pub proof fn lemma_bill_arithmetic(
    bill: Bill,
    r: Reading,
    price_per_unit: u32,
    daily_standing_charge: u32,
)
    ensures
        ({
            let nb = spec_update_bill(bill, r, price_per_unit, daily_standing_charge);
            let days_elapsed = day_number(r.time.date) - day_number(bill.billing_period.start)
                + 1;
            nb.total == (nb.units_end - nb.units_start) * price_per_unit + days_elapsed
                * daily_standing_charge
        }),
{
    lemma_day_number_bounds(r.time.date);
    lemma_day_number_bounds(bill.billing_period.start);
    let usage = (r.reading - bill.units_start) * price_per_unit;
    let days_elapsed = day_number(r.time.date) - day_number(bill.billing_period.start) + 1;
    let standing = days_elapsed * daily_standing_charge;
    assert(-0x10000000000000000 * 0x100000000 < usage < 0x10000000000000000 * 0x100000000)
        by (nonlinear_arith)
        requires
            -0x10000000000000000 < r.reading - bill.units_start < 0x10000000000000000,
            0 <= price_per_unit < 0x100000000,
            usage == (r.reading - bill.units_start) * price_per_unit,
    ;
    assert(-0x80000000000 * 0x100000000 < standing < 0x80000000000 * 0x100000000)
        by (nonlinear_arith)
        requires
            -0x80000000000 < days_elapsed < 0x80000000000,
            0 <= daily_standing_charge < 0x100000000,
            standing == days_elapsed * daily_standing_charge,
    ;
}

/// Rollover: an accepted reading on or past the period's end appends exactly
/// one fresh bill for the new period and leaves every previously stored bill
/// unchanged in place.
pub proof fn lemma_rollover_appends(pre: ConnectionContext, db: Map<u64, ClientView>, r: Reading)
    requires
        db.contains_key(pre.client_id),
        r.reading >= pre.current_reading.reading,
        !same_hour(pre.current_reading.time, r.time),
        starts_new_period(pre.current_bill, r),
    ensures
        ({
            let (c1, d1, res) = spec_add_reading(pre, db, r);
            let nb = spec_new_bill(r, pre.price_per_unit, pre.daily_standing_charge);
            &&& res is Ok
            &&& c1.current_bill == nb
            &&& d1.contains_key(pre.client_id)
            &&& d1[pre.client_id].bills == db[pre.client_id].bills.push(nb)
            &&& forall|i: int|
                0 <= i < db[pre.client_id].bills.len() ==> d1[pre.client_id].bills[i]
                    == db[pre.client_id].bills[i]
        }),
{
}

/// Flush idempotence: after a successful flush, a second flush with no
/// intervening `add_reading` changes neither the aggregator state nor the
/// database — in particular it appends no further reading.
pub proof fn lemma_flush_idempotent(pre: ConnectionContext, db: Map<u64, ClientView>)
    ensures
        ({
            let (c1, d1, res) = spec_flush(pre, db);
            res is Ok ==> spec_flush(c1, d1) == (c1, d1, Ok::<(), DatabaseError>(()))
        }),
{
}

/// Hour-boundary flushing: a reading that stays within the current hour
/// bucket, or is rejected as non-monotone, performs no database write at all.
pub proof fn lemma_same_hour_no_persist(
    pre: ConnectionContext,
    db: Map<u64, ClientView>,
    r: Reading,
)
    requires
        same_hour(pre.current_reading.time, r.time) || r.reading
            < pre.current_reading.reading,
    ensures
        spec_add_reading(pre, db, r).1 == db,
{
}

} // verus!
