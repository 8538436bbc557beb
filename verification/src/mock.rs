//! In-memory reference implementation of the database port: a hash map from
//! client id to the stored record. It realizes every contract of
//! `DatabaseInterface`; a persistent implementation would stand behind the
//! same contracts.

use vstd::prelude::*;

use std::collections::HashMap;

use crate::Client;
use crate::ClientView;
use crate::DatabaseError;
use crate::DatabaseInterface;
use crate::DbResult;
use crate::Reading;
use crate::Bill;

verus! {

broadcast use vstd::std_specs::hash::group_hash_axioms;

pub struct MockDatabase {
    clients: HashMap<u64, Client>,
}

impl MockDatabase {
    pub fn new() -> (r: Self)
        ensures
            r.db() == Map::<u64, ClientView>::empty(),
    {
        let r = MockDatabase { clients: HashMap::new() };
        proof {
            assert(r.db() =~= Map::<u64, ClientView>::empty());
        }
        r
    }
}

impl DatabaseInterface for MockDatabase {
    closed spec fn db(&self) -> Map<u64, ClientView> {
        Map::new(|k: u64| self.clients@.contains_key(k), |k: u64| self.clients@[k]@)
    }

    fn add_client(&mut self, client_id: u64, client: Client) -> (r: DbResult<()>) {
        if self.clients.contains_key(&client_id) {
            return Err(DatabaseError::DataConflict);
        }
        let ghost cv = client@;
        self.clients.insert(client_id, client);
        proof {
            assert(self.db() =~= old(self).db().insert(client_id, cv));
        }
        Ok(())
    }

    fn remove_client(&mut self, client_id: u64) -> (r: DbResult<()>) {
        match self.clients.remove(&client_id) {
            Some(_) => {
                proof {
                    assert(self.db() =~= old(self).db().remove(client_id));
                }
                Ok(())
            },
            None => Err(DatabaseError::ClientNotFound),
        }
    }

    fn add_reading(&mut self, client_id: u64, reading: Reading) -> (r: DbResult<()>) {
        match self.clients.remove(&client_id) {
            Some(mut c) => {
                c.readings.push(reading);
                let ghost cv = c@;
                self.clients.insert(client_id, c);
                proof {
                    assert(self.db() =~= old(self).db().insert(
                        client_id,
                        ClientView {
                            readings: old(self).db()[client_id].readings.push(reading),
                            ..old(self).db()[client_id]
                        },
                    ));
                }
                Ok(())
            },
            None => Err(DatabaseError::ClientNotFound),
        }
    }

    fn add_bill(&mut self, client_id: u64, bill: Bill) -> (r: DbResult<()>) {
        match self.clients.remove(&client_id) {
            Some(mut c) => {
                c.bills.push(bill);
                let ghost cv = c@;
                self.clients.insert(client_id, c);
                proof {
                    assert(self.db() =~= old(self).db().insert(
                        client_id,
                        ClientView {
                            bills: old(self).db()[client_id].bills.push(bill),
                            ..old(self).db()[client_id]
                        },
                    ));
                }
                Ok(())
            },
            None => Err(DatabaseError::ClientNotFound),
        }
    }

    fn last_bill(&self, client_id: u64) -> (r: DbResult<Option<Bill>>) {
        match self.clients.get(&client_id) {
            Some(c) => {
                if c.bills.len() == 0 {
                    Ok(None)
                } else {
                    Ok(Some(c.bills[c.bills.len() - 1]))
                }
            },
            None => Err(DatabaseError::ClientNotFound),
        }
    }

    fn last_reading(&self, client_id: u64) -> (r: DbResult<Option<Reading>>) {
        match self.clients.get(&client_id) {
            Some(c) => {
                if c.readings.len() == 0 {
                    Ok(None)
                } else {
                    Ok(Some(c.readings[c.readings.len() - 1]))
                }
            },
            None => Err(DatabaseError::ClientNotFound),
        }
    }

    fn update_last_bill(&mut self, client_id: u64, bill: Bill) -> (r: DbResult<()>) {
        let has_bills: bool = match self.clients.get(&client_id) {
            Some(c) => c.bills.len() > 0,
            None => {
                return Err(DatabaseError::ClientNotFound);
            },
        };
        if !has_bills {
            return Err(DatabaseError::BillNotFound);
        }
        match self.clients.remove(&client_id) {
            Some(mut c) => {
                c.bills.pop();
                c.bills.push(bill);
                let ghost cv = c@;
                self.clients.insert(client_id, c);
                proof {
                    let ghost prior = old(self).db()[client_id].bills;
                    assert(cv.bills =~= prior.update(prior.len() - 1, bill));
                    assert(self.db() =~= old(self).db().insert(
                        client_id,
                        ClientView { bills: prior.update(prior.len() - 1, bill), ..old(
                            self,
                        ).db()[client_id] },
                    ));
                }
                Ok(())
            },
            None => Err(DatabaseError::ClientNotFound),
        }
    }

    fn client_exists(&self, client_id: u64) -> (r: DbResult<Option<String>>) {
        match self.clients.get(&client_id) {
            Some(c) => Ok(Some(c.token.clone())),
            None => Ok(None),
        }
    }
}

} // verus!
