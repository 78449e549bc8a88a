//! The repository: every domain operation borrows one connection from the
//! pool for its duration, performs one parameterized operation against the
//! store, and releases the connection on every exit path.

use vstd::prelude::*;
use crate::errors::DataError;
use crate::idgen::{fresh_hex_id, is_lower_hex_string};
use crate::models::{plan_with_new_id, FlightPlan, User, UserV};
use crate::pool::Pool;
use crate::store::{
    has_api_key, has_plan_id, has_username, lemma_push_plan_preserves_wf,
    lemma_push_user_preserves_wf, lemma_remove_plan_preserves_wf,
    lemma_update_plan_preserves_wf, plan_with_id, user_with_key, Store,
};

verus! {

/// The connection pool and the store it guards, as one injected unit.
pub struct Repository {
    pub pool: Pool,
    pub store: Store,
}

impl Repository {
    /// The pool counts are within bound and the store tables satisfy their
    /// invariants.
    pub open spec fn wf(&self) -> bool {
        self.pool.wf() && self.store.wf()
    }

    /// Every connection is checked out: the next checkout fails fast.
    pub open spec fn pool_full(&self) -> bool {
        self.pool.in_use == self.pool.max_connections
    }

    /// A repository over a fresh pool and an empty store.
    pub fn new(pool: Pool) -> (r: Repository)
        requires
            pool.wf(),
        ensures
            r.wf(),
            r.pool == pool,
            r.store@.users == Seq::<crate::models::UserV>::empty(),
            r.store@.plans == Seq::<crate::models::FlightPlanV>::empty(),
    {
        Repository { pool, store: Store::new() }
    }

    /// Create a user under a caller-supplied key. The key of record is
    /// normally drawn by `create_user`; taking it as an argument pins down
    /// the outcome for every possible draw.
    pub fn create_user_with_key(&mut self, user: User, key: String) -> (r: Result<
        String,
        DataError,
    >)
        requires
            old(self).wf(),
        ensures
            final(self).wf(),
            Pool::same_config(old(self).pool, final(self).pool),
            final(self).store@.plans == old(self).store@.plans,
            ({
                let invalid = user.username@.len() == 0 || key@.len() == 0;
                let taken = has_username(old(self).store@.users, user.username@)
                    || has_api_key(old(self).store@.users, key@);
                if invalid {
                    &&& r == Err::<String, DataError>(DataError::ValidationFailed)
                    &&& *final(self) == *old(self)
                } else if old(self).pool_full() {
                    &&& r == Err::<String, DataError>(DataError::PoolExhausted)
                    &&& *final(self) == *old(self)
                } else if taken {
                    &&& r == Err::<String, DataError>(DataError::Conflict)
                    &&& final(self).store == old(self).store
                    &&& Pool::round_trip(old(self).pool, final(self).pool)
                } else {
                    &&& r matches Ok(k) && k@ == key@
                    &&& final(self).store@.users == old(self).store@.users.push(
                        UserV {
                            username: user.username@,
                            fullname: user.fullname@,
                            api_key: key@,
                        },
                    )
                    &&& Pool::round_trip(old(self).pool, final(self).pool)
                }
            }),
    {
        if user.username.as_str().is_empty() || key.as_str().is_empty() {
            return Err(DataError::ValidationFailed);
        }
        let conn = match self.pool.acquire() {
            Ok(c) => c,
            Err(e) => {
                return Err(e);
            },
        };
        match self.store.find_user_by_username(&user.username) {
            Some(_i) => {
                self.pool.release(conn);
                return Err(DataError::Conflict);
            },
            None => {},
        }
        match self.store.find_user_by_key(&key) {
            Some(_i) => {
                self.pool.release(conn);
                return Err(DataError::Conflict);
            },
            None => {},
        }
        let stored = User {
            username: user.username,
            fullname: user.fullname,
            api_key: key.clone(),
        };
        let ghost stored_v = stored@;
        let ghost users0 = self.store@.users;
        self.store.users.push(stored);
        proof {
            assert(self.store@.users =~= users0.push(stored_v));
            assert(self.store@.plans =~= old(self).store@.plans);
            lemma_push_user_preserves_wf(users0, stored_v);
        }
        self.pool.release(conn);
        Ok(key)
    }

    /// Create a user: the server draws a fresh API key, stores the record
    /// under it and returns the key. Fails with `Conflict` when the
    /// username is already taken, with `ValidationFailed` when it is empty.
    pub fn create_user(&mut self, user: User) -> (r: Result<String, DataError>)
        requires
            old(self).wf(),
        ensures
            final(self).wf(),
            Pool::same_config(old(self).pool, final(self).pool),
            final(self).store@.plans == old(self).store@.plans,
            (user.username@.len() == 0) <==> r == Err::<String, DataError>(
                DataError::ValidationFailed,
            ),
            (user.username@.len() > 0 && old(self).pool_full()) <==> r == Err::<
                String,
                DataError,
            >(DataError::PoolExhausted),
            (r == Err::<String, DataError>(DataError::ValidationFailed) || r == Err::<
                String,
                DataError,
            >(DataError::PoolExhausted)) ==> *final(self) == *old(self),
            r matches Err(e) ==> (e == DataError::ValidationFailed || e == DataError::PoolExhausted
                || e == DataError::Conflict),
            (r matches Err(e) && e == DataError::Conflict) ==> {
                &&& final(self).store == old(self).store
                &&& Pool::round_trip(old(self).pool, final(self).pool)
                &&& old(self).store@.users.len() > 0
            },
            (user.username@.len() > 0 && !old(self).pool_full() && has_username(
                old(self).store@.users,
                user.username@,
            )) ==> r == Err::<String, DataError>(DataError::Conflict),
            r matches Ok(k) ==> {
                &&& k@.len() == 32
                &&& is_lower_hex_string(k@)
                &&& !has_username(old(self).store@.users, user.username@)
                &&& !has_api_key(old(self).store@.users, k@)
                &&& final(self).store@.users == old(self).store@.users.push(
                    UserV {
                        username: user.username@,
                        fullname: user.fullname@,
                        api_key: k@,
                    },
                )
                &&& Pool::round_trip(old(self).pool, final(self).pool)
            },
    {
        let key = fresh_hex_id();
        self.create_user_with_key(user, key)
    }

    /// Look the unique user up whose API key equals `key`. A key that no
    /// row carries yields `Ok(None)` — never a fault — for every input,
    /// the empty string included.
    pub fn get_user(&mut self, key: &String) -> (r: Result<Option<User>, DataError>)
        requires
            old(self).wf(),
        ensures
            final(self).wf(),
            final(self).store == old(self).store,
            Pool::same_config(old(self).pool, final(self).pool),
            ({
                if old(self).pool_full() {
                    &&& r == Err::<Option<User>, DataError>(DataError::PoolExhausted)
                    &&& final(self).pool == old(self).pool
                } else {
                    &&& Pool::round_trip(old(self).pool, final(self).pool)
                    &&& if has_api_key(old(self).store@.users, key@) {
                        r matches Ok(u) && u matches Some(u) && user_with_key(
                            old(self).store@.users,
                            key@,
                            u@,
                        )
                    } else {
                        r == Ok::<Option<User>, DataError>(None)
                    }
                }
            }),
    {
        let conn = match self.pool.acquire() {
            Ok(c) => c,
            Err(e) => {
                return Err(e);
            },
        };
        let r = match self.store.find_user_by_key(key) {
            Some(i) => {
                let u = self.store.users[i].duplicate();
                proof {
                    assert(old(self).store@.users[i as int] == u@);
                }
                Some(u)
            },
            None => None,
        };
        self.pool.release(conn);
        Ok(r)
    }

    /// Return every flight plan on record; repeated calls re-fetch the full
    /// set.
    pub fn get_all_flight_plans(&mut self) -> (r: Result<Vec<FlightPlan>, DataError>)
        requires
            old(self).wf(),
        ensures
            final(self).wf(),
            final(self).store == old(self).store,
            Pool::same_config(old(self).pool, final(self).pool),
            old(self).pool_full() ==> {
                &&& r == Err::<Vec<FlightPlan>, DataError>(DataError::PoolExhausted)
                &&& final(self).pool == old(self).pool
            },
            !old(self).pool_full() ==> {
                &&& Pool::round_trip(old(self).pool, final(self).pool)
                &&& r matches Ok(v) && v@.len() == old(self).store@.plans.len()
                &&& r matches Ok(v) ==> forall|i: int|
                    0 <= i < v@.len() ==> (#[trigger] v@[i])@ == old(self).store@.plans[i]
            },
    {
        let conn = match self.pool.acquire() {
            Ok(c) => c,
            Err(e) => {
                return Err(e);
            },
        };
        let v = self.store.snapshot_plans();
        self.pool.release(conn);
        Ok(v)
    }

    /// Look one flight plan up by its identifier; `Ok(None)` when no row
    /// matches.
    pub fn get_flight_plan_by_id(&mut self, plan_id: &String) -> (r: Result<
        Option<FlightPlan>,
        DataError,
    >)
        requires
            old(self).wf(),
        ensures
            final(self).wf(),
            final(self).store == old(self).store,
            Pool::same_config(old(self).pool, final(self).pool),
            ({
                if old(self).pool_full() {
                    &&& r == Err::<Option<FlightPlan>, DataError>(DataError::PoolExhausted)
                    &&& final(self).pool == old(self).pool
                } else {
                    &&& Pool::round_trip(old(self).pool, final(self).pool)
                    &&& if has_plan_id(old(self).store@.plans, plan_id@) {
                        r matches Ok(p) && p matches Some(p) && plan_with_id(
                            old(self).store@.plans,
                            plan_id@,
                            p@,
                        )
                    } else {
                        r == Ok::<Option<FlightPlan>, DataError>(None)
                    }
                }
            }),
    {
        let conn = match self.pool.acquire() {
            Ok(c) => c,
            Err(e) => {
                return Err(e);
            },
        };
        let r = match self.store.find_plan_by_id(plan_id) {
            Some(i) => {
                let p = self.store.plans[i].duplicate();
                proof {
                    assert(old(self).store@.plans[i as int] == p@);
                }
                Some(p)
            },
            None => None,
        };
        self.pool.release(conn);
        Ok(r)
    }

    /// Insert a flight plan under a caller-supplied identifier. The
    /// identifier of record is normally drawn by `insert_flight_plan`;
    /// taking it as an argument pins down the outcome for every possible
    /// draw.
    pub fn insert_flight_plan_with_id(&mut self, flight_plan: &FlightPlan, new_id: String) -> (r:
        Result<FlightPlan, DataError>)
        requires
            old(self).wf(),
        ensures
            final(self).wf(),
            Pool::same_config(old(self).pool, final(self).pool),
            final(self).store@.users == old(self).store@.users,
            ({
                if new_id@.len() == 0 {
                    &&& r == Err::<FlightPlan, DataError>(DataError::ValidationFailed)
                    &&& *final(self) == *old(self)
                } else if old(self).pool_full() {
                    &&& r == Err::<FlightPlan, DataError>(DataError::PoolExhausted)
                    &&& *final(self) == *old(self)
                } else if has_plan_id(old(self).store@.plans, new_id@) {
                    &&& r == Err::<FlightPlan, DataError>(DataError::Conflict)
                    &&& final(self).store == old(self).store
                    &&& Pool::round_trip(old(self).pool, final(self).pool)
                } else {
                    &&& r matches Ok(p) && p@ == plan_with_new_id(flight_plan@, new_id@)
                    &&& final(self).store@.plans == old(self).store@.plans.push(
                        plan_with_new_id(flight_plan@, new_id@),
                    )
                    &&& Pool::round_trip(old(self).pool, final(self).pool)
                }
            }),
    {
        if new_id.as_str().is_empty() {
            return Err(DataError::ValidationFailed);
        }
        let conn = match self.pool.acquire() {
            Ok(c) => c,
            Err(e) => {
                return Err(e);
            },
        };
        match self.store.find_plan_by_id(&new_id) {
            Some(_i) => {
                self.pool.release(conn);
                return Err(DataError::Conflict);
            },
            None => {},
        }
        let stored = flight_plan.with_id(new_id);
        let out = stored.duplicate();
        let ghost stored_v = stored@;
        let ghost plans0 = self.store@.plans;
        self.store.plans.push(stored);
        proof {
            assert(self.store@.plans =~= plans0.push(stored_v));
            assert(self.store@.users =~= old(self).store@.users);
            lemma_push_plan_preserves_wf(plans0, stored_v);
        }
        self.pool.release(conn);
        Ok(out)
    }

    /// Create a flight plan: the server draws a fresh identifier —
    /// whatever identifier the caller supplied is overwritten — inserts
    /// the record and returns it, assigned identifier included.
    pub fn insert_flight_plan(&mut self, flight_plan: &FlightPlan) -> (r: Result<
        FlightPlan,
        DataError,
    >)
        requires
            old(self).wf(),
        ensures
            final(self).wf(),
            Pool::same_config(old(self).pool, final(self).pool),
            final(self).store@.users == old(self).store@.users,
            old(self).pool_full() <==> r == Err::<FlightPlan, DataError>(DataError::PoolExhausted),
            r == Err::<FlightPlan, DataError>(DataError::PoolExhausted) ==> *final(self) == *old(
                self,
            ),
            r matches Err(e) ==> (e == DataError::PoolExhausted || e == DataError::Conflict),
            (r matches Err(e) && e == DataError::Conflict) ==> {
                &&& final(self).store == old(self).store
                &&& Pool::round_trip(old(self).pool, final(self).pool)
                &&& old(self).store@.plans.len() > 0
            },
            r matches Ok(p) ==> {
                &&& p@.flight_plan_id.len() == 32
                &&& is_lower_hex_string(p@.flight_plan_id)
                &&& !has_plan_id(old(self).store@.plans, p@.flight_plan_id)
                &&& p@ == plan_with_new_id(flight_plan@, p@.flight_plan_id)
                &&& final(self).store@.plans == old(self).store@.plans.push(p@)
                &&& Pool::round_trip(old(self).pool, final(self).pool)
                &&& !(flight_plan@.flight_plan_id.len() == 32 && is_lower_hex_string(
                    flight_plan@.flight_plan_id,
                )) ==> p@.flight_plan_id != flight_plan@.flight_plan_id
            },
    {
        let new_id = fresh_hex_id();
        self.insert_flight_plan_with_id(flight_plan, new_id)
    }

    /// Overwrite the flight plan whose identifier matches the given
    /// record's identifier. `Ok(true)` iff exactly one row was modified,
    /// `Ok(false)` — with the store untouched — when no row matched.
    pub fn update_flight_plan(&mut self, flight_plan: &FlightPlan) -> (r: Result<bool, DataError>)
        requires
            old(self).wf(),
        ensures
            final(self).wf(),
            Pool::same_config(old(self).pool, final(self).pool),
            final(self).store@.users == old(self).store@.users,
            old(self).pool_full() ==> {
                &&& r == Err::<bool, DataError>(DataError::PoolExhausted)
                &&& *final(self) == *old(self)
            },
            !old(self).pool_full() ==> {
                &&& Pool::round_trip(old(self).pool, final(self).pool)
                &&& if has_plan_id(old(self).store@.plans, flight_plan@.flight_plan_id) {
                    &&& r == Ok::<bool, DataError>(true)
                    &&& exists|i: int|
                        0 <= i < old(self).store@.plans.len()
                            && (#[trigger] old(self).store@.plans[i]).flight_plan_id
                            == flight_plan@.flight_plan_id
                            && final(self).store@.plans == old(self).store@.plans.update(
                            i,
                            flight_plan@,
                        )
                } else {
                    &&& r == Ok::<bool, DataError>(false)
                    &&& final(self).store == old(self).store
                }
            },
    {
        let conn = match self.pool.acquire() {
            Ok(c) => c,
            Err(e) => {
                return Err(e);
            },
        };
        match self.store.find_plan_by_id(&flight_plan.flight_plan_id) {
            Some(i) => {
                let ghost plans0 = self.store@.plans;
                self.store.plans[i] = flight_plan.duplicate();
                proof {
                    assert(self.store@.plans =~= plans0.update(i as int, flight_plan@));
                    assert(self.store@.users =~= old(self).store@.users);
                    lemma_update_plan_preserves_wf(plans0, i as int, flight_plan@);
                }
                self.pool.release(conn);
                Ok(true)
            },
            None => {
                self.pool.release(conn);
                Ok(false)
            },
        }
    }

    /// Remove the flight plan with this identifier. `Ok(true)` iff a row
    /// was removed, `Ok(false)` — with the store untouched — when none
    /// matched.
    pub fn delete_flight_plan(&mut self, plan_id: &String) -> (r: Result<bool, DataError>)
        requires
            old(self).wf(),
        ensures
            final(self).wf(),
            Pool::same_config(old(self).pool, final(self).pool),
            final(self).store@.users == old(self).store@.users,
            old(self).pool_full() ==> {
                &&& r == Err::<bool, DataError>(DataError::PoolExhausted)
                &&& *final(self) == *old(self)
            },
            !old(self).pool_full() ==> {
                &&& Pool::round_trip(old(self).pool, final(self).pool)
                &&& if has_plan_id(old(self).store@.plans, plan_id@) {
                    &&& r == Ok::<bool, DataError>(true)
                    &&& exists|i: int|
                        0 <= i < old(self).store@.plans.len()
                            && (#[trigger] old(self).store@.plans[i]).flight_plan_id == plan_id@
                            && final(self).store@.plans == old(self).store@.plans.remove(i)
                } else {
                    &&& r == Ok::<bool, DataError>(false)
                    &&& final(self).store == old(self).store
                }
            },
    {
        let conn = match self.pool.acquire() {
            Ok(c) => c,
            Err(e) => {
                return Err(e);
            },
        };
        match self.store.find_plan_by_id(plan_id) {
            Some(i) => {
                let ghost plans0 = self.store@.plans;
                let _removed = self.store.plans.remove(i);
                proof {
                    assert(self.store@.plans =~= plans0.remove(i as int));
                    assert(self.store@.users =~= old(self).store@.users);
                    lemma_remove_plan_preserves_wf(plans0, i as int);
                }
                self.pool.release(conn);
                Ok(true)
            },
            None => {
                self.pool.release(conn);
                Ok(false)
            },
        }
    }
}

} // verus!
