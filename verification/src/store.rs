//! A model of the relational store: the two tables as vectors of records,
//! with the uniqueness invariants that the schema enforces.

use vstd::prelude::*;
use crate::models::{FlightPlan, FlightPlanV, User, UserV};

verus! {

/// Abstract contents of the store: the rows of both tables.
pub ghost struct StoreV {
    pub users: Seq<UserV>,
    pub plans: Seq<FlightPlanV>,
}

/// No two user rows share a username or an API key.
pub open spec fn users_distinct(users: Seq<UserV>) -> bool {
    forall|i: int, j: int|
        0 <= i < j < users.len() ==> {
            &&& (#[trigger] users[i]).username != (#[trigger] users[j]).username
            &&& users[i].api_key != users[j].api_key
        }
}

/// Every persisted user has a non-empty username and a non-empty API key.
pub open spec fn users_fields_nonempty(users: Seq<UserV>) -> bool {
    forall|i: int|
        0 <= i < users.len() ==> {
            &&& (#[trigger] users[i]).username.len() > 0
            &&& users[i].api_key.len() > 0
        }
}

/// The invariant of the users table.
pub open spec fn users_wf(users: Seq<UserV>) -> bool {
    users_distinct(users) && users_fields_nonempty(users)
}

/// Some user row carries this username.
pub open spec fn has_username(users: Seq<UserV>, name: Seq<char>) -> bool {
    exists|i: int| 0 <= i < users.len() && (#[trigger] users[i]).username == name
}

/// Some user row carries this API key.
pub open spec fn has_api_key(users: Seq<UserV>, key: Seq<char>) -> bool {
    exists|i: int| 0 <= i < users.len() && (#[trigger] users[i]).api_key == key
}

/// `u` is a user row of the table and its API key is `key`.
pub open spec fn user_with_key(users: Seq<UserV>, key: Seq<char>, u: UserV) -> bool {
    &&& u.api_key == key
    &&& exists|i: int| 0 <= i < users.len() && (#[trigger] users[i]) == u
}

/// No two flight-plan rows share an identifier.
pub open spec fn plans_distinct(plans: Seq<FlightPlanV>) -> bool {
    forall|i: int, j: int|
        0 <= i < j < plans.len() ==> (#[trigger] plans[i]).flight_plan_id != (
        #[trigger] plans[j]).flight_plan_id
}

/// Every persisted flight plan has a non-empty identifier.
pub open spec fn plans_ids_nonempty(plans: Seq<FlightPlanV>) -> bool {
    forall|i: int| 0 <= i < plans.len() ==> (#[trigger] plans[i]).flight_plan_id.len() > 0
}

/// The invariant of the flight-plans table.
pub open spec fn plans_wf(plans: Seq<FlightPlanV>) -> bool {
    plans_distinct(plans) && plans_ids_nonempty(plans)
}

/// Some flight-plan row carries this identifier.
pub open spec fn has_plan_id(plans: Seq<FlightPlanV>, id: Seq<char>) -> bool {
    exists|i: int| 0 <= i < plans.len() && (#[trigger] plans[i]).flight_plan_id == id
}

/// `p` is a flight-plan row of the table and its identifier is `id`.
pub open spec fn plan_with_id(plans: Seq<FlightPlanV>, id: Seq<char>, p: FlightPlanV) -> bool {
    &&& p.flight_plan_id == id
    &&& exists|i: int| 0 <= i < plans.len() && (#[trigger] plans[i]) == p
}

/// The store: both tables, owned by the relational backend that the
/// repository reaches through one pooled connection per operation.
pub struct Store {
    pub users: Vec<User>,
    pub plans: Vec<FlightPlan>,
}

impl View for Store {
    type V = StoreV;

    open spec fn view(&self) -> StoreV {
        StoreV {
            users: Seq::new(self.users@.len(), |i: int| self.users@[i]@),
            plans: Seq::new(self.plans@.len(), |i: int| self.plans@[i]@),
        }
    }
}

impl Store {
    /// Both tables satisfy their invariants.
    pub open spec fn wf(&self) -> bool {
        users_wf(self@.users) && plans_wf(self@.plans)
    }

    /// An empty store.
    pub fn new() -> (s: Store)
        ensures
            s.wf(),
            s@.users == Seq::<UserV>::empty(),
            s@.plans == Seq::<FlightPlanV>::empty(),
    {
        let s = Store { users: Vec::new(), plans: Vec::new() };
        proof {
            assert(s@.users =~= Seq::<UserV>::empty());
            assert(s@.plans =~= Seq::<FlightPlanV>::empty());
        }
        s
    }

    /// Index of the first user row whose username equals `name`, if any.
    pub fn find_user_by_username(&self, name: &String) -> (r: Option<usize>)
        ensures
            match r {
                Some(i) => i < self@.users.len() && self@.users[i as int].username == name@,
                None => !has_username(self@.users, name@),
            },
    {
        let n = self.users.len();
        let mut idx: usize = 0;
        while idx < n
            invariant
                n == self.users.len(),
                idx <= n,
                forall|j: int| 0 <= j < idx ==> (#[trigger] self@.users[j]).username != name@,
            decreases n - idx,
        {
            if self.users[idx].username == *name {
                return Some(idx);
            }
            idx = idx + 1;
        }
        None
    }

    /// Index of the first user row whose API key equals `key`, if any.
    pub fn find_user_by_key(&self, key: &String) -> (r: Option<usize>)
        ensures
            match r {
                Some(i) => i < self@.users.len() && self@.users[i as int].api_key == key@,
                None => !has_api_key(self@.users, key@),
            },
    {
        let n = self.users.len();
        let mut idx: usize = 0;
        while idx < n
            invariant
                n == self.users.len(),
                idx <= n,
                forall|j: int| 0 <= j < idx ==> (#[trigger] self@.users[j]).api_key != key@,
            decreases n - idx,
        {
            if self.users[idx].api_key == *key {
                return Some(idx);
            }
            idx = idx + 1;
        }
        None
    }

    /// An owned copy of every flight-plan row, in store order.
    pub fn snapshot_plans(&self) -> (r: Vec<FlightPlan>)
        ensures
            r@.len() == self@.plans.len(),
            forall|i: int| 0 <= i < r@.len() ==> (#[trigger] r@[i])@ == self@.plans[i],
    {
        let n = self.plans.len();
        let mut out: Vec<FlightPlan> = Vec::new();
        let mut idx: usize = 0;
        while idx < n
            invariant
                n == self.plans.len(),
                idx <= n,
                out@.len() == idx,
                forall|j: int| 0 <= j < idx ==> (#[trigger] out@[j])@ == self@.plans[j],
            decreases n - idx,
        {
            let p = self.plans[idx].duplicate();
            out.push(p);
            idx = idx + 1;
        }
        out
    }

    /// Index of the first flight-plan row whose identifier equals `id`, if
    /// any.
    pub fn find_plan_by_id(&self, id: &String) -> (r: Option<usize>)
        ensures
            match r {
                Some(i) => i < self@.plans.len() && self@.plans[i as int].flight_plan_id == id@,
                None => !has_plan_id(self@.plans, id@),
            },
    {
        let n = self.plans.len();
        let mut idx: usize = 0;
        while idx < n
            invariant
                n == self.plans.len(),
                idx <= n,
                forall|j: int|
                    0 <= j < idx ==> (#[trigger] self@.plans[j]).flight_plan_id != id@,
            decreases n - idx,
        {
            if self.plans[idx].flight_plan_id == *id {
                return Some(idx);
            }
            idx = idx + 1;
        }
        None
    }
}

/// The record of a fetched user result set: its first row, or `None` when
/// no row matched — zero rows is an absent record, never a fault.
pub fn first_user_row(rows: Vec<User>) -> (r: Option<User>)
    ensures
        match r {
            Some(u) => rows@.len() > 0 && u == rows@[0],
            None => rows@.len() == 0,
        },
{
    let mut rows = rows;
    if rows.is_empty() {
        None
    } else {
        Some(rows.remove(0))
    }
}

/// The record of a fetched flight-plan result set: its first row, or
/// `None` when no row matched.
pub fn first_plan_row(rows: Vec<FlightPlan>) -> (r: Option<FlightPlan>)
    ensures
        match r {
            Some(p) => rows@.len() > 0 && p == rows@[0],
            None => rows@.len() == 0,
        },
{
    let mut rows = rows;
    if rows.is_empty() {
        None
    } else {
        Some(rows.remove(0))
    }
}

/// Appending a user with a fresh username, a fresh key and non-empty fields
/// keeps the users table well formed.
pub proof fn lemma_push_user_preserves_wf(users: Seq<UserV>, u: UserV)
    requires
        users_wf(users),
        !has_username(users, u.username),
        !has_api_key(users, u.api_key),
        u.username.len() > 0,
        u.api_key.len() > 0,
    ensures
        users_wf(users.push(u)),
{
    let upd = users.push(u);
    assert forall|i: int, j: int| 0 <= i < j < upd.len() implies {
        &&& (#[trigger] upd[i]).username != (#[trigger] upd[j]).username
        &&& upd[i].api_key != upd[j].api_key
    } by {
        if j == users.len() {
            assert(upd[i] == users[i]);
            if users[i].username == u.username {
                assert(has_username(users, u.username));
            }
            if users[i].api_key == u.api_key {
                assert(has_api_key(users, u.api_key));
            }
        } else {
            assert(upd[i] == users[i] && upd[j] == users[j]);
        }
    }
    assert forall|i: int| 0 <= i < upd.len() implies {
        &&& (#[trigger] upd[i]).username.len() > 0
        &&& upd[i].api_key.len() > 0
    } by {
        if i < users.len() {
            assert(upd[i] == users[i]);
        }
    }
}

/// Appending a flight plan with a fresh, non-empty identifier keeps the
/// flight-plans table well formed.
pub proof fn lemma_push_plan_preserves_wf(plans: Seq<FlightPlanV>, p: FlightPlanV)
    requires
        plans_wf(plans),
        !has_plan_id(plans, p.flight_plan_id),
        p.flight_plan_id.len() > 0,
    ensures
        plans_wf(plans.push(p)),
{
    let upd = plans.push(p);
    assert forall|i: int, j: int| 0 <= i < j < upd.len() implies (
    #[trigger] upd[i]).flight_plan_id != (#[trigger] upd[j]).flight_plan_id by {
        if j == plans.len() {
            assert(upd[i] == plans[i]);
            if plans[i].flight_plan_id == p.flight_plan_id {
                assert(has_plan_id(plans, p.flight_plan_id));
            }
        } else {
            assert(upd[i] == plans[i] && upd[j] == plans[j]);
        }
    }
    assert forall|i: int| 0 <= i < upd.len() implies (
    #[trigger] upd[i]).flight_plan_id.len() > 0 by {
        if i < plans.len() {
            assert(upd[i] == plans[i]);
        }
    }
}

/// Overwriting one row with a record that keeps that row's identifier keeps
/// the flight-plans table well formed.
pub proof fn lemma_update_plan_preserves_wf(plans: Seq<FlightPlanV>, i: int, p: FlightPlanV)
    requires
        plans_wf(plans),
        0 <= i < plans.len(),
        p.flight_plan_id == plans[i].flight_plan_id,
    ensures
        plans_wf(plans.update(i, p)),
{
    let upd = plans.update(i, p);
    assert forall|k: int, j: int| 0 <= k < j < upd.len() implies (
    #[trigger] upd[k]).flight_plan_id != (#[trigger] upd[j]).flight_plan_id by {
        assert(upd[k].flight_plan_id == plans[k].flight_plan_id);
        assert(upd[j].flight_plan_id == plans[j].flight_plan_id);
    }
    assert forall|k: int| 0 <= k < upd.len() implies (
    #[trigger] upd[k]).flight_plan_id.len() > 0 by {
        assert(upd[k].flight_plan_id == plans[k].flight_plan_id);
    }
}

/// Removing one row keeps the flight-plans table well formed.
pub proof fn lemma_remove_plan_preserves_wf(plans: Seq<FlightPlanV>, i: int)
    requires
        plans_wf(plans),
        0 <= i < plans.len(),
    ensures
        plans_wf(plans.remove(i)),
{
    let upd = plans.remove(i);
    assert forall|k: int, j: int| 0 <= k < j < upd.len() implies (
    #[trigger] upd[k]).flight_plan_id != (#[trigger] upd[j]).flight_plan_id by {
        let k0 = if k < i { k } else { k + 1 };
        let j0 = if j < i { j } else { j + 1 };
        assert(upd[k] == plans[k0]);
        assert(upd[j] == plans[j0]);
    }
    assert forall|k: int| 0 <= k < upd.len() implies (
    #[trigger] upd[k]).flight_plan_id.len() > 0 by {
        let k0 = if k < i { k } else { k + 1 };
        assert(upd[k] == plans[k0]);
    }
}

} // verus!
