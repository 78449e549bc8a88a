//! The handler layer: one function per HTTP endpoint, mapping repository
//! outcomes to the endpoint's status codes. A lookup that matches no row
//! answers 404, an empty listing 204, and a failed create or write 500;
//! the routing shell only serializes what these functions return.

use vstd::prelude::*;
use crate::models::{plan_with_new_id, FlightPlan, User, UserV};
use crate::idgen::is_lower_hex_string;
use crate::pool::Pool;
use crate::repository::Repository;
use crate::store::{has_plan_id, has_username, plan_with_id};

verus! {

/// Status a create answers: 200 when the record was stored, 500 when it
/// was not.
pub fn create_status(created: bool) -> (s: u16)
    ensures
        s == (if created {
            200int
        } else {
            500int
        }),
{
    if created {
        200
    } else {
        500
    }
}

/// Status a listing answers, from the fetched record count — `None` when
/// the store could not be asked: 200 with records, 204 for a
/// successful-but-empty set, 500 when the fetch failed.
pub fn list_status(fetched: Option<usize>) -> (s: u16)
    ensures
        s == (match fetched {
            Some(n) => if n > 0 {
                200int
            } else {
                204int
            },
            None => 500int,
        }),
{
    match fetched {
        Some(n) => {
            if n > 0 {
                200
            } else {
                204
            }
        },
        None => 500,
    }
}

/// Status an operation keyed to one row answers — a lookup, an update or
/// a delete — from whether a row matched; `None` when the store could
/// not be asked: 200 when one did, 404 when none did, 500 when the store
/// failed.
pub fn row_status(outcome: Option<bool>) -> (s: u16)
    ensures
        s == (match outcome {
            Some(matched) => if matched {
                200int
            } else {
                404int
            },
            None => 500int,
        }),
{
    match outcome {
        Some(true) => 200,
        Some(false) => 404,
        None => 500,
    }
}

/// `POST /api/v1/admin/user/create`: create the user and answer the
/// assigned API key with 200, or 500 when the user cannot be created.
pub fn new_user(repo: &mut Repository, user: User) -> (r: (u16, Option<String>))
    requires
        old(repo).wf(),
    ensures
        final(repo).wf(),
        Pool::same_config(old(repo).pool, final(repo).pool),
        final(repo).store@.plans == old(repo).store@.plans,
        r.0 == 200 || r.0 == 500,
        (r.0 == 200) <==> (r.1 is Some),
        r.0 == 500 ==> final(repo).store == old(repo).store,
        user.username@.len() == 0 ==> r.0 == 500,
        (user.username@.len() > 0 && old(repo).pool_full()) ==> r.0 == 500,
        has_username(old(repo).store@.users, user.username@) ==> r.0 == 500,
        r.0 == 500 ==> (user.username@.len() == 0 || old(repo).pool_full() || old(
            repo,
        ).store@.users.len() > 0),
        r.1 matches Some(k) ==> {
            &&& k@.len() == 32
            &&& is_lower_hex_string(k@)
            &&& !has_username(old(repo).store@.users, user.username@)
            &&& final(repo).store@.users == old(repo).store@.users.push(
                UserV { username: user.username@, fullname: user.fullname@, api_key: k@ },
            )
            &&& Pool::round_trip(old(repo).pool, final(repo).pool)
        },
{
    match repo.create_user(user) {
        Ok(api_key) => (create_status(true), Some(api_key)),
        Err(_e) => (create_status(false), None),
    }
}

/// `GET /api/v1/flightplan`: answer every record with 200, 204 when the
/// set is empty, or 500 when the store could not be asked.
pub fn get_all_flight_plans(repo: &mut Repository) -> (r: (u16, Option<Vec<FlightPlan>>))
    requires
        old(repo).wf(),
    ensures
        final(repo).wf(),
        final(repo).store == old(repo).store,
        Pool::same_config(old(repo).pool, final(repo).pool),
        old(repo).pool_full() ==> {
            &&& r.0 == 500 && r.1 is None
            &&& final(repo).pool == old(repo).pool
        },
        !old(repo).pool_full() ==> {
            &&& Pool::round_trip(old(repo).pool, final(repo).pool)
            &&& if old(repo).store@.plans.len() == 0 {
                r.0 == 204 && r.1 is None
            } else {
                &&& r.0 == 200
                &&& r.1 matches Some(v) && v@.len() == old(repo).store@.plans.len()
                &&& r.1 matches Some(v) ==> forall|i: int|
                    0 <= i < v@.len() ==> (#[trigger] v@[i])@ == old(repo).store@.plans[i]
            }
        },
{
    match repo.get_all_flight_plans() {
        Ok(list) => {
            let status = list_status(Some(list.len()));
            if status == 200 {
                (status, Some(list))
            } else {
                (status, None)
            }
        },
        Err(_e) => (list_status(None), None),
    }
}

/// `GET /api/v1/flightplan/{id}`: answer the matching record with 200,
/// 404 when none matches, or 500 when the store could not be asked.
pub fn get_flight_plan_by_id(repo: &mut Repository, plan_id: &String) -> (r: (
    u16,
    Option<FlightPlan>,
))
    requires
        old(repo).wf(),
    ensures
        final(repo).wf(),
        final(repo).store == old(repo).store,
        Pool::same_config(old(repo).pool, final(repo).pool),
        old(repo).pool_full() ==> {
            &&& r.0 == 500 && r.1 is None
            &&& final(repo).pool == old(repo).pool
        },
        !old(repo).pool_full() ==> {
            &&& Pool::round_trip(old(repo).pool, final(repo).pool)
            &&& if has_plan_id(old(repo).store@.plans, plan_id@) {
                &&& r.0 == 200
                &&& r.1 matches Some(p) && plan_with_id(old(repo).store@.plans, plan_id@, p@)
            } else {
                r.0 == 404 && r.1 is None
            }
        },
{
    match repo.get_flight_plan_by_id(plan_id) {
        Ok(Some(plan)) => (row_status(Some(true)), Some(plan)),
        Ok(None) => (row_status(Some(false)), None),
        Err(_e) => (row_status(None), None),
    }
}

/// `DELETE /api/v1/flightplan/{id}`: 200 when a record was removed, 404
/// when none matched, 500 when the store could not be asked.
pub fn delete_flight_plan_by_id(repo: &mut Repository, plan_id: &String) -> (status: u16)
    requires
        old(repo).wf(),
    ensures
        final(repo).wf(),
        Pool::same_config(old(repo).pool, final(repo).pool),
        final(repo).store@.users == old(repo).store@.users,
        old(repo).pool_full() ==> status == 500 && *final(repo) == *old(repo),
        !old(repo).pool_full() ==> {
            &&& Pool::round_trip(old(repo).pool, final(repo).pool)
            &&& if has_plan_id(old(repo).store@.plans, plan_id@) {
                &&& status == 200
                &&& exists|i: int|
                    0 <= i < old(repo).store@.plans.len()
                        && (#[trigger] old(repo).store@.plans[i]).flight_plan_id == plan_id@
                        && final(repo).store@.plans == old(repo).store@.plans.remove(i)
            } else {
                status == 404 && final(repo).store == old(repo).store
            }
        },
{
    match repo.delete_flight_plan(plan_id) {
        Ok(removed) => row_status(Some(removed)),
        Err(_e) => row_status(None),
    }
}

/// `POST /api/v1/flightplan`: store the plan under a freshly assigned
/// identifier and answer the stored record with 200, or 500 when it could
/// not be stored.
pub fn create_flight_plan(repo: &mut Repository, flight_plan: &FlightPlan) -> (r: (
    u16,
    Option<FlightPlan>,
))
    requires
        old(repo).wf(),
    ensures
        final(repo).wf(),
        Pool::same_config(old(repo).pool, final(repo).pool),
        final(repo).store@.users == old(repo).store@.users,
        r.0 == 200 || r.0 == 500,
        (r.0 == 200) <==> (r.1 is Some),
        r.0 == 500 ==> final(repo).store == old(repo).store,
        r.0 == 500 ==> (old(repo).pool_full() || old(repo).store@.plans.len() > 0),
        old(repo).pool_full() ==> r.0 == 500 && *final(repo) == *old(repo),
        r.1 matches Some(p) ==> {
            &&& p@.flight_plan_id.len() == 32
            &&& is_lower_hex_string(p@.flight_plan_id)
            &&& !has_plan_id(old(repo).store@.plans, p@.flight_plan_id)
            &&& p@ == plan_with_new_id(flight_plan@, p@.flight_plan_id)
            &&& final(repo).store@.plans == old(repo).store@.plans.push(p@)
            &&& Pool::round_trip(old(repo).pool, final(repo).pool)
            &&& !(flight_plan@.flight_plan_id.len() == 32 && is_lower_hex_string(
                flight_plan@.flight_plan_id,
            )) ==> p@.flight_plan_id != flight_plan@.flight_plan_id
        },
{
    match repo.insert_flight_plan(flight_plan) {
        Ok(stored) => (create_status(true), Some(stored)),
        Err(_e) => (create_status(false), None),
    }
}

/// `PUT /api/v1/flightplan`: overwrite the record matching the given
/// plan's identifier; 200 when one row was modified, 404 when none
/// matched, 500 when the store could not be asked.
pub fn update_flight_plan(repo: &mut Repository, flight_plan: &FlightPlan) -> (status: u16)
    requires
        old(repo).wf(),
    ensures
        final(repo).wf(),
        Pool::same_config(old(repo).pool, final(repo).pool),
        final(repo).store@.users == old(repo).store@.users,
        old(repo).pool_full() ==> status == 500 && *final(repo) == *old(repo),
        !old(repo).pool_full() ==> {
            &&& Pool::round_trip(old(repo).pool, final(repo).pool)
            &&& if has_plan_id(old(repo).store@.plans, flight_plan@.flight_plan_id) {
                &&& status == 200
                &&& exists|i: int|
                    0 <= i < old(repo).store@.plans.len()
                        && (#[trigger] old(repo).store@.plans[i]).flight_plan_id
                        == flight_plan@.flight_plan_id
                        && final(repo).store@.plans == old(repo).store@.plans.update(
                        i,
                        flight_plan@,
                    )
            } else {
                status == 404 && final(repo).store == old(repo).store
            }
        },
{
    match repo.update_flight_plan(flight_plan) {
        Ok(modified) => row_status(Some(modified)),
        Err(_e) => row_status(None),
    }
}

} // verus!
