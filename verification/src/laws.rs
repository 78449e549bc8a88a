//! The cross-operation guarantees of the core, each proved from the same
//! spec functions that the operations' contracts are stated over.

use vstd::prelude::*;
use crate::models::{FlightPlanV, UserV};
use crate::pool::Pool;
use crate::store::{
    has_api_key, has_plan_id, plan_with_id, plans_distinct, plans_wf, user_with_key, users_wf,
};

verus! {

/// A lookup that follows a create finds the created user: once a user with
/// a previously unissued key is appended to a well-formed table, the only
/// row the key resolves to is that user, so the lookup answers the created
/// username and fullname.
pub proof fn lemma_create_then_lookup_user(users: Seq<UserV>, created: UserV, found: UserV)
    requires
        users_wf(users),
        !has_api_key(users, created.api_key),
        user_with_key(users.push(created), created.api_key, found),
    ensures
        found == created,
{
    let upd = users.push(created);
    let i = choose|i: int| 0 <= i < upd.len() && (#[trigger] upd[i]) == found;
    if i < users.len() {
        assert(users[i] == found);
        assert(has_api_key(users, created.api_key));
    }
}

/// A read that follows a create returns an equal record: once a plan with
/// a previously unissued identifier is appended to a well-formed table,
/// the only row that identifier resolves to is that plan.
pub proof fn lemma_insert_then_get_plan(
    plans: Seq<FlightPlanV>,
    inserted: FlightPlanV,
    found: FlightPlanV,
)
    requires
        plans_wf(plans),
        !has_plan_id(plans, inserted.flight_plan_id),
        plan_with_id(plans.push(inserted), inserted.flight_plan_id, found),
    ensures
        found == inserted,
{
    let upd = plans.push(inserted);
    let i = choose|i: int| 0 <= i < upd.len() && (#[trigger] upd[i]) == found;
    if i < plans.len() {
        assert(plans[i] == found);
        assert(has_plan_id(plans, inserted.flight_plan_id));
    }
}

/// A read that follows an update reflects every updated field: after row
/// `i` of a well-formed table is overwritten with a record that keeps that
/// row's identifier, the only row that identifier resolves to is the new
/// record.
pub proof fn lemma_update_then_get_plan(
    plans: Seq<FlightPlanV>,
    i: int,
    newp: FlightPlanV,
    found: FlightPlanV,
)
    requires
        plans_wf(plans),
        0 <= i < plans.len(),
        plans[i].flight_plan_id == newp.flight_plan_id,
        plan_with_id(plans.update(i, newp), newp.flight_plan_id, found),
    ensures
        found == newp,
{
    let upd = plans.update(i, newp);
    let j = choose|j: int| 0 <= j < upd.len() && (#[trigger] upd[j]) == found;
    if j != i {
        assert(upd[j] == plans[j]);
        assert(plans[j].flight_plan_id == plans[i].flight_plan_id);
        assert(!plans_distinct(plans));
    }
}

/// A second delete of the same identifier finds nothing: removing the row
/// that carries an identifier from a well-formed table leaves no row that
/// carries it, so the repeated call reports that no row matched.
pub proof fn lemma_delete_then_delete_plan(plans: Seq<FlightPlanV>, i: int)
    requires
        plans_wf(plans),
        0 <= i < plans.len(),
    ensures
        !has_plan_id(plans.remove(i), plans[i].flight_plan_id),
{
    let upd = plans.remove(i);
    if has_plan_id(upd, plans[i].flight_plan_id) {
        let j = choose|j: int|
            0 <= j < upd.len() && (#[trigger] upd[j]).flight_plan_id == plans[i].flight_plan_id;
        let j0 = if j < i { j } else { j + 1 };
        assert(upd[j] == plans[j0]);
        assert(plans[j0].flight_plan_id == plans[i].flight_plan_id);
        assert(j0 != i);
        assert(!plans_distinct(plans));
    }
}

/// No more than the configured maximum of connections is ever checked out:
/// the bound is part of the pool's invariant, which every pool operation
/// preserves.
pub proof fn lemma_pool_never_oversubscribed(p: Pool)
    requires
        p.wf(),
    ensures
        p.in_use <= p.max_connections,
        p.idle + p.in_use <= p.max_connections,
{
}

} // verus!
