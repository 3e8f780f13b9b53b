use vstd::prelude::*;

use crate::hit_table::{
    action_of, after_ray, plan_of, records_hit, started, RayOutcome, UpdateAction, UpdatePlan,
    UNKNOWN_ID,
};

verus! {

/// Starting an object never seen before adds exactly one entry, `false`, and
/// starting it again changes nothing: no second entry, no reset.
pub proof fn lemma_start_adds_one_entry(m: Map<i64, bool>, id: i64)
    requires
        m.dom().finite(),
        id != UNKNOWN_ID,
        !m.contains_key(id),
    ensures
        started(m, id) == m.insert(id, false),
        started(m, id).dom() == m.dom().insert(id),
        started(m, id).dom().len() == m.dom().len() + 1,
        started(started(m, id), id) == started(m, id),
{
}

/// Starting an object is idempotent, whatever the table holds.
pub proof fn lemma_start_idempotent(m: Map<i64, bool>, id: i64)
    ensures
        started(started(m, id), id) == started(m, id),
{
}

/// No step of the controller removes an entry or turns a hit back.
pub proof fn lemma_entries_kept(m: Map<i64, bool>, id: i64, k: i64, outcome: RayOutcome)
    requires
        m.contains_key(k),
    ensures
        started(m, id).contains_key(k),
        after_ray(m, id, outcome).contains_key(k),
        m[k] ==> started(m, id)[k] && after_ray(m, id, outcome)[k],
{
}

/// An object whose ray has hit casts no ray and is never moved: its tick is
/// planned as done, and whatever a raycast would report changes nothing and
/// asks for nothing.
pub proof fn lemma_hit_is_final(m: Map<i64, bool>, id: i64, outcome: RayOutcome, a: UpdateAction)
    requires
        m.contains_key(id),
        m[id],
        action_of(m, id, outcome, a),
    ensures
        plan_of(m, id) == UpdatePlan::AlreadyHit,
        after_ray(m, id, outcome) == m,
        a is Nothing,
{
}

/// A ray that hits, on an object that had not hit yet, sets its entry to
/// `true` and asks for the line naming both objects; any later outcome for
/// that object records no second hit and asks for no second line.
pub proof fn lemma_hit_reported_once(
    m: Map<i64, bool>,
    id: i64,
    first: RayOutcome,
    a: UpdateAction,
    second: RayOutcome,
    b: UpdateAction,
)
    requires
        m.contains_key(id),
        !m[id],
        first is Hit,
        action_of(m, id, first, a),
        action_of(after_ray(m, id, first), id, second, b),
    ensures
        records_hit(m, id, first),
        after_ray(m, id, first)[id],
        a is Report,
        !records_hit(after_ray(m, id, first), id, second),
        plan_of(after_ray(m, id, first), id) == UpdatePlan::AlreadyHit,
        after_ray(after_ray(m, id, first), id, second) == after_ray(m, id, first),
        b is Nothing,
{
}

/// A ray that hits nothing, on an object that had not hit yet, leaves the
/// table as it was (the entry stays `false`) and asks to move the object.
pub proof fn lemma_miss_advances(m: Map<i64, bool>, id: i64, a: UpdateAction)
    requires
        m.contains_key(id),
        !m[id],
        action_of(m, id, RayOutcome::Missed, a),
    ensures
        after_ray(m, id, RayOutcome::Missed) == m,
        after_ray(m, id, RayOutcome::Missed)[id] == false,
        a is Advance,
{
}

/// Steps on two distinct objects leave each other's entry alone, and their
/// order does not matter: the table behaves per key as if each step were
/// taken alone.
pub proof fn lemma_distinct_objects_independent(
    m: Map<i64, bool>,
    x: i64,
    y: i64,
    ox: RayOutcome,
    oy: RayOutcome,
)
    requires
        x != y,
    ensures
        started(m, x).contains_key(y) == m.contains_key(y),
        started(m, x).get(y) == m.get(y),
        after_ray(m, x, ox).contains_key(y) == m.contains_key(y),
        after_ray(m, x, ox).get(y) == m.get(y),
        plan_of(started(m, x), y) == plan_of(m, y),
        plan_of(after_ray(m, x, ox), y) == plan_of(m, y),
        started(started(m, x), y) == started(started(m, y), x),
        after_ray(after_ray(m, x, ox), y, oy) == after_ray(after_ray(m, y, oy), x, ox),
        after_ray(started(m, x), y, oy) == started(after_ray(m, y, oy), x),
{
    assert(started(started(m, x), y) =~= started(started(m, y), x));
    assert(after_ray(after_ray(m, x, ox), y, oy) =~= after_ray(after_ray(m, y, oy), x, ox));
    assert(after_ray(started(m, x), y, oy) =~= started(after_ray(m, y, oy), x));
}

} // verus!
