use std::collections::HashMap;
use vstd::prelude::*;

use crate::report::{hit_message, hit_message_of};

verus! {

broadcast use vstd::std_specs::hash::group_hash_axioms;

/// The identifier that the host hands back when it could not name an object.
pub const UNKNOWN_ID: i64 = -1;

/// What `start` makes of the table: an entry `false` for a new, known
/// identifier; otherwise the table as it was.
pub open spec fn started(m: Map<i64, bool>, id: i64) -> Map<i64, bool> {
    if id == UNKNOWN_ID || m.contains_key(id) {
        m
    } else {
        m.insert(id, false)
    }
}

/// What a tick has to do, from the object's entry alone.
#[derive(PartialEq, Eq, Structural, Clone, Copy, Debug)]
pub enum UpdatePlan {
    /// The object has no entry: it was never started.
    Untracked,
    /// The object's ray has hit already: nothing more to do.
    AlreadyHit,
    /// The object's ray has not hit yet: cast it.
    CastRay,
}

/// The plan of a tick of the object `id`, from its entry in `m`.
pub open spec fn plan_of(m: Map<i64, bool>, id: i64) -> UpdatePlan {
    if !m.contains_key(id) {
        UpdatePlan::Untracked
    } else if m[id] {
        UpdatePlan::AlreadyHit
    } else {
        UpdatePlan::CastRay
    }
}

/// What the host's raycast gave back.
#[derive(Debug)]
pub enum RayOutcome {
    /// The ray hit nothing.
    Missed,
    /// The ray hit an object; the names of the caster and of the object hit.
    Hit { object_name: Vec<u8>, target_name: Vec<u8> },
}

/// What the host is to do at the end of a tick.
#[derive(Debug)]
pub enum UpdateAction {
    /// Nothing: the entry is gone or has hit already.
    Nothing,
    /// Move the object forward by its forward vector times the tick's length.
    Advance,
    /// Write this zero-terminated line to the console.
    Report(Vec<u8>),
}

/// Whether a tick with this outcome records a hit: the entry is there and
/// has not hit yet, and the ray hit something.
pub open spec fn records_hit(m: Map<i64, bool>, id: i64, outcome: RayOutcome) -> bool {
    m.contains_key(id) && !m[id] && outcome is Hit
}

/// The table after a raycast of the object `id` came back with `outcome`.
pub open spec fn after_ray(m: Map<i64, bool>, id: i64, outcome: RayOutcome) -> Map<i64, bool> {
    if records_hit(m, id, outcome) {
        m.insert(id, true)
    } else {
        m
    }
}

/// What the host is to do after a raycast of the object `id` came back
/// with `outcome`.
pub open spec fn action_of(
    m: Map<i64, bool>,
    id: i64,
    outcome: RayOutcome,
    action: UpdateAction,
) -> bool {
    if !(m.contains_key(id) && !m[id]) {
        action is Nothing
    } else {
        match outcome {
            RayOutcome::Missed => action is Advance,
            RayOutcome::Hit { object_name, target_name } => match action {
                UpdateAction::Report(line) => line@ == hit_message_of(
                    object_name@,
                    target_name@,
                ),
                _ => false,
            },
        }
    }
}

/// For each object that the controller is attached to, whether its ray has
/// already hit something.
pub struct HitTable {
    has_hit: HashMap<i64, bool>,
}

impl View for HitTable {
    type V = Map<i64, bool>;

    closed spec fn view(&self) -> Map<i64, bool> {
        self.has_hit@
    }
}

impl HitTable {
    /// An empty table.
    pub fn new() -> (r: HitTable)
        ensures
            r@ == Map::<i64, bool>::empty(),
    {
        HitTable { has_hit: HashMap::new() }
    }

    /// Attaches the object `id`: a new, known identifier gets the entry
    /// `false`; an entry that exists already is kept as it is.
    pub fn start(&mut self, id: i64)
        ensures
            final(self)@ == started(old(self)@, id),
    {
        if id != UNKNOWN_ID && self.has_hit.get(&id).is_none() {
            self.has_hit.insert(id, false);
        }
    }

    /// Decides what a tick of the object `id` has to do: cast a ray only
    /// where the entry is there and has not hit yet.
    pub fn plan_update(&self, id: i64) -> (r: UpdatePlan)
        ensures
            r == plan_of(self@, id),
    {
        match self.has_hit.get(&id) {
            None => UpdatePlan::Untracked,
            Some(hit) => if *hit {
                UpdatePlan::AlreadyHit
            } else {
                UpdatePlan::CastRay
            },
        }
    }

    /// Takes in what the raycast of the object `id` gave back. Where the
    /// entry is there and has not hit yet, a hit sets it to `true` and asks
    /// for the console line that names both objects, and a miss asks to move
    /// the object forward; otherwise nothing changes and nothing is asked.
    pub fn finish_update(&mut self, id: i64, outcome: RayOutcome) -> (r: UpdateAction)
        requires
            outcome matches RayOutcome::Hit { object_name, target_name } ==> object_name@.len()
                + target_name@.len() + 17 <= usize::MAX,
        ensures
            final(self)@ == after_ray(old(self)@, id, outcome),
            action_of(old(self)@, id, outcome, r),
    {
        match self.has_hit.get(&id) {
            Some(hit) => if *hit {
                return UpdateAction::Nothing;
            },
            None => {
                return UpdateAction::Nothing;
            },
        }
        match outcome {
            RayOutcome::Missed => UpdateAction::Advance,
            RayOutcome::Hit { object_name, target_name } => {
                let line = hit_message(&object_name, &target_name);
                self.has_hit.insert(id, true);
                UpdateAction::Report(line)
            },
        }
    }
}

} // verus!
