use ray_controller::hit_table::{HitTable, RayOutcome, UpdateAction, UpdatePlan, UNKNOWN_ID};
use ray_controller::report::hit_message;

fn hit(object: &str, target: &str) -> RayOutcome {
    RayOutcome::Hit {
        object_name: object.as_bytes().to_vec(),
        target_name: target.as_bytes().to_vec(),
    }
}

#[test]
fn new_table_tracks_nothing() {
    let t = HitTable::new();
    assert_eq!(t.plan_update(0), UpdatePlan::Untracked);
    assert_eq!(t.plan_update(7), UpdatePlan::Untracked);
}

#[test]
fn start_adds_false_entry() {
    let mut t = HitTable::new();
    t.start(42);
    assert_eq!(t.plan_update(42), UpdatePlan::CastRay);
    assert_eq!(t.plan_update(43), UpdatePlan::Untracked);
}

#[test]
fn start_ignores_unknown_id() {
    let mut t = HitTable::new();
    t.start(UNKNOWN_ID);
    assert_eq!(t.plan_update(-1), UpdatePlan::Untracked);
}

#[test]
fn start_twice_keeps_hit() {
    let mut t = HitTable::new();
    t.start(3);
    t.start(3);
    assert_eq!(t.plan_update(3), UpdatePlan::CastRay);
    let a = t.finish_update(3, hit("a", "b"));
    assert!(matches!(a, UpdateAction::Report(_)));
    t.start(3);
    assert_eq!(t.plan_update(3), UpdatePlan::AlreadyHit);
}

#[test]
fn hit_object_does_nothing_more() {
    let mut t = HitTable::new();
    t.start(1);
    t.finish_update(1, hit("Player", "Wall"));
    assert_eq!(t.plan_update(1), UpdatePlan::AlreadyHit);
    assert!(matches!(t.finish_update(1, RayOutcome::Missed), UpdateAction::Nothing));
    assert!(matches!(t.finish_update(1, hit("Player", "Wall")), UpdateAction::Nothing));
    assert_eq!(t.plan_update(1), UpdatePlan::AlreadyHit);
}

#[test]
fn hit_reports_both_names_once() {
    let mut t = HitTable::new();
    t.start(9);
    match t.finish_update(9, hit("Player", "Wall")) {
        UpdateAction::Report(line) => {
            assert_eq!(line, b"Object Player did hit Wall\0".to_vec());
        }
        other => panic!("expected a report, got {:?}", other),
    }
    assert_eq!(t.plan_update(9), UpdatePlan::AlreadyHit);
    assert!(matches!(t.finish_update(9, hit("Player", "Door")), UpdateAction::Nothing));
}

#[test]
fn miss_advances_and_keeps_flag() {
    let mut t = HitTable::new();
    t.start(4);
    assert!(matches!(t.finish_update(4, RayOutcome::Missed), UpdateAction::Advance));
    assert_eq!(t.plan_update(4), UpdatePlan::CastRay);
    assert!(matches!(t.finish_update(4, RayOutcome::Missed), UpdateAction::Advance));
    assert_eq!(t.plan_update(4), UpdatePlan::CastRay);
}

#[test]
fn untracked_object_is_left_alone() {
    let mut t = HitTable::new();
    assert!(matches!(t.finish_update(5, hit("x", "y")), UpdateAction::Nothing));
    assert!(matches!(t.finish_update(5, RayOutcome::Missed), UpdateAction::Nothing));
    assert_eq!(t.plan_update(5), UpdatePlan::Untracked);
}

#[test]
fn distinct_objects_keep_their_entries() {
    let mut t = HitTable::new();
    t.start(10);
    t.start(11);
    assert!(matches!(t.finish_update(10, hit("A", "B")), UpdateAction::Report(_)));
    assert_eq!(t.plan_update(10), UpdatePlan::AlreadyHit);
    assert_eq!(t.plan_update(11), UpdatePlan::CastRay);
    assert!(matches!(t.finish_update(11, RayOutcome::Missed), UpdateAction::Advance));
    assert_eq!(t.plan_update(10), UpdatePlan::AlreadyHit);
    t.start(12);
    assert_eq!(t.plan_update(10), UpdatePlan::AlreadyHit);
    assert_eq!(t.plan_update(11), UpdatePlan::CastRay);
}

#[test]
fn message_has_terminator() {
    let m = hit_message(&b"cube".to_vec(), &b"sphere".to_vec());
    assert_eq!(m, b"Object cube did hit sphere\0".to_vec());
    assert_eq!(*m.last().unwrap(), 0u8);
}

#[test]
fn message_with_empty_names() {
    let m = hit_message(&Vec::new(), &Vec::new());
    assert_eq!(m, b"Object  did hit \0".to_vec());
}

#[test]
fn extreme_ids() {
    let mut t = HitTable::new();
    t.start(i64::MAX);
    t.start(i64::MIN);
    assert_eq!(t.plan_update(i64::MAX), UpdatePlan::CastRay);
    assert_eq!(t.plan_update(i64::MIN), UpdatePlan::CastRay);
}
