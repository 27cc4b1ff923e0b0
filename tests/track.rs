use change_ledger::track::TrackResource;

#[test]
fn update_insert_test() {
    let mut resource = TrackResource::new();
    resource.modified.insert(1);
    resource.removed.insert(1);

    resource.insert(1);

    assert!(!resource.removed.contains(1));
    assert!(!resource.modified.contains(1));
    assert!(resource.inserted.contains(1));
}

#[test]
fn update_modified_test() {
    let mut resource = TrackResource::new();
    resource.inserted.insert(1);
    resource.removed.insert(1);

    resource.modify(1);

    assert!(resource.modified.contains(1));
}

#[test]
fn update_remove_test() {
    let mut resource = TrackResource::new();
    resource.inserted.insert(1);
    resource.modified.insert(1);

    resource.remove(1);

    assert!(!resource.inserted.contains(1));
    assert!(!resource.modified.contains(1));
    assert!(resource.removed.contains(1));
}

#[test]
fn clear_test() {
    let mut resource = TrackResource::new();
    resource.inserted.insert(1);
    resource.modified.insert(1);
    resource.removed.insert(1);

    resource.clear();

    assert!(!resource.inserted.contains(1));
    assert!(!resource.modified.contains(1));
    assert!(!resource.removed.contains(1));
}

fn lifecycle_count(r: &TrackResource, i: usize) -> usize {
    [r.inserted.contains(i), r.modified.contains(i), r.removed.contains(i)]
        .iter()
        .filter(|b| **b)
        .count()
}

#[test]
fn insert_and_remove_keep_lifecycle_exclusive() {
    let mut r = TrackResource::new();
    let ops: [(bool, usize); 8] = [
        (true, 3),
        (false, 3),
        (true, 3),
        (true, 7),
        (false, 7),
        (false, 3),
        (true, 7),
        (true, 3),
    ];
    for (ins, i) in ops.iter() {
        if *ins {
            r.insert(*i);
        } else {
            r.remove(*i);
        }
        assert!(lifecycle_count(&r, 3) <= 1);
        assert!(lifecycle_count(&r, 7) <= 1);
    }
}

#[test]
fn insert_then_remove_leaves_removed_only() {
    let mut r = TrackResource::new();
    r.insert(5);
    r.remove(5);
    assert!(r.removed.contains(5));
    assert!(!r.inserted.contains(5));
    assert!(!r.modified.contains(5));
}

#[test]
fn modify_keeps_insert() {
    let mut r = TrackResource::new();
    r.insert(5);
    r.modify(5);
    assert!(r.inserted.contains(5));
    assert!(r.modified.contains(5));
    assert!(!r.removed.contains(5));
}

#[test]
fn component_flag_independent_of_removal() {
    let mut r = TrackResource::new();
    r.remove(9);
    r.component_add(9);
    assert!(r.removed.contains(9));
    assert!(r.component_added.contains(9));
}

#[test]
fn clear_keeps_component_sets() {
    let mut r = TrackResource::new();
    r.insert(4);
    r.component_add(4);
    r.component_unset(6);
    r.clear();
    assert!(!r.inserted.contains(4));
    assert!(r.component_added.contains(4));
    assert!(r.component_removed.contains(6));
}

#[test]
fn consume_priority_single_eviction() {
    let mut r = TrackResource::new();
    r.remove(2);
    r.component_add(2);
    assert!(r.remove_if_any_contains(2));
    assert!(!r.removed.contains(2));
    assert!(r.component_added.contains(2));
    assert!(r.remove_if_any_contains(2));
    assert!(!r.component_added.contains(2));
    assert!(!r.remove_if_any_contains(2));
}

#[test]
fn consume_modified_then_inserted() {
    let mut r = TrackResource::new();
    r.insert(1);
    r.modify(1);
    assert!(r.remove_if_any_contains(1));
    assert!(!r.modified.contains(1));
    assert!(r.inserted.contains(1));
    assert!(r.remove_if_any_contains(1));
    assert!(!r.inserted.contains(1));
}

#[test]
fn consume_component_removal_is_not_positive() {
    let mut r = TrackResource::new();
    r.component_unset(8);
    assert!(!r.remove_if_any_contains(8));
    assert!(!r.component_removed.contains(8));
}

#[test]
fn consume_absent_changes_nothing() {
    let mut r = TrackResource::new();
    r.insert(1);
    r.component_unset(2);
    assert!(!r.remove_if_any_contains(3));
    assert!(r.inserted.contains(1));
    assert!(r.component_removed.contains(2));
    assert_eq!(r.inserted.len(), 1);
    assert_eq!(r.modified.len(), 0);
    assert_eq!(r.removed.len(), 0);
    assert_eq!(r.component_added.len(), 0);
    assert_eq!(r.component_removed.len(), 1);
}

#[test]
fn recording_twice_is_recording_once() {
    let mut once = TrackResource::new();
    let mut twice = TrackResource::new();
    once.insert(1);
    twice.insert(1);
    twice.insert(1);
    once.modify(2);
    twice.modify(2);
    twice.modify(2);
    once.remove(3);
    twice.remove(3);
    twice.remove(3);
    once.component_add(4);
    twice.component_add(4);
    twice.component_add(4);
    once.component_unset(5);
    twice.component_unset(5);
    twice.component_unset(5);
    assert_eq!(once.inserted, twice.inserted);
    assert_eq!(once.modified, twice.modified);
    assert_eq!(once.removed, twice.removed);
    assert_eq!(once.component_added, twice.component_added);
    assert_eq!(once.component_removed, twice.component_removed);
}

#[test]
fn clone_copies_every_set_and_is_independent() {
    let mut r = TrackResource::new();
    r.insert(1);
    r.modify(2);
    r.remove(3);
    r.component_add(4);
    r.component_unset(5);
    let mut c = r.clone();
    assert!(c.inserted.contains(1));
    assert!(c.modified.contains(2));
    assert!(!c.modified.contains(3));
    assert!(c.removed.contains(3));
    assert!(c.component_added.contains(4));
    assert!(c.component_removed.contains(5));
    c.remove(1);
    c.clear();
    c.component_add(9);
    assert!(r.inserted.contains(1));
    assert!(r.modified.contains(2));
    assert!(r.removed.contains(3));
    assert!(!r.component_added.contains(9));
}
