use nexus_rt::world::{Access, Registry, ResourceId, Sequence, WorldBuilder};

const A: u64 = 10;
const B: u64 = 20;
const C: u64 = 30;

#[test]
fn register_assigns_sequential_ids() {
    let mut wb = WorldBuilder::<u64>::new();
    assert_eq!(wb.register(A, 1), ResourceId(0));
    assert_eq!(wb.register(B, 2), ResourceId(1));
    assert_eq!(wb.register(C, 3), ResourceId(2));
    assert_eq!(wb.len(), 3);
    let world = wb.build();
    assert_eq!(world.id(B), ResourceId(1));
    assert_eq!(world.try_id(99), None);
    assert_eq!(world.len(), 3);
}

#[test]
fn ensure_keeps_existing_value() {
    let mut wb = WorldBuilder::<u64>::new();
    let first = wb.ensure(A, 1);
    let again = wb.ensure(A, 5);
    assert_eq!(first, again);
    assert_eq!(wb.len(), 1);
    let world = wb.build();
    assert_eq!(*world.resource(A), 1);
}

#[test]
fn write_then_read_gives_back_the_value() {
    let mut wb = WorldBuilder::<u64>::new();
    let a = wb.register(A, 1);
    let b = wb.register(B, 2);
    let mut world = wb.build();
    world.next_sequence();
    world.set(a, 42);
    assert_eq!(*world.get(a), 42);
    assert_eq!(*world.get(b), 2);
    assert_eq!(world.changed_at(a), Sequence(1));
    assert_eq!(world.changed_at(b), Sequence(0));
    assert!(world.is_changed(a));
    assert!(!world.is_changed(b));
    assert!(world.changed_after(a, Sequence(0)));
    assert!(!world.changed_after(a, Sequence(1)));
}

#[test]
fn resource_mut_stamps_current_sequence() {
    let mut wb = WorldBuilder::<u64>::new();
    wb.register(A, 1);
    let mut world = wb.build();
    world.next_sequence();
    world.next_sequence();
    *world.resource_mut(A) = 7;
    let id = world.id(A);
    assert_eq!(world.changed_at(id), Sequence(2));
    assert_eq!(*world.resource(A), 7);
}

#[test]
fn sequence_wraps_at_max() {
    assert_eq!(Sequence(i64::MAX).next(), Sequence(i64::MIN));
    assert_eq!(Sequence(5).next().get(), 6);
}

#[test]
fn registry_reports_keys_in_id_order() {
    let mut wb = WorldBuilder::<u64>::new();
    wb.register(C, 0);
    wb.register(A, 0);
    let world = wb.build();
    let reg = world.registry();
    assert_eq!(reg.len(), 2);
    assert_eq!(reg.key_of(ResourceId(0)), C);
    assert_eq!(reg.key_of(ResourceId(1)), A);
    assert!(reg.contains(A));
    assert!(!reg.contains(B));
}

#[test]
fn conflicting_accesses_detected() {
    let reg = Registry::new();
    let read0 = Access { id: ResourceId(0), write: false };
    let write0 = Access { id: ResourceId(0), write: true };
    let read1 = Access { id: ResourceId(1), write: false };
    assert!(reg.check_access(&vec![read0, read0, read1]));
    assert!(!reg.check_access(&vec![read0, read1, write0]));
    assert_eq!(Registry::find_conflict(&vec![read1, write0, read0]), Some((1, 2)));
    assert_eq!(Registry::find_conflict(&vec![]), None);
}
