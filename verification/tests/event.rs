use nexus_rt::event::{EventReader, EventWriter, Events};
use nexus_rt::world::WorldBuilder;

const K_EVENTS: u64 = 1;

#[test]
fn events_send_and_drain() {
    let mut events = Events::new();
    events.send(1u32);
    events.send(2);
    events.send(3);
    assert_eq!(events.len(), 3);
    let drained: Vec<u32> = events.drain();
    assert_eq!(drained, vec![1, 2, 3]);
    assert!(events.is_empty());
}

#[test]
fn writer_then_reader_in_systems() {
    let mut builder = WorldBuilder::<Events<u32>>::new();
    builder.register(K_EVENTS, Events::new());
    let mut world = builder.build();
    {
        let mut writer = EventWriter { events: world.resource_mut(K_EVENTS) };
        let tick = 5u32;
        writer.send(tick);
        writer.send(tick * 10);
    }
    let reader = EventReader { events: world.resource(K_EVENTS) };
    assert_eq!(reader.len(), 2);
    let vals: Vec<&u32> = reader.iter().collect();
    assert_eq!(vals, vec![&5, &50]);
}

#[test]
fn events_clear_and_slice() {
    let mut events: Events<u32> = Events::default();
    assert!(events.is_empty());
    events.send(7);
    events.send(8);
    assert_eq!(events.as_slice(), &[7, 8]);
    events.clear();
    assert_eq!(events.len(), 0);
}
