use nexus_rt::components::{ComponentId, ComponentsBuilder};
use nexus_rt::drivers::{DriverId, DriversBuilder};
use std::sync::{Arc, Weak};

// Component values of several kinds share one container through this enum.
#[derive(Clone, Debug, PartialEq)]
enum C {
    Price { value: f64 },
    Venue { name: &'static str },
    Config { max_orders: usize },
    Shared(Arc<u32>),
}

const PRICE: u64 = 1;
const VENUE: u64 = 2;
const CONFIG: u64 = 3;
const SHARED: u64 = 4;

fn price(c: &C) -> f64 {
    match c {
        C::Price { value } => *value,
        _ => panic!("not a price"),
    }
}

#[test]
fn components_register_and_build() {
    let components = ComponentsBuilder::<C>::new()
        .register(PRICE, C::Price { value: 100.0 })
        .register(VENUE, C::Venue { name: "test" })
        .build();
    assert_eq!(components.len(), 2);
}

#[test]
fn component_ids_are_sequential() {
    let components = ComponentsBuilder::<C>::new()
        .register(PRICE, C::Price { value: 0.0 })
        .register(VENUE, C::Venue { name: "" })
        .register(CONFIG, C::Config { max_orders: 0 })
        .build();
    assert_eq!(components.id(PRICE), ComponentId(0));
    assert_eq!(components.id(VENUE), ComponentId(1));
    assert_eq!(components.id(CONFIG), ComponentId(2));
}

#[test]
fn components_get_returns_registered_value() {
    let components = ComponentsBuilder::<C>::new().register(PRICE, C::Price { value: 42.5 }).build();
    let id = components.id(PRICE);
    assert_eq!(price(components.get(id)), 42.5);
}

#[test]
fn components_get_mut_modifies_value() {
    let mut components = ComponentsBuilder::<C>::new().register(PRICE, C::Price { value: 1.0 }).build();
    let id = components.id(PRICE);
    *components.get_mut(id) = C::Price { value: 99.0 };
    assert_eq!(price(components.get(id)), 99.0);
}

#[test]
fn try_id_returns_none_for_unregistered() {
    let components = ComponentsBuilder::<C>::new().build();
    assert!(components.try_id(PRICE).is_none());
}

#[test]
fn try_id_returns_some_for_registered() {
    let components = ComponentsBuilder::<C>::new().register(PRICE, C::Price { value: 0.0 }).build();
    assert!(components.try_id(PRICE).is_some());
}

#[test]
fn empty_builder_builds_empty_components() {
    let components = ComponentsBuilder::<C>::new().build();
    assert_eq!(components.len(), 0);
    assert!(components.is_empty());
}

#[test]
fn components_drop_runs_destructors() {
    let arc = Arc::new(42u32);
    let weak: Weak<u32> = Arc::downgrade(&arc);
    {
        let _components = ComponentsBuilder::<C>::new().register(SHARED, C::Shared(arc)).build();
        assert!(weak.upgrade().is_some());
    }
    assert!(weak.upgrade().is_none());
}

#[test]
fn components_builder_drop_cleans_up_without_build() {
    let arc = Arc::new(99u32);
    let weak: Weak<u32> = Arc::downgrade(&arc);
    {
        let _builder = ComponentsBuilder::<C>::new().register(SHARED, C::Shared(arc));
    }
    assert!(weak.upgrade().is_none());
}

#[test]
fn multiple_types_independent() {
    let components = ComponentsBuilder::<C>::new()
        .register(PRICE, C::Price { value: 10.0 })
        .register(VENUE, C::Venue { name: "CB" })
        .register(CONFIG, C::Config { max_orders: 500 })
        .build();
    let price_id = components.id(PRICE);
    let venue_id = components.id(VENUE);
    let config_id = components.id(CONFIG);
    assert_eq!(price(components.get(price_id)), 10.0);
    assert_eq!(components.get(venue_id), &C::Venue { name: "CB" });
    assert_eq!(components.get(config_id), &C::Config { max_orders: 500 });
}

#[test]
fn contains_reflects_registration() {
    let builder = ComponentsBuilder::<C>::new();
    assert!(!builder.contains(PRICE));
    let builder = builder.register(PRICE, C::Price { value: 0.0 });
    assert!(builder.contains(PRICE));
    assert!(!builder.contains(VENUE));
    let components = builder.build();
    assert!(components.contains(PRICE));
    assert!(!components.contains(VENUE));
}

#[test]
fn components_replace_returns_old_value() {
    let mut components = ComponentsBuilder::<C>::new().register(PRICE, C::Price { value: 1.0 }).build();
    let id = components.id(PRICE);
    let old = components.replace(id, C::Price { value: 2.0 });
    assert_eq!(price(&old), 1.0);
    assert_eq!(price(components.get(id)), 2.0);
}

// -- Drivers ----------------------------------------------------------------

#[derive(Clone, Debug, PartialEq)]
enum D {
    Timer { hz: u32 },
    Io { name: &'static str },
    Net { mtu: usize },
    Shared(Arc<u32>),
}

const TIMER: u64 = 10;
const IO: u64 = 11;
const NET: u64 = 12;
const DSHARED: u64 = 13;

fn hz(d: &D) -> u32 {
    match d {
        D::Timer { hz } => *hz,
        _ => panic!("not a timer"),
    }
}

#[test]
fn drivers_register_and_build() {
    let drivers = DriversBuilder::<D>::new()
        .register(TIMER, D::Timer { hz: 1000 })
        .register(IO, D::Io { name: "epoll" })
        .build();
    assert_eq!(drivers.len(), 2);
}

#[test]
fn driver_ids_are_sequential() {
    let drivers = DriversBuilder::<D>::new()
        .register(TIMER, D::Timer { hz: 0 })
        .register(IO, D::Io { name: "" })
        .register(NET, D::Net { mtu: 0 })
        .build();
    assert_eq!(drivers.id(TIMER), DriverId(0));
    assert_eq!(drivers.id(IO), DriverId(1));
    assert_eq!(drivers.id(NET), DriverId(2));
}

#[test]
fn drivers_get_returns_registered_value() {
    let drivers = DriversBuilder::<D>::new().register(TIMER, D::Timer { hz: 500 }).build();
    let id = drivers.id(TIMER);
    assert_eq!(hz(drivers.get(id)), 500);
}

#[test]
fn drivers_get_mut_modifies_value() {
    let mut drivers = DriversBuilder::<D>::new().register(TIMER, D::Timer { hz: 1 }).build();
    let id = drivers.id(TIMER);
    *drivers.get_mut(id) = D::Timer { hz: 9999 };
    assert_eq!(hz(drivers.get(id)), 9999);
}

#[test]
fn empty_builder_builds_empty_drivers() {
    let drivers = DriversBuilder::<D>::new().build();
    assert_eq!(drivers.len(), 0);
    assert!(drivers.is_empty());
}

#[test]
fn drivers_drop_runs_destructors() {
    let arc = Arc::new(42u32);
    let weak: Weak<u32> = Arc::downgrade(&arc);
    {
        let _drivers = DriversBuilder::<D>::new().register(DSHARED, D::Shared(arc)).build();
        assert!(weak.upgrade().is_some());
    }
    assert!(weak.upgrade().is_none());
}

#[test]
fn drivers_builder_drop_cleans_up_without_build() {
    let arc = Arc::new(99u32);
    let weak: Weak<u32> = Arc::downgrade(&arc);
    {
        let _builder = DriversBuilder::<D>::new().register(DSHARED, D::Shared(arc));
    }
    assert!(weak.upgrade().is_none());
}
