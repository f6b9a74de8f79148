//! Events of any type.
use async_lsp::event::AnyEvent;
use std::any::TypeId;

struct Tick;

struct Tock;

#[test]
fn an_event_knows_its_type() {
    let e = AnyEvent::new::<Tick>(5u8, "Tick");
    assert!(e.is::<Tick>());
    assert!(!e.is::<Tock>());
    assert_eq!(*e.inner_type_id(), TypeId::of::<Tick>());
    assert_eq!(e.name_of_type(), "Tick");
}

#[test]
fn an_event_is_taken_out_as_its_type() {
    let mut e = AnyEvent::new::<Tick>(5u8, "Tick");
    assert_eq!(e.downcast_ref::<Tick>(), Some(&5));
    assert_eq!(e.downcast_ref::<Tock>(), None);
    assert!(e.downcast_mut::<Tock>().is_none());
    *e.downcast_mut::<Tick>().unwrap() = 6;
    let e = match e.downcast::<Tock>() {
        Ok(_) => panic!("taken out"),
        Err(e) => e,
    };
    assert_eq!(e.name_of_type(), "Tick");
    assert!(matches!(e.downcast::<Tick>(), Ok(6)));
}

#[test]
fn an_event_is_shown_by_the_name_of_its_type() {
    let e = AnyEvent::new::<Tick>((), "a\"b");
    assert_eq!(e.debug(), "AnyEvent { type_name: \"a\\\"b\", .. }");
}
