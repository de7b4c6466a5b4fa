use mxchip_wnet::config::DHCP_CLIENT;
use mxchip_wnet::status::MXCHIP_SUCCESS;
use mxchip_wnet::{MxChip, Slot, StatusError};
use std::cell::{Cell, RefCell};

#[test]
fn registration_hands_back_the_previous_handler() {
    let calls = RefCell::new(Vec::new());
    let h1 = |x: i32| calls.borrow_mut().push((1, x));
    let h2 = |x: i32| calls.borrow_mut().push((2, x));
    let h3 = |x: i32| calls.borrow_mut().push((3, x));
    let mut slot: Slot<&dyn Fn(i32)> = Slot::new();

    assert!(slot.register(&h1).is_none());
    let prev = slot.register(&h2).unwrap();
    prev(10);
    let prev = slot.register(&h3).unwrap();
    prev(20);
    assert_eq!(*calls.borrow(), vec![(1, 10), (2, 20)]);

    calls.borrow_mut().clear();
    assert!(slot.invoke(7));
    assert_eq!(*calls.borrow(), vec![(3, 7)]);
    let current = slot.handler().unwrap();
    current(8);
    assert_eq!(*calls.borrow(), vec![(3, 7), (3, 8)]);
}

#[test]
fn invoke_on_empty_slot_does_nothing() {
    let slot: Slot<&dyn Fn(i32)> = Slot::new();
    assert!(!slot.invoke(1));
    assert!(slot.handler().is_none());
}

#[test]
fn categories_are_independent() {
    let hits = Cell::new(0);
    let on_status = |_: Result<(), StatusError>| hits.set(hits.get() + 1);
    let on_text = |_: &str| hits.set(hits.get() + 100);
    let mut status: Slot<&dyn Fn(Result<(), StatusError>)> = Slot::new();
    let text: Slot<&dyn for<'a> Fn(&'a str)> = Slot::new();
    status.register(&on_status);
    assert!(!text.invoke("x"));
    assert!(status.invoke(Ok(())));
    assert_eq!(hits.get(), 1);
    let _ = on_text;
}

#[test]
fn station_mode_then_success_status_reaches_handler_once() {
    let delivered = RefCell::new(Vec::new());
    let on_status = |r: Result<(), StatusError>| delivered.borrow_mut().push(r);
    let mut status: Slot<&dyn Fn(Result<(), StatusError>)> = Slot::new();
    status.register(&on_status);

    let mut chip = MxChip::from_init_status(MXCHIP_SUCCESS).ok().unwrap();
    let config = chip.station_mode("myssid", "mypassword");
    assert_eq!(config.dhcp_mode, DHCP_CLIENT);

    // the engine reports the status through its entry point
    assert!(status.invoke(StatusError::check_error(MXCHIP_SUCCESS)));
    assert_eq!(*delivered.borrow(), vec![Ok(())]);
}
