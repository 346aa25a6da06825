use tryx::dispatch::{dispatch_event_name, DispatchError, DispatchEvent, Dispatcher, EVENT_KINDS};

#[test]
fn registration_needs_a_selected_event() {
    let mut d: Dispatcher<&'static str> = Dispatcher::new();
    assert_eq!(d.register("f"), Err(DispatchError::NoPendingEvent));
    assert_eq!(DispatchError::NoPendingEvent.message(), "on(event_type) must be called before registering callback");
    d.on(DispatchEvent::Message);
    assert_eq!(d.register("on_message"), Ok("on_message"));
    assert_eq!(d.register("again"), Err(DispatchError::NoPendingEvent));
    assert_eq!(d.message_handlers(), &vec!["on_message"]);
    assert_eq!(d.handler_count(DispatchEvent::Connected), 0);
}

#[test]
fn handlers_keep_registration_order_per_event() {
    let mut d: Dispatcher<u32> = Dispatcher::empty();
    d.on(DispatchEvent::PairingQrCode);
    assert_eq!(d.register(1), Ok(1));
    d.on(DispatchEvent::LoggedOut);
    d.register(2).unwrap();
    d.on(DispatchEvent::PairingQrCode);
    d.register(3).unwrap();
    d.on(DispatchEvent::Connected);
    d.register(4).unwrap();
    assert_eq!(d.pairing_qr_handlers(), &vec![1, 3]);
    assert_eq!(d.logout_handlers(), &vec![2]);
    assert_eq!(d.conneccted_handlers(), &vec![4]);
    assert_eq!(d.handlers_for_event(DispatchEvent::StarUpdate), &Vec::<u32>::new());
    assert_eq!(d.handlers_to_notify(DispatchEvent::StarUpdate), None);
    assert_eq!(d.handlers_to_notify(DispatchEvent::PairingQrCode), Some(&vec![1, 3]));
}

#[test]
fn event_names_and_slots() {
    assert_eq!(EVENT_KINDS, 43);
    assert_eq!(dispatch_event_name(DispatchEvent::QrScannedWithoutMultidevice), "qr_scanned_without_multidevice");
    assert_eq!(dispatch_event_name(DispatchEvent::SelfPushNameUpdated), "self_push_name_updated");
    assert_eq!(dispatch_event_name(DispatchEvent::DeleteMessageForMeUpdate), "delete_message_for_me_update");
    assert_eq!(DispatchEvent::Connected.slot(), 0);
    assert_eq!(DispatchEvent::DeleteMessageForMeUpdate.slot(), 42);
}
