use std::cell::RefCell;
use std::rc::Rc;

use crazyradio::capture::{DIRECTION_RX, DIRECTION_TX};
use crazyradio::{
    capture_packet, clear_callback, set_callback, Ack, CaptureSlot, Channel, Crazyradio,
    FirmwareVersion,
};

type Seen = Rc<RefCell<Vec<(u8, u8, [u8; 5], u8, Vec<u8>)>>>;

fn recorder(seen: &Seen) -> Box<dyn Fn(u8, u8, &[u8; 5], u8, &[u8])> {
    let seen = seen.clone();
    Box::new(move |direction, channel, address, radio_index, data| {
        seen.borrow_mut().push((direction, channel, *address, radio_index, data.to_vec()));
    })
}

#[test]
fn directions() {
    assert_eq!(DIRECTION_TX, 0);
    assert_eq!(DIRECTION_RX, 1);
}

#[test]
fn empty_slot_shows_nothing() {
    let slot: CaptureSlot<Box<dyn Fn(u8, u8, &[u8; 5], u8, &[u8])>> = CaptureSlot::new();
    assert!(!slot.is_set());
    capture_packet(&slot, DIRECTION_TX, 1, &[0; 5], 0, &[1, 2, 3]);
}

#[test]
fn callback_sees_every_packet() {
    let seen: Seen = Rc::new(RefCell::new(vec![]));
    let mut slot = CaptureSlot::new();
    set_callback(&mut slot, recorder(&seen));
    assert!(slot.is_set());
    capture_packet(&slot, DIRECTION_TX, 42, &[1, 2, 3, 4, 5], 0, &[0xff]);
    capture_packet(&slot, DIRECTION_RX, 42, &[1, 2, 3, 4, 5], 0, &[0x01, 0x02]);
    assert_eq!(
        *seen.borrow(),
        vec![
            (DIRECTION_TX, 42, [1, 2, 3, 4, 5], 0, vec![0xff]),
            (DIRECTION_RX, 42, [1, 2, 3, 4, 5], 0, vec![0x01, 0x02]),
        ]
    );
}

#[test]
fn cleared_slot_shows_nothing() {
    let seen: Seen = Rc::new(RefCell::new(vec![]));
    let mut slot = CaptureSlot::new();
    set_callback(&mut slot, recorder(&seen));
    clear_callback(&mut slot);
    assert!(!slot.is_set());
    capture_packet(&slot, DIRECTION_TX, 42, &[1, 2, 3, 4, 5], 3, &[0xff]);
    assert!(seen.borrow().is_empty());
}

#[test]
fn second_callback_takes_the_place_of_the_first() {
    let first: Seen = Rc::new(RefCell::new(vec![]));
    let second: Seen = Rc::new(RefCell::new(vec![]));
    let mut slot = CaptureSlot::new();
    set_callback(&mut slot, recorder(&first));
    set_callback(&mut slot, recorder(&second));
    capture_packet(&slot, DIRECTION_RX, 7, &[9; 5], 1, &[]);
    assert!(first.borrow().is_empty());
    assert_eq!(*second.borrow(), vec![(DIRECTION_RX, 7, [9; 5], 1, vec![])]);
}

fn radio_on(channel: u8, address: [u8; 5]) -> Crazyradio {
    let mut radio = Crazyradio::new(FirmwareVersion { major: 0, minor: 5 }).unwrap();
    let request = radio.set_channel(Channel::from_number(channel).unwrap()).unwrap();
    radio.confirm(&request);
    let request = radio.set_address(&address).unwrap();
    radio.confirm(&request);
    radio
}

#[test]
fn session_shows_what_it_sends_and_receives() {
    let seen: Seen = Rc::new(RefCell::new(vec![]));
    let mut slot = CaptureSlot::new();
    set_callback(&mut slot, recorder(&seen));
    let radio = radio_on(42, [1, 2, 3, 4, 5]);

    radio.capture_sent(&slot, 3, &[0xff, 0x01]);
    let mut ack_data = [0u8; 32];
    let ack = radio.receive_ack(&[0x01, 7, 8, 9], &mut ack_data).unwrap();
    radio.capture_received(&slot, 3, &ack, &ack_data);

    assert_eq!(
        *seen.borrow(),
        vec![
            (DIRECTION_TX, 42, [1, 2, 3, 4, 5], 3, vec![0xff, 0x01]),
            (DIRECTION_RX, 42, [1, 2, 3, 4, 5], 3, vec![7, 8, 9]),
        ]
    );
}

#[test]
fn session_shows_nothing_for_a_packet_without_acknowledgement() {
    let seen: Seen = Rc::new(RefCell::new(vec![]));
    let mut slot = CaptureSlot::new();
    set_callback(&mut slot, recorder(&seen));
    let radio = radio_on(42, [1, 2, 3, 4, 5]);

    let mut ack_data = [0u8; 32];
    let ack = radio.receive_ack(&[0x00], &mut ack_data).unwrap();
    radio.capture_received(&slot, 0, &ack, &ack_data);
    assert!(seen.borrow().is_empty());

    let long = Ack { received: true, power_detector: false, retry: 0, length: 9, rssi_dbm: None };
    radio.capture_received(&slot, 0, &long, &[5, 6]);
    assert_eq!(*seen.borrow(), vec![(DIRECTION_RX, 42, [1, 2, 3, 4, 5], 0, vec![5, 6])]);
}

#[test]
fn session_without_observer_shows_nothing() {
    let slot: CaptureSlot<Box<dyn Fn(u8, u8, &[u8; 5], u8, &[u8])>> = CaptureSlot::new();
    let radio = radio_on(1, [0; 5]);
    radio.capture_sent(&slot, 0, &[1]);
    let ack = Ack { received: true, power_detector: false, retry: 0, length: 1, rssi_dbm: None };
    radio.capture_received(&slot, 0, &ack, &[1]);
}
