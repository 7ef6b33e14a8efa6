//! Packet capture: an observer that is shown every payload that goes to the
//! radio or comes from it.
//!
//! The observer sits in a slot that its owner hands to whoever moves packets.
//! It only looks on: nothing it does reaches the protocol.

use vstd::prelude::*;

verus! {

/// Direction: transmit (to the device).
pub const DIRECTION_TX: u8 = 0;

/// Direction: receive (from the device).
pub const DIRECTION_RX: u8 = 1;

/// The place of the observer: empty, or holding one callback.
pub struct CaptureSlot<F> {
    callback: Option<F>,
}

impl<F> View for CaptureSlot<F> {
    type V = Option<F>;

    closed spec fn view(&self) -> Option<F> {
        self.callback
    }
}

impl<F> CaptureSlot<F> {
    /// An empty slot.
    pub fn new() -> (slot: CaptureSlot<F>)
        ensures
            slot@ is None,
    {
        CaptureSlot { callback: None }
    }

    /// Whether the slot holds a callback.
    pub fn is_set(&self) -> (set: bool)
        ensures
            set == (self@ is Some),
    {
        self.callback.is_some()
    }
}

/// Puts `callback` in the slot, in place of the one that was there, if any. It
/// is then called for every packet that is sent or received.
pub fn set_callback<F>(slot: &mut CaptureSlot<F>, callback: F)
    ensures
        final(slot)@ == Some(callback),
{
    slot.callback = Some(callback);
}

/// Empties the slot.
pub fn clear_callback<F>(slot: &mut CaptureSlot<F>)
    ensures
        final(slot)@ is None,
{
    slot.callback = None;
}

/// Shows one packet to the callback, if the slot holds one: the direction, the
/// channel and address it travels on, the radio it belongs to, and its payload.
pub fn capture_packet<F: Fn(u8, u8, &[u8; 5], u8, &[u8])>(
    slot: &CaptureSlot<F>,
    direction: u8,
    channel: u8,
    address: &[u8; 5],
    radio_index: u8,
    data: &[u8],
)
    requires
        slot@ matches Some(callback) ==> call_requires(
            callback,
            (direction, channel, address, radio_index, data),
        ),
    ensures
        slot@ matches Some(callback) ==> call_ensures(
            callback,
            (direction, channel, address, radio_index, data),
            (),
        ),
{
    match &slot.callback {
        Some(callback) => {
            callback(direction, channel, address, radio_index, data);
        },
        None => {},
    }
}

} // verus!
