//! How a dongle is told from other USB devices, and how one of several is
//! picked.

use vstd::prelude::*;

verus! {

/// USB vendor id of the dongle.
pub const VENDOR_ID: u16 = 0x1915;

/// USB product id of the dongle.
pub const PRODUCT_ID: u16 = 0x7777;

/// Endpoint that packets are written to.
pub const BULK_OUT_ENDPOINT: u8 = 0x01;

/// Endpoint that replies are read from.
pub const BULK_IN_ENDPOINT: u8 = 0x81;

/// How long one USB transfer may take, in milliseconds.
pub const TRANSFER_TIMEOUT_MS: u64 = 1000;

/// Whether a USB device with these ids is a dongle.
pub open spec fn spec_is_crazyradio(vendor_id: u16, product_id: u16) -> bool {
    vendor_id == 0x1915 && product_id == 0x7777
}

/// Whether a USB device with these ids is a dongle.
#[verifier::when_used_as_spec(spec_is_crazyradio)]
pub fn is_crazyradio(vendor_id: u16, product_id: u16) -> (b: bool)
    ensures
        b == spec_is_crazyradio(vendor_id, product_id),
{
    vendor_id == VENDOR_ID && product_id == PRODUCT_ID
}

/// Version of a dongle's firmware, as its device descriptor reports it.
#[derive(Debug, Clone, Copy, PartialEq, Eq, Structural)]
pub struct FirmwareVersion {
    pub major: u8,
    pub minor: u8,
}

impl FirmwareVersion {
    /// Whether the firmware is version 0.5 or later, the oldest the driver works with.
    pub open spec fn spec_supported(self) -> bool {
        self.major > 0 || self.minor >= 5
    }

    /// Whether the firmware is version 0.5 or later, the oldest the driver works with.
    #[verifier::when_used_as_spec(spec_supported)]
    pub fn supported(self) -> (b: bool)
        ensures
            b == self.spec_supported(),
    {
        self.major > 0 || self.minor >= 5
    }

    /// Whether the firmware can drop packets on purpose: version 0.5 or later.
    pub open spec fn spec_simulates_packet_loss(self) -> bool {
        self.major > 0 || self.minor >= 5
    }

    /// Whether the firmware can drop packets on purpose: version 0.5 or later.
    #[verifier::when_used_as_spec(spec_simulates_packet_loss)]
    pub fn simulates_packet_loss(self) -> (b: bool)
        ensures
            b == self.spec_simulates_packet_loss(),
    {
        self.major > 0 || self.minor >= 5
    }
}

/// Which of the connected dongles to open.
#[derive(Debug, Clone, PartialEq, Eq)]
pub enum Selector {
    /// The first one the system lists.
    First,
    /// The one at this position among the dongles the system lists, counted from 0.
    Nth(usize),
    /// The one with this serial number.
    Serial(String),
}

impl Selector {
    /// Whether the choice depends on the dongles' serial numbers.
    pub open spec fn spec_needs_serial(&self) -> bool {
        self is Serial
    }

    /// Whether the choice depends on the dongles' serial numbers.
    #[verifier::when_used_as_spec(spec_needs_serial)]
    pub fn needs_serial(&self) -> (b: bool)
        ensures
            b == self.spec_needs_serial(),
    {
        match self {
            Selector::Serial(_) => true,
            _ => false,
        }
    }

    /// Whether the dongle at `position` among those listed may be the one.
    pub open spec fn spec_accepts_position(&self, position: usize) -> bool {
        match self {
            Selector::First => position == 0,
            Selector::Nth(nth) => position == *nth,
            Selector::Serial(_) => true,
        }
    }

    /// Whether the dongle at `position` among those listed may be the one.
    #[verifier::when_used_as_spec(spec_accepts_position)]
    pub fn accepts_position(&self, position: usize) -> (b: bool)
        ensures
            b == self.spec_accepts_position(position),
    {
        match self {
            Selector::First => position == 0,
            Selector::Nth(nth) => position == *nth,
            Selector::Serial(_) => true,
        }
    }

    /// Whether a dongle with this serial number may be the one.
    pub open spec fn spec_accepts_serial(&self, serial: &String) -> bool {
        match self {
            Selector::Serial(wanted) => wanted@ == serial@,
            _ => true,
        }
    }

    /// Whether a dongle with this serial number may be the one.
    #[verifier::when_used_as_spec(spec_accepts_serial)]
    pub fn accepts_serial(&self, serial: &String) -> (b: bool)
        ensures
            b == self.spec_accepts_serial(serial),
    {
        match self {
            Selector::Serial(wanted) => *wanted == *serial,
            _ => true,
        }
    }
}

} // verus!
