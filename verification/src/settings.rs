//! Radio parameters and the snapshot of them that a session keeps.

use vstd::prelude::*;
use crate::channel::Channel;

verus! {

/// Air datarate of the radio.
#[derive(Debug, Clone, Copy, PartialEq, Eq, Structural)]
pub enum Datarate {
    /// 250 kbit/s
    Dr250K,
    /// 1 Mbit/s
    Dr1M,
    /// 2 Mbit/s
    Dr2M,
}

impl Datarate {
    /// The number that stands for this datarate on the wire.
    pub open spec fn spec_code(self) -> u8 {
        match self {
            Datarate::Dr250K => 0,
            Datarate::Dr1M => 1,
            Datarate::Dr2M => 2,
        }
    }

    /// The number that stands for this datarate on the wire.
    #[verifier::when_used_as_spec(spec_code)]
    pub fn code(self) -> (c: u8)
        ensures
            c == self.spec_code(),
    {
        match self {
            Datarate::Dr250K => 0,
            Datarate::Dr1M => 1,
            Datarate::Dr2M => 2,
        }
    }

    /// The datarate that `code` stands for, if it stands for one.
    pub open spec fn spec_from_code(code: int) -> Option<Datarate> {
        if code == 0 {
            Some(Datarate::Dr250K)
        } else if code == 1 {
            Some(Datarate::Dr1M)
        } else if code == 2 {
            Some(Datarate::Dr2M)
        } else {
            None
        }
    }

    /// The datarate that `code` stands for, if it stands for one.
    #[verifier::when_used_as_spec(spec_from_code_u16)]
    pub fn from_code(code: u16) -> (d: Option<Datarate>)
        ensures
            d == Datarate::spec_from_code(code as int),
    {
        if code == 0 {
            Some(Datarate::Dr250K)
        } else if code == 1 {
            Some(Datarate::Dr1M)
        } else if code == 2 {
            Some(Datarate::Dr2M)
        } else {
            None
        }
    }

    #[verifier::inline]
    pub open spec fn spec_from_code_u16(code: u16) -> Option<Datarate> {
        Datarate::spec_from_code(code as int)
    }
}

/// Transmit power of the radio.
#[derive(Debug, Clone, Copy, PartialEq, Eq, Structural)]
pub enum Power {
    /// -18 dBm
    Pm18dBm,
    /// -12 dBm
    Pm12dBm,
    /// -6 dBm
    Pm6dBm,
    /// 0 dBm
    P0dBm,
}

impl Power {
    /// The number that stands for this power level on the wire.
    pub open spec fn spec_code(self) -> u8 {
        match self {
            Power::Pm18dBm => 0,
            Power::Pm12dBm => 1,
            Power::Pm6dBm => 2,
            Power::P0dBm => 3,
        }
    }

    /// The number that stands for this power level on the wire.
    #[verifier::when_used_as_spec(spec_code)]
    pub fn code(self) -> (c: u8)
        ensures
            c == self.spec_code(),
    {
        match self {
            Power::Pm18dBm => 0,
            Power::Pm12dBm => 1,
            Power::Pm6dBm => 2,
            Power::P0dBm => 3,
        }
    }
}

/// The settings a session believes the dongle to have.
#[derive(Debug, Clone, Copy)]
pub struct RadioSettings {
    /// Channel packets are sent on.
    pub channel: Channel,
    /// Address packets are sent to.
    pub address: [u8; 5],
    /// Air datarate.
    pub datarate: Datarate,
    /// Whether the radio waits for an acknowledgement after each packet.
    pub ack_enable: bool,
    /// Whether the settings travel in the header of every packet.
    pub inline_mode: bool,
}

/// Radio settings as a mathematical value.
pub struct SettingsView {
    /// Number of the channel.
    pub channel: int,
    /// The address, five bytes long.
    pub address: Seq<u8>,
    pub datarate: Datarate,
    pub ack_enable: bool,
    pub inline_mode: bool,
}

impl View for RadioSettings {
    type V = SettingsView;

    open spec fn view(&self) -> SettingsView {
        SettingsView {
            channel: self.channel@,
            address: self.address@,
            datarate: self.datarate,
            ack_enable: self.ack_enable,
            inline_mode: self.inline_mode,
        }
    }
}

} // verus!
