//! Configuration requests: what goes to the dongle's vendor control endpoint.

use vstd::prelude::*;
use crate::settings::{Datarate, Power};

verus! {

/// `bmRequestType` of every configuration request: vendor, host to device.
pub const REQUEST_TYPE: u8 = 0x40;

/// `wIndex` of every configuration request.
pub const REQUEST_INDEX: u16 = 0;

/// Longest acknowledgement payload, in bytes, that the auto-retry delay can be sized for.
pub const MAX_ARD_BYTES: u8 = 32;

/// Highest auto-retry count.
pub const MAX_ARC: usize = 15;

/// Length of one auto-retry delay step, in milliseconds.
pub const ARD_STEP_MS: u128 = 250;

/// Longest auto-retry delay, in milliseconds.
pub const MAX_ARD_MS: u128 = 4000;

/// Highest loss percentage of the packet-loss simulation.
pub const MAX_LOSS_PERCENT: u8 = 100;

/// The vendor requests the dongle understands.
#[derive(Debug, Clone, Copy, PartialEq, Eq, Structural)]
pub enum UsbCommand {
    SetRadioChannel,
    SetRadioAddress,
    SetDataRate,
    SetRadioPower,
    SetRadioArd,
    SetRadioArc,
    AckEnable,
    SetContCarrier,
    SetInlineMode,
    SetPacketLossSimulation,
    LaunchBootloader,
}

impl UsbCommand {
    /// The request code (`bRequest`) of this command.
    pub open spec fn spec_code(self) -> u8 {
        match self {
            UsbCommand::SetRadioChannel => 0x01,
            UsbCommand::SetRadioAddress => 0x02,
            UsbCommand::SetDataRate => 0x03,
            UsbCommand::SetRadioPower => 0x04,
            UsbCommand::SetRadioArd => 0x05,
            UsbCommand::SetRadioArc => 0x06,
            UsbCommand::AckEnable => 0x10,
            UsbCommand::SetContCarrier => 0x20,
            UsbCommand::SetInlineMode => 0x23,
            UsbCommand::SetPacketLossSimulation => 0x30,
            UsbCommand::LaunchBootloader => 0xff,
        }
    }

    /// The request code (`bRequest`) of this command.
    #[verifier::when_used_as_spec(spec_code)]
    pub fn code(self) -> (c: u8)
        ensures
            c == self.spec_code(),
    {
        match self {
            UsbCommand::SetRadioChannel => 0x01,
            UsbCommand::SetRadioAddress => 0x02,
            UsbCommand::SetDataRate => 0x03,
            UsbCommand::SetRadioPower => 0x04,
            UsbCommand::SetRadioArd => 0x05,
            UsbCommand::SetRadioArc => 0x06,
            UsbCommand::AckEnable => 0x10,
            UsbCommand::SetContCarrier => 0x20,
            UsbCommand::SetInlineMode => 0x23,
            UsbCommand::SetPacketLossSimulation => 0x30,
            UsbCommand::LaunchBootloader => 0xff,
        }
    }
}

/// One configuration request, ready to be written to the control endpoint with
/// [`REQUEST_TYPE`] and [`REQUEST_INDEX`].
#[derive(Debug, Clone, PartialEq, Eq)]
pub struct ControlRequest {
    /// Which setting the request writes.
    pub command: UsbCommand,
    /// The `wValue` field.
    pub value: u16,
    /// The data stage.
    pub data: Vec<u8>,
}

/// A configuration request as a mathematical value.
pub struct ControlRequestView {
    pub command: UsbCommand,
    pub value: int,
    pub data: Seq<u8>,
}

impl View for ControlRequest {
    type V = ControlRequestView;

    open spec fn view(&self) -> ControlRequestView {
        ControlRequestView { command: self.command, value: self.value as int, data: self.data@ }
    }
}

/// A list of requests as mathematical values.
pub open spec fn request_views(requests: Seq<ControlRequest>) -> Seq<ControlRequestView> {
    requests.map_values(|r: ControlRequest| r@)
}

/// 1 for `true`, 0 for `false`.
pub open spec fn flag(on: bool) -> int {
    if on {
        1
    } else {
        0
    }
}

/// A request that carries `value` and no data.
pub open spec fn plain_request(command: UsbCommand, value: int) -> ControlRequestView {
    ControlRequestView { command, value, data: Seq::empty() }
}

/// Tunes the radio to channel `number`.
pub open spec fn channel_request(number: int) -> ControlRequestView {
    plain_request(UsbCommand::SetRadioChannel, number)
}

/// Sets the address packets are sent to.
pub open spec fn address_request(address: Seq<u8>) -> ControlRequestView {
    ControlRequestView { command: UsbCommand::SetRadioAddress, value: 0, data: address }
}

/// Sets the air datarate.
pub open spec fn datarate_request(datarate: Datarate) -> ControlRequestView {
    plain_request(UsbCommand::SetDataRate, datarate.spec_code() as int)
}

/// Sets the transmit power.
pub open spec fn power_request(power: Power) -> ControlRequestView {
    plain_request(UsbCommand::SetRadioPower, power.spec_code() as int)
}

/// Sets the auto-retry delay to the step that `delay_ms` milliseconds fall in.
pub open spec fn ard_time_request(delay_ms: int) -> ControlRequestView {
    plain_request(UsbCommand::SetRadioArd, delay_ms / 250 - 1)
}

/// Sets the auto-retry delay to what an acknowledgement payload of `nbytes` bytes needs.
pub open spec fn ard_bytes_request(nbytes: int) -> ControlRequestView {
    plain_request(UsbCommand::SetRadioArd, 0x80 + nbytes)
}

/// Sets how many times a packet is sent again when no acknowledgement comes.
pub open spec fn arc_request(arc: int) -> ControlRequestView {
    plain_request(UsbCommand::SetRadioArc, arc)
}

/// Switches waiting for acknowledgements on or off.
pub open spec fn ack_enable_request(enable: bool) -> ControlRequestView {
    plain_request(UsbCommand::AckEnable, flag(enable))
}

/// Switches the continuous carrier on or off.
pub open spec fn cont_carrier_request(enable: bool) -> ControlRequestView {
    plain_request(UsbCommand::SetContCarrier, flag(enable))
}

/// Switches inline framing on or off.
pub open spec fn inline_mode_request(enable: bool) -> ControlRequestView {
    plain_request(UsbCommand::SetInlineMode, flag(enable))
}

/// Sets the share of packets and of acknowledgements that the dongle drops on purpose.
pub open spec fn packet_loss_request(packet_loss: u8, ack_loss: u8) -> ControlRequestView {
    ControlRequestView {
        command: UsbCommand::SetPacketLossSimulation,
        value: 0,
        data: seq![packet_loss, ack_loss],
    }
}

/// Restarts the dongle in its bootloader.
pub open spec fn bootloader_request() -> ControlRequestView {
    plain_request(UsbCommand::LaunchBootloader, 0)
}

impl ControlRequest {
    /// A request that carries `value` and no data.
    pub fn new(command: UsbCommand, value: u16) -> (r: ControlRequest)
        ensures
            r@ == plain_request(command, value as int),
    {
        ControlRequest { command, value, data: Vec::new() }
    }

    /// A request that carries `data` and the value 0.
    pub fn with_data(command: UsbCommand, data: &[u8]) -> (r: ControlRequest)
        ensures
            r@ == (ControlRequestView { command, value: 0, data: data@ }),
    {
        let mut bytes: Vec<u8> = Vec::new();
        bytes.extend_from_slice(data);
        assert(bytes@ =~= data@);
        ControlRequest { command, value: 0, data: bytes }
    }

    /// Whether a failure of this request is to be ignored: true of the request that
    /// switches inline framing on, which older firmware does not know and can do
    /// without.
    pub open spec fn spec_best_effort(&self) -> bool {
        self.command == UsbCommand::SetInlineMode && self.value != 0
    }

    /// Whether a failure of this request is to be ignored: true of the request that
    /// switches inline framing on, which older firmware does not know and can do
    /// without.
    #[verifier::when_used_as_spec(spec_best_effort)]
    pub fn best_effort(&self) -> (b: bool)
        ensures
            b == self.spec_best_effort(),
    {
        self.command == UsbCommand::SetInlineMode && self.value != 0
    }
}

} // verus!
