//! What a radio shared by several users is asked to do, and what it answers.
//!
//! One worker owns the session and serves the commands one at a time, each to
//! its end before the next. This module holds what the worker decides for a
//! command; the queue that brings the commands and takes the answers is the
//! worker's own.

use vstd::prelude::*;
use crate::ack::Ack;
use crate::channel::Channel;
use crate::radio::{Crazyradio, RadioView};
use crate::request::{
    ack_enable_request, address_request, channel_request, request_views, ControlRequest,
    ControlRequestView,
};

verus! {

/// One thing to do with the radio.
#[derive(Debug, Clone)]
pub enum RadioCommand {
    /// Send one packet and wait for its acknowledgement.
    SendPacket { channel: Channel, address: [u8; 5], payload: Vec<u8> },
    /// Send one packet that nobody answers.
    SendPacketNoAck { channel: Channel, address: [u8; 5], payload: Vec<u8> },
    /// Probe every channel of a range and report those that answer.
    Scan { start: Channel, stop: Channel, address: [u8; 5], payload: Vec<u8> },
}

/// The answer to [`RadioCommand::SendPacket`].
#[derive(Debug, Clone)]
pub struct SendPacketResult {
    /// Whether the packet was acknowledged.
    pub acked: bool,
    /// The payload of the acknowledgement.
    pub payload: Vec<u8>,
}

/// The answer to [`RadioCommand::Scan`].
#[derive(Debug, Clone)]
pub struct ScanResult {
    /// The channels on which the probe was acknowledged, in ascending order.
    pub found: Vec<Channel>,
}

/// `request` if a setter has to write it, nothing otherwise.
pub open spec fn due(radio: RadioView, unchanged: bool, request: ControlRequestView) -> Seq<
    ControlRequestView,
> {
    if radio.must_write(unchanged) {
        seq![request]
    } else {
        Seq::empty()
    }
}

impl RadioCommand {
    /// The channel the command wants the radio on, if it names one.
    pub open spec fn channel(&self) -> Option<int> {
        match self {
            RadioCommand::SendPacket { channel, .. } => Some(channel@),
            RadioCommand::SendPacketNoAck { channel, .. } => Some(channel@),
            RadioCommand::Scan { .. } => None,
        }
    }

    /// The address the command's packets go to.
    pub open spec fn address(&self) -> Seq<u8> {
        match self {
            RadioCommand::SendPacket { address, .. } => address@,
            RadioCommand::SendPacketNoAck { address, .. } => address@,
            RadioCommand::Scan { address, .. } => address@,
        }
    }

    /// Whether the command wants the radio to wait for acknowledgements, if it
    /// has a say.
    pub open spec fn ack_enable(&self) -> Option<bool> {
        match self {
            RadioCommand::SendPacket { .. } => Some(true),
            RadioCommand::SendPacketNoAck { .. } => Some(false),
            RadioCommand::Scan { .. } => None,
        }
    }

    /// What is to be written to a dongle in the state `radio` before the
    /// command's first packet: the channel, the address and whether to wait
    /// for acknowledgements, each where the command names it and the session
    /// has to write it.
    pub open spec fn requests(&self, radio: RadioView) -> Seq<ControlRequestView> {
        let for_channel = match self.channel() {
            Some(number) => due(radio, radio.settings.channel == number, channel_request(number)),
            None => Seq::empty(),
        };
        let for_address = due(
            radio,
            radio.settings.address == self.address(),
            address_request(self.address()),
        );
        let for_ack = match self.ack_enable() {
            Some(enable) => due(
                radio,
                radio.settings.ack_enable == enable,
                ack_enable_request(enable),
            ),
            None => Seq::empty(),
        };
        for_channel + for_address + for_ack
    }

    /// The session once the command's settings were asked of it.
    pub open spec fn prepared(&self, radio: RadioView) -> RadioView {
        let with_channel = match self.channel() {
            Some(number) => radio.noted(channel_request(number)),
            None => radio,
        };
        let with_address = with_channel.noted(address_request(self.address()));
        match self.ack_enable() {
            Some(enable) => with_address.noted(ack_enable_request(enable)),
            None => with_address,
        }
    }

    /// The payload of the command's packets.
    pub open spec fn spec_payload(&self) -> Seq<u8> {
        match self {
            RadioCommand::SendPacket { payload, .. } => payload@,
            RadioCommand::SendPacketNoAck { payload, .. } => payload@,
            RadioCommand::Scan { payload, .. } => payload@,
        }
    }

    /// The payload of the command's packets.
    pub fn payload(&self) -> (payload: &Vec<u8>)
        ensures
            payload@ == self.spec_payload(),
    {
        match self {
            RadioCommand::SendPacket { payload, .. } => payload,
            RadioCommand::SendPacketNoAck { payload, .. } => payload,
            RadioCommand::Scan { payload, .. } => payload,
        }
    }

    /// Asks the session for the settings the command needs, and returns what is
    /// to be written to the dongle before the command's first packet, in order.
    /// A packet that waits for its acknowledgement has the waiting switched on,
    /// one that nobody answers has it switched off.
    pub fn prepare(&self, radio: &mut Crazyradio) -> (requests: Vec<ControlRequest>)
        ensures
            request_views(requests@) == self.requests(old(radio)@),
            final(radio)@ == self.prepared(old(radio)@),
    {
        let mut requests: Vec<ControlRequest> = Vec::new();
        let ghost before = radio@;
        proof {
            assert(request_views(requests@) =~= Seq::empty());
        }
        match self {
            RadioCommand::SendPacket { channel, address, .. } => {
                push_due(&mut requests, radio.set_channel(*channel));
                push_due(&mut requests, radio.set_address(address));
                push_due(&mut requests, radio.set_ack_enable(true));
            },
            RadioCommand::SendPacketNoAck { channel, address, .. } => {
                push_due(&mut requests, radio.set_channel(*channel));
                push_due(&mut requests, radio.set_address(address));
                push_due(&mut requests, radio.set_ack_enable(false));
            },
            RadioCommand::Scan { address, .. } => {
                push_due(&mut requests, radio.set_address(address));
            },
        }
        assert(request_views(requests@) =~= self.requests(before));
        requests
    }
}

/// Appends `request`, if there is one.
fn push_due(requests: &mut Vec<ControlRequest>, request: Option<ControlRequest>)
    ensures
        request_views(final(requests)@) == request_views(old(requests)@) + match request {
            Some(r) => seq![r@],
            None => Seq::empty(),
        },
{
    match request {
        Some(r) => {
            requests.push(r);
            assert(request_views(requests@) =~= request_views(old(requests)@) + seq![r@]);
        },
        None => {
            assert(request_views(requests@) =~= request_views(old(requests)@) + Seq::empty());
        },
    }
}

impl SendPacketResult {
    /// The worker's answer for a packet: whether it was acknowledged, and the
    /// part of `ack_data` that the acknowledgement filled.
    pub fn new(ack: &Ack, ack_data: Vec<u8>) -> (result: SendPacketResult)
        ensures
            result.acked == ack.received,
            result.payload@ == if ack.length <= ack_data@.len() {
                ack_data@.take(ack.length as int)
            } else {
                ack_data@
            },
    {
        let mut payload = ack_data;
        if ack.length < payload.len() {
            payload.truncate(ack.length);
        }
        proof {
            if ack.length == ack_data@.len() {
                assert(ack_data@.take(ack.length as int) =~= ack_data@);
            }
        }
        SendPacketResult { acked: ack.received, payload }
    }

    /// What the sender of the packet is told: an acknowledgement that says
    /// whether one was received and how long its payload is, and the payload.
    pub fn into_ack(self) -> (answer: (Ack, Vec<u8>))
        ensures
            answer.0 == (Ack {
                received: self.acked,
                power_detector: false,
                retry: 0,
                length: self.payload@.len() as usize,
                rssi_dbm: None,
            }),
            answer.1@ == self.payload@,
    {
        let length = self.payload.len();
        (
            Ack {
                received: self.acked,
                power_detector: false,
                retry: 0,
                length,
                rssi_dbm: None,
            },
            self.payload,
        )
    }
}

} // verus!
