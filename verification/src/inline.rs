//! Inline framing: the header that carries the radio settings in front of
//! every packet.

use vstd::prelude::*;
use crate::channel::Channel;
use crate::settings::Datarate;

verus! {

/// Length of the header in front of an outbound packet, in bytes.
pub const OUT_HEADER_LENGTH: usize = 8;

/// Length of the header in front of an inbound reply, in bytes.
pub const IN_HEADER_LENGTH: usize = 2;

/// Bit of the flags byte that says that the radio waits for an acknowledgement.
pub const FLAG_ACK_ENABLE: u8 = 0x10;

/// Bits of the flags byte that hold the datarate.
pub const FLAG_DATARATE_MASK: u8 = 0x03;

/// The header of an outbound packet.
#[derive(Debug, Clone, Copy)]
pub struct InlineHeader {
    /// Length of the whole frame, header and payload.
    pub length: u8,
    pub datarate: Datarate,
    pub ack_enable: bool,
    pub channel: Channel,
    pub address: [u8; 5],
}

/// An outbound header as a mathematical value.
pub struct InlineHeaderView {
    pub length: int,
    pub datarate: Datarate,
    pub ack_enable: bool,
    pub channel: int,
    pub address: Seq<u8>,
}

impl View for InlineHeader {
    type V = InlineHeaderView;

    open spec fn view(&self) -> InlineHeaderView {
        InlineHeaderView {
            length: self.length as int,
            datarate: self.datarate,
            ack_enable: self.ack_enable,
            channel: self.channel@,
            address: self.address@,
        }
    }
}

/// The flags byte: the datarate in bits 0 and 1, the acknowledgement flag in bit 4.
pub open spec fn flags_byte(datarate: Datarate, ack_enable: bool) -> u8 {
    datarate.spec_code() | if ack_enable {
        0x10u8
    } else {
        0u8
    }
}

impl InlineHeaderView {
    /// Whether every field holds a value that the header has room for.
    pub open spec fn valid(self) -> bool {
        &&& 0 <= self.length <= 255
        &&& 0 <= self.channel <= 125
        &&& self.address.len() == 5
    }

    /// The eight bytes of the header: length, flags, channel, address.
    pub open spec fn encode(self) -> Seq<u8> {
        seq![self.length as u8, flags_byte(self.datarate, self.ack_enable), self.channel as u8]
            + self.address
    }

    /// The header that `bytes` start with, if they start with one: eight bytes
    /// that name a datarate and a channel.
    pub open spec fn decode(bytes: Seq<u8>) -> Option<InlineHeaderView> {
        if bytes.len() < 8 || bytes[2] > 125 {
            None
        } else {
            match Datarate::spec_from_code((bytes[1] & 0x03) as int) {
                Some(datarate) => Some(
                    InlineHeaderView {
                        length: bytes[0] as int,
                        datarate,
                        ack_enable: bytes[1] & 0x10 != 0,
                        channel: bytes[2] as int,
                        address: bytes.subrange(3, 8),
                    },
                ),
                None => None,
            }
        }
    }
}

/// What the flags byte gives back: the datarate and the acknowledgement flag
/// that it was made of.
pub proof fn lemma_flags_byte(datarate: Datarate, ack_enable: bool)
    ensures
        Datarate::spec_from_code((flags_byte(datarate, ack_enable) & 0x03) as int) == Some(
            datarate,
        ),
        (flags_byte(datarate, ack_enable) & 0x10 != 0) == ack_enable,
{
    let code = datarate.spec_code();
    let bit: u8 = if ack_enable {
        0x10u8
    } else {
        0u8
    };
    assert(code <= 2 && (bit == 0 || bit == 0x10) ==> ((code | bit) & 0x03) == code && (((code
        | bit) & 0x10) != 0) == (bit == 0x10)) by (bit_vector);
}

/// A header that is encoded and decoded again comes back unchanged.
pub proof fn lemma_header_round_trip(header: InlineHeaderView)
    requires
        header.valid(),
    ensures
        InlineHeaderView::decode(header.encode()) == Some(header),
{
    lemma_flags_byte(header.datarate, header.ack_enable);
    let bytes = header.encode();
    assert(bytes.len() == 8);
    assert(bytes[0] == header.length as u8);
    assert(bytes[1] == flags_byte(header.datarate, header.ack_enable));
    assert(bytes[2] == header.channel as u8);
    assert(bytes.subrange(3, 8) =~= header.address);
}

impl InlineHeader {
    /// Writes the header down as the eight bytes that go in front of the payload.
    pub fn encode(&self) -> (bytes: Vec<u8>)
        ensures
            bytes@ == self@.encode(),
            self@.valid(),
    {
        let flags: u8 = self.datarate.code() | if self.ack_enable {
            FLAG_ACK_ENABLE
        } else {
            0
        };
        let mut bytes: Vec<u8> = Vec::new();
        bytes.push(self.length);
        bytes.push(flags);
        bytes.push(self.channel.number());
        bytes.extend_from_slice(self.address.as_slice());
        assert(bytes@ =~= self@.encode());
        bytes
    }

    /// Reads the header that `bytes` start with. There is none in fewer than
    /// eight bytes, nor where the datarate bits or the channel byte hold a value
    /// that stands for nothing.
    pub fn decode(bytes: &[u8]) -> (header: Option<InlineHeader>)
        ensures
            header is Some <==> InlineHeaderView::decode(bytes@) is Some,
            header matches Some(h) ==> Some(h@) == InlineHeaderView::decode(bytes@),
    {
        if bytes.len() < OUT_HEADER_LENGTH {
            return None;
        }
        let channel = match Channel::from_number(bytes[2]) {
            Ok(channel) => channel,
            Err(_) => {
                return None;
            },
        };
        let datarate = match Datarate::from_code((bytes[1] & FLAG_DATARATE_MASK) as u16) {
            Some(datarate) => datarate,
            None => {
                return None;
            },
        };
        let address: [u8; 5] = [bytes[3], bytes[4], bytes[5], bytes[6], bytes[7]];
        assert(address@ =~= bytes@.subrange(3, 8));
        Some(
            InlineHeader {
                length: bytes[0],
                datarate,
                ack_enable: bytes[1] & FLAG_ACK_ENABLE != 0,
                channel,
                address,
            },
        )
    }
}

} // verus!
