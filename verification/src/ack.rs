//! Acknowledgements: the status byte, the reply that carries it, and the
//! caller's buffer that takes the payload.

use vstd::prelude::*;
use crate::inline::IN_HEADER_LENGTH;

verus! {

/// Longest payload of a packet or of an acknowledgement, in bytes.
pub const MAX_PAYLOAD: usize = 32;

/// What came back for one packet.
#[derive(Debug, Clone, Copy, PartialEq, Eq, Structural)]
pub struct Ack {
    /// Whether an acknowledgement was received.
    pub received: bool,
    /// The radio's power detector at the time the acknowledgement came in.
    pub power_detector: bool,
    /// How many times the packet was sent again before the acknowledgement came.
    pub retry: usize,
    /// How many bytes of acknowledgement payload are in the caller's buffer.
    pub length: usize,
    /// Signal strength of the acknowledgement, where the dongle reports one.
    pub rssi_dbm: Option<u8>,
}

/// Bit 0 of the status byte: an acknowledgement was received.
pub open spec fn status_received(status: u8) -> bool {
    status & 0x01 != 0
}

/// Bit 1 of the status byte: the power detector.
pub open spec fn status_power_detector(status: u8) -> bool {
    status & 0x02 != 0
}

/// Bits 4 to 7 of the status byte: the retry count.
pub open spec fn status_retry(status: u8) -> int {
    ((status >> 4) & 0x0f) as int
}

/// The retry count is the status byte's upper half, and so at most 15.
pub proof fn lemma_status_retry(status: u8)
    ensures
        status_retry(status) == status / 16,
        0 <= status_retry(status) <= 15,
{
    assert(((status >> 4) & 0x0f) == status / 16) by (bit_vector);
}

/// Number of bytes that stand before the payload in a reply.
pub open spec fn reply_header_length(inline: bool) -> int {
    if inline {
        2
    } else {
        1
    }
}

/// Where the reply's frame ends: an inline reply says so in its first byte, a
/// discrete reply ends with what was read.
pub open spec fn reply_end(reply: Seq<u8>, inline: bool) -> int {
    if inline {
        reply[0] as int
    } else {
        reply.len() as int
    }
}

/// Whether `reply` holds a whole frame: its header, and as many bytes as the
/// frame claims to have.
pub open spec fn reply_valid(reply: Seq<u8>, inline: bool) -> bool {
    reply_header_length(inline) <= reply.len() && reply_header_length(inline) <= reply_end(
        reply,
        inline,
    ) <= reply.len()
}

/// The status byte of a reply.
pub open spec fn reply_status(reply: Seq<u8>, inline: bool) -> u8 {
    reply[reply_header_length(inline) - 1]
}

/// The acknowledgement payload of a reply: what follows the header, up to 32 bytes.
pub open spec fn reply_payload(reply: Seq<u8>, inline: bool) -> Seq<u8> {
    let start = reply_header_length(inline);
    let end = reply_end(reply, inline);
    reply.subrange(
        start,
        if end <= start + 32 {
            end
        } else {
            start + 32
        },
    )
}

/// How much of `payload` a buffer of `capacity` bytes takes.
pub open spec fn delivered_length(capacity: int, payload: Seq<u8>) -> int {
    if payload.len() <= capacity {
        payload.len() as int
    } else {
        capacity
    }
}

/// The caller's buffer after it took `payload`: the payload as far as it fits,
/// zeros up to the 32nd byte, and the buffer's own bytes from there on.
pub open spec fn delivered(buffer: Seq<u8>, payload: Seq<u8>) -> Seq<u8> {
    Seq::new(
        buffer.len(),
        |i: int|
            if i < payload.len() {
                payload[i]
            } else if i < 32 {
                0u8
            } else {
                buffer[i]
            },
    )
}

/// A buffer that takes a payload keeps its length. What it takes is the start
/// of the payload, cut to the buffer's length where the buffer is the shorter.
pub proof fn lemma_delivered(buffer: Seq<u8>, payload: Seq<u8>)
    ensures
        delivered(buffer, payload).len() == buffer.len(),
        0 <= delivered_length(buffer.len() as int, payload) <= buffer.len(),
        delivered_length(buffer.len() as int, payload) <= payload.len(),
        delivered(buffer, payload).take(delivered_length(buffer.len() as int, payload))
            == payload.take(delivered_length(buffer.len() as int, payload)),
{
    let length = delivered_length(buffer.len() as int, payload);
    assert(delivered(buffer, payload).take(length) =~= payload.take(length));
}

/// The acknowledgement that a status byte and a payload length stand for.
pub open spec fn ack_of(status: u8, length: int) -> Ack {
    Ack {
        received: status_received(status),
        power_detector: status_power_detector(status),
        retry: status_retry(status) as usize,
        length: length as usize,
        rssi_dbm: None,
    }
}

impl Ack {
    /// Reads a status byte: bit 0 says whether an acknowledgement was received,
    /// bit 1 is the power detector, bits 4 to 7 count the retries.
    pub fn from_status(status: u8, length: usize) -> (ack: Ack)
        ensures
            ack == ack_of(status, length as int),
            ack.received == (status & 0x01 != 0),
            ack.power_detector == (status & 0x02 != 0),
            ack.retry == (status >> 4) & 0x0f,
            ack.retry <= 15,
    {
        proof {
            lemma_status_retry(status);
        }
        Ack {
            received: status & 0x01 != 0,
            power_detector: status & 0x02 != 0,
            retry: ((status >> 4) & 0x0f) as usize,
            length,
            rssi_dbm: None,
        }
    }
}

/// Takes a reply apart. `reply` holds the bytes read from the dongle, in the
/// inline framing if `inline` is set. The acknowledgement payload goes to
/// `ack_data` as far as it fits; a reply that is no whole frame gives `None` and
/// leaves `ack_data` alone.
pub fn decode_reply(reply: &[u8], inline: bool, ack_data: &mut [u8]) -> (ack: Option<Ack>)
    ensures
        ack is Some <==> reply_valid(reply@, inline),
        !reply_valid(reply@, inline) ==> final(ack_data)@ == old(ack_data)@,
        reply_valid(reply@, inline) ==> {
            let payload = reply_payload(reply@, inline);
            &&& final(ack_data)@ == delivered(old(ack_data)@, payload)
            &&& ack == Some(
                ack_of(
                    reply_status(reply@, inline),
                    delivered_length(old(ack_data)@.len() as int, payload),
                ),
            )
        },
        final(ack_data)@.len() == old(ack_data)@.len(),
        ack matches Some(a) ==> a.retry <= 15 && a.length <= 32 && a.length <= old(
            ack_data,
        )@.len(),
{
    let start: usize = if inline {
        IN_HEADER_LENGTH
    } else {
        1
    };
    if reply.len() < start {
        return None;
    }
    let end: usize = if inline {
        reply[0] as usize
    } else {
        reply.len()
    };
    if end < start || end > reply.len() {
        return None;
    }
    let stop: usize = if end - start <= MAX_PAYLOAD {
        end
    } else {
        start + MAX_PAYLOAD
    };
    let ghost before = ack_data@;
    let ghost payload = reply_payload(reply@, inline);
    assert(payload == reply@.subrange(start as int, stop as int));
    let capacity = ack_data.len();
    let fill: usize = if capacity <= MAX_PAYLOAD {
        capacity
    } else {
        MAX_PAYLOAD
    };
    let mut i: usize = 0;
    while i < fill
        invariant
            i <= fill <= capacity,
            fill <= 32,
            capacity == before.len(),
            ack_data@.len() == before.len(),
            start <= stop <= reply@.len(),
            stop - start <= 32,
            payload == reply@.subrange(start as int, stop as int),
            forall|j: int| 0 <= j < i ==> ack_data@[j] == delivered(before, payload)[j],
            forall|j: int| i <= j < capacity ==> ack_data@[j] == before[j],
        decreases fill - i,
    {
        let byte: u8 = if i < stop - start {
            reply[start + i]
        } else {
            0
        };
        ack_data[i] = byte;
        i += 1;
    }
    assert(ack_data@ =~= delivered(before, payload));
    let length: usize = if stop - start <= capacity {
        stop - start
    } else {
        capacity
    };
    Some(Ack::from_status(reply[start - 1], length))
}

} // verus!
