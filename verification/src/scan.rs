//! The channel scan: a sweep over a range of channels that keeps those on
//! which a probe packet was acknowledged.
//!
//! The sweep is strictly sequential. For each channel in turn, [`Scan::probe`]
//! says what goes to the dongle: the request that tunes the radio, where one
//! is due, and the probe packet. Its owner makes the transfers and reports
//! with [`Scan::record`] whether an acknowledgement came, until there is no
//! channel left.

use vstd::prelude::*;
use crate::ack::MAX_PAYLOAD;
use crate::channel::{channel_numbers, Channel};
use crate::inline::InlineHeaderView;
use crate::radio::{lemma_frame_carries_settings, Crazyradio, RadioView};
use crate::request::{channel_request, ControlRequest};

verus! {

/// Of the channels `first`, `first + 1`, ..., one for each entry of `acked`,
/// those whose entry is set, in ascending order.
pub open spec fn responsive(first: int, acked: Seq<bool>) -> Seq<int>
    decreases acked.len(),
{
    if acked.len() == 0 {
        Seq::empty()
    } else if acked.last() {
        responsive(first, acked.drop_last()).push(first + acked.len() - 1)
    } else {
        responsive(first, acked.drop_last())
    }
}

/// A sweep as a mathematical value.
pub struct ScanView {
    /// Number of the first channel of the range.
    pub first: int,
    /// Number of the last channel of the range.
    pub stop: int,
    /// For each channel probed so far, whether the probe was acknowledged.
    pub acked: Seq<bool>,
}

impl ScanView {
    /// Number of the channel to probe next.
    pub open spec fn next(self) -> int {
        self.first + self.acked.len()
    }

    /// Whether every channel of the range has been probed.
    pub open spec fn done(self) -> bool {
        self.next() > self.stop
    }

    /// The sweep after the probe on the current channel was answered or not.
    /// A sweep that is done stays as it is.
    pub open spec fn recorded(self, received: bool) -> ScanView {
        if self.done() {
            self
        } else {
            ScanView { acked: self.acked.push(received), ..self }
        }
    }

    /// The sweep after one probe for each entry of `outcomes`.
    pub open spec fn recorded_all(self, outcomes: Seq<bool>) -> ScanView
        decreases outcomes.len(),
    {
        if outcomes.len() == 0 {
            self
        } else {
            self.recorded(outcomes.first()).recorded_all(outcomes.drop_first())
        }
    }

    /// The channels found so far.
    pub open spec fn found(self) -> Seq<int> {
        responsive(self.first, self.acked)
    }
}

/// The channels found are those of the range whose probe was acknowledged, no
/// others, each once and in ascending order.
pub proof fn lemma_responsive(first: int, acked: Seq<bool>)
    ensures
        responsive(first, acked).len() <= acked.len(),
        forall|i: int, j: int|
            0 <= i < j < responsive(first, acked).len() ==> responsive(first, acked)[i]
                < responsive(first, acked)[j],
        forall|c: int|
            responsive(first, acked).contains(c) <==> (first <= c < first + acked.len()
                && acked[c - first]),
    decreases acked.len(),
{
    let found = responsive(first, acked);
    if acked.len() > 0 {
        let before = acked.drop_last();
        let earlier = responsive(first, before);
        let last = first + acked.len() - 1;
        lemma_responsive(first, before);
        assert forall|c: int|
            found.contains(c) <==> (first <= c < first + acked.len() && acked[c - first]) by {
            if first <= c < last {
                assert(before[c - first] == acked[c - first]);
            }
            if acked.last() {
                assert(found == earlier.push(last));
                if earlier.contains(c) {
                    let i = choose|i: int| 0 <= i < earlier.len() && earlier[i] == c;
                    assert(found[i] == c);
                }
                if c == last {
                    assert(found[earlier.len() as int] == c);
                }
            }
        }
        assert forall|i: int, j: int| 0 <= i < j < found.len() implies found[i] < found[j] by {
            if acked.last() && j == earlier.len() {
                assert(earlier.contains(earlier[i]));
            }
        }
    }
}

/// Where no probe was acknowledged, nothing is found.
pub proof fn lemma_responsive_none(first: int, acked: Seq<bool>)
    requires
        forall|i: int| 0 <= i < acked.len() ==> !acked[i],
    ensures
        responsive(first, acked) == Seq::<int>::empty(),
{
    let found = responsive(first, acked);
    lemma_responsive(first, acked);
    if found.len() > 0 {
        assert(found.contains(found[0]));
    }
    assert(found =~= Seq::<int>::empty());
}

/// Where the probe was acknowledged on one channel only, that channel is what
/// is found.
pub proof fn lemma_responsive_one(first: int, acked: Seq<bool>, only: int)
    requires
        0 <= only < acked.len(),
        forall|i: int| 0 <= i < acked.len() ==> acked[i] == (i == only),
    ensures
        responsive(first, acked) == seq![first + only],
{
    let found = responsive(first, acked);
    lemma_responsive(first, acked);
    assert(found.contains(first + only));
    assert forall|i: int| 0 <= i < found.len() implies found[i] == first + only by {
        assert(found.contains(found[i]));
    }
    if found.len() > 1 {
        assert(found[0] < found[1]);
    }
    assert(found =~= seq![first + only]);
}

/// A sweep that is not done takes as many outcomes as it has channels left,
/// in order.
pub proof fn lemma_recorded_all(scan: ScanView, outcomes: Seq<bool>)
    requires
        scan.next() + outcomes.len() <= scan.stop + 1,
    ensures
        scan.recorded_all(outcomes).first == scan.first,
        scan.recorded_all(outcomes).stop == scan.stop,
        scan.recorded_all(outcomes).acked == scan.acked + outcomes,
    decreases outcomes.len(),
{
    if outcomes.len() == 0 {
        assert(scan.acked + outcomes =~= scan.acked);
    } else {
        let step = scan.recorded(outcomes.first());
        lemma_recorded_all(step, outcomes.drop_first());
        assert(step.acked + outcomes.drop_first() =~= scan.acked + outcomes);
    }
}

/// A sweep from `first` to `stop` that is told one outcome for each channel
/// of the range is done, and has found the channels whose probe was
/// acknowledged: the result depends on the outcomes alone.
pub proof fn lemma_full_sweep(first: int, stop: int, outcomes: Seq<bool>)
    requires
        first <= stop,
        outcomes.len() == stop - first + 1,
    ensures
        ({
            let start = ScanView { first, stop, acked: Seq::empty() };
            &&& !start.done()
            &&& start.recorded_all(outcomes).done()
            &&& start.recorded_all(outcomes).found() == responsive(first, outcomes)
        }),
{
    let start = ScanView { first, stop, acked: Seq::empty() };
    lemma_recorded_all(start, outcomes);
    assert(start.acked + outcomes =~= outcomes);
}

/// A sweep over an empty range is done from the start, and finds nothing.
pub proof fn lemma_empty_sweep(first: int, stop: int)
    requires
        first > stop,
    ensures
        ({
            let start = ScanView { first, stop, acked: Seq::empty() };
            &&& start.done()
            &&& start.found() == Seq::<int>::empty()
        }),
{
}

/// A probe leaves on the channel it is meant for. Once the tuning has run its
/// course, the session is on that channel; and with inline framing, the
/// probe's frame names the channel itself.
pub proof fn lemma_probe_on_channel(radio: RadioView, channel: int, payload: Seq<u8>)
    requires
        0 <= channel <= 125,
        radio.settings.address.len() == 5,
        payload.len() <= 32,
    ensures
        radio.settled(
            radio.settings.channel == channel,
            channel_request(channel),
        ).settings.channel == channel,
        radio.settings.inline_mode ==> InlineHeaderView::decode(
            radio.noted(channel_request(channel)).settings.frame(payload),
        ) == Some(radio.noted(channel_request(channel)).settings.header(payload.len() as int))
            && radio.noted(channel_request(channel)).settings.header(
            payload.len() as int,
        ).channel == channel,
{
    if radio.settings.inline_mode {
        lemma_frame_carries_settings(radio.noted(channel_request(channel)).settings, payload);
    }
}

/// What goes to the dongle to probe one channel.
#[derive(Debug)]
pub struct Probe {
    /// The channel that is probed.
    pub channel: Channel,
    /// The request that tunes the radio to the channel, if one is to be written.
    pub tune: Option<ControlRequest>,
    /// The probe packet, framed; to be written once the radio is tuned.
    pub frame: Vec<u8>,
}

/// A sweep in progress.
pub struct Scan {
    first: u8,
    stop: u8,
    next: u8,
    found: Vec<Channel>,
    acked: Ghost<Seq<bool>>,
}

impl View for Scan {
    type V = ScanView;

    closed spec fn view(&self) -> ScanView {
        ScanView { first: self.first as int, stop: self.stop as int, acked: self.acked@ }
    }
}

impl Scan {
    #[verifier::type_invariant]
    closed spec fn wf(self) -> bool {
        &&& self.first <= 125
        &&& self.stop <= 125
        &&& self.next == self.first + self.acked@.len()
        &&& self.first <= self.stop ==> self.next <= self.stop + 1
        &&& self.first > self.stop ==> self.next == self.first
        &&& channel_numbers(self.found@) == responsive(self.first as int, self.acked@)
    }

    /// Starts a sweep over the channels from `start` to `stop`, both included.
    /// The range is empty if `start` lies above `stop`.
    pub fn new(start: Channel, stop: Channel) -> (scan: Scan)
        ensures
            scan@ == (ScanView { first: start@, stop: stop@, acked: Seq::empty() }),
    {
        let found: Vec<Channel> = Vec::new();
        assert(channel_numbers(found@) =~= responsive(start@, Seq::empty()));
        Scan {
            first: start.number(),
            stop: stop.number(),
            next: start.number(),
            found,
            acked: Ghost(Seq::empty()),
        }
    }

    /// The channel to probe now, or `None` when the sweep is done.
    pub fn current(&self) -> (channel: Option<Channel>)
        ensures
            channel is None <==> self@.done(),
            channel matches Some(c) ==> c@ == self@.next(),
    {
        proof {
            use_type_invariant(self);
        }
        if self.next <= self.stop {
            match Channel::from_number(self.next) {
                Ok(channel) => Some(channel),
                Err(_) => None,
            }
        } else {
            None
        }
    }

    /// What goes to the dongle to probe the current channel with `payload`, or
    /// `None` when the sweep is done. The session is asked for the channel as
    /// [`Crazyradio::set_channel`] does it.
    pub fn probe(&self, radio: &mut Crazyradio, payload: &[u8]) -> (probe: Option<Probe>)
        requires
            payload@.len() <= MAX_PAYLOAD,
        ensures
            probe is None <==> self@.done(),
            self@.done() ==> final(radio)@ == old(radio)@,
            probe matches Some(p) ==> {
                &&& p.channel@ == self@.next()
                &&& p.tune is Some <==> old(radio)@.must_write(
                    old(radio)@.settings.channel == self@.next(),
                )
                &&& p.tune matches Some(r) ==> r@ == channel_request(self@.next())
                &&& final(radio)@ == old(radio)@.noted(channel_request(self@.next()))
                &&& p.frame@ == final(radio)@.settings.frame(payload@)
            },
    {
        match self.current() {
            Some(channel) => {
                let tune = radio.set_channel(channel);
                let frame = radio.send_packet(payload);
                Some(Probe { channel, tune, frame })
            },
            None => None,
        }
    }

    /// Notes whether the probe on the current channel was acknowledged, and
    /// moves on to the next channel. A sweep that is done stays as it is.
    pub fn record(self, received: bool) -> (scan: Scan)
        ensures
            scan@ == self@.recorded(received),
    {
        proof {
            use_type_invariant(&self);
        }
        if self.next > self.stop {
            return self;
        }
        let Scan { first, stop, next, mut found, acked } = self;
        if received {
            match Channel::from_number(next) {
                Ok(channel) => {
                    found.push(channel);
                },
                Err(_) => {},
            }
        }
        let ghost outcomes = acked@.push(received);
        proof {
            assert(outcomes.drop_last() =~= acked@);
            if received {
                assert(channel_numbers(found@) =~= channel_numbers(self.found@).push(
                    next as int,
                ));
            }
        }
        Scan { first, stop, next: next + 1, found, acked: Ghost(outcomes) }
    }

    /// Ends the sweep and hands out the channels on which a probe was
    /// acknowledged, in ascending order.
    pub fn into_found(self) -> (found: Vec<Channel>)
        ensures
            channel_numbers(found@) == self@.found(),
    {
        proof {
            use_type_invariant(&self);
        }
        self.found
    }
}

} // verus!
