//! The device session: the settings a dongle is believed to have, and the
//! requests that change them.
//!
//! A session never touches the USB bus. An operation that needs the dongle
//! returns the request to write; once the dongle has taken a request, the
//! session is told so with [`Crazyradio::confirm`].

use vstd::prelude::*;
use vstd::slice::slice_subrange;
use crate::ack::{
    ack_of, decode_reply, delivered, delivered_length, reply_payload, reply_status, reply_valid,
    Ack, MAX_PAYLOAD,
};
use crate::capture::{capture_packet, CaptureSlot, DIRECTION_RX, DIRECTION_TX};
use crate::channel::Channel;
use crate::device::FirmwareVersion;
use crate::error::{Error, UsbError};
use crate::inline::{InlineHeader, InlineHeaderView, OUT_HEADER_LENGTH};
use crate::request::{
    ack_enable_request, address_request, arc_request, ard_bytes_request, ard_time_request,
    bootloader_request, channel_request, cont_carrier_request, datarate_request, flag,
    inline_mode_request, packet_loss_request, power_request, request_views, ControlRequest,
    ControlRequestView, UsbCommand, ARD_STEP_MS, MAX_ARC, MAX_ARD_BYTES, MAX_ARD_MS,
    MAX_LOSS_PERCENT,
};
use crate::scan::{Scan, ScanView};
use crate::settings::{Datarate, Power, RadioSettings, SettingsView};

verus! {

/// A session as a mathematical value.
pub struct RadioView {
    /// The settings the dongle is believed to have.
    pub settings: SettingsView,
    /// Whether a setter skips the request for a value that is already set.
    pub cache_settings: bool,
    /// The firmware the dongle runs.
    pub version: FirmwareVersion,
}

/// The address every dongle starts with.
pub open spec fn default_address() -> Seq<u8> {
    seq![0xe7u8, 0xe7u8, 0xe7u8, 0xe7u8, 0xe7u8]
}

/// The settings of a dongle that has just been reset, but for the framing.
pub open spec fn default_settings(inline_mode: bool) -> SettingsView {
    SettingsView {
        channel: 2,
        address: default_address(),
        datarate: Datarate::Dr2M,
        ack_enable: true,
        inline_mode,
    }
}

/// What a reset writes, in order.
pub open spec fn reset_sequence() -> Seq<ControlRequestView> {
    seq![
        cont_carrier_request(false),
        datarate_request(Datarate::Dr2M),
        channel_request(2),
        address_request(default_address()),
        power_request(Power::P0dBm),
        arc_request(3),
        ard_bytes_request(32),
        ack_enable_request(true),
        inline_mode_request(true),
    ]
}

impl SettingsView {
    /// The settings once the dongle has taken `request`. A request that names no
    /// setting of the snapshot, or no valid value for it, leaves them as they are.
    pub open spec fn after(self, request: ControlRequestView) -> SettingsView {
        match request.command {
            UsbCommand::SetRadioChannel => if 0 <= request.value <= 125 {
                SettingsView { channel: request.value, ..self }
            } else {
                self
            },
            UsbCommand::SetRadioAddress => if request.data.len() == 5 {
                SettingsView { address: request.data, ..self }
            } else {
                self
            },
            UsbCommand::SetDataRate => match Datarate::spec_from_code(request.value) {
                Some(datarate) => SettingsView { datarate, ..self },
                None => self,
            },
            UsbCommand::AckEnable => SettingsView { ack_enable: request.value != 0, ..self },
            UsbCommand::SetInlineMode => SettingsView { inline_mode: request.value != 0, ..self },
            _ => self,
        }
    }

    /// The settings once the dongle has taken each of `requests` in turn.
    pub open spec fn after_all(self, requests: Seq<ControlRequestView>) -> SettingsView
        decreases requests.len(),
    {
        if requests.len() == 0 {
            self
        } else {
            self.after(requests.first()).after_all(requests.drop_first())
        }
    }
}

impl SettingsView {
    /// The header that goes in front of a payload of `payload_length` bytes.
    pub open spec fn header(self, payload_length: int) -> InlineHeaderView {
        InlineHeaderView {
            length: payload_length + 8,
            datarate: self.datarate,
            ack_enable: self.ack_enable,
            channel: self.channel,
            address: self.address,
        }
    }

    /// The bytes that go to the dongle to have `payload` sent: the payload alone,
    /// or with inline framing the header and the payload.
    pub open spec fn frame(self, payload: Seq<u8>) -> Seq<u8> {
        if self.inline_mode {
            self.header(payload.len() as int).encode() + payload
        } else {
            payload
        }
    }

    /// How many bytes to ask the dongle for when its reply is read.
    pub open spec fn reply_capacity(self) -> int {
        if self.inline_mode {
            64
        } else {
            33
        }
    }
}

impl RadioView {
    /// Whether a setter has to write to the dongle, given whether the value it was
    /// handed is the one already set.
    pub open spec fn must_write(self, unchanged: bool) -> bool {
        !self.settings.inline_mode && !(self.cache_settings && unchanged)
    }

    /// The session once the dongle has taken `request`.
    pub open spec fn after(self, request: ControlRequestView) -> RadioView {
        RadioView { settings: self.settings.after(request), ..self }
    }

    /// The session after a setter call has run its course: the call was made with
    /// a value that makes `request`, and the request, where the call asked for
    /// it, was written and confirmed.
    pub open spec fn settled(self, unchanged: bool, request: ControlRequestView) -> RadioView {
        if self.must_write(unchanged) {
            self.noted(request).after(request)
        } else {
            self.noted(request)
        }
    }

    /// The session after a setter was called with a value that makes `request`:
    /// with inline framing the value is noted at once, otherwise nothing changes
    /// until the dongle has taken the request.
    pub open spec fn noted(self, request: ControlRequestView) -> RadioView {
        if self.settings.inline_mode {
            self.after(request)
        } else {
            self
        }
    }
}

/// When a setter call has run its course, the session holds the value the
/// setter was called with, whether a request had to be written or not.
pub proof fn lemma_setters_settle(
    radio: RadioView,
    channel: int,
    address: Seq<u8>,
    datarate: Datarate,
    ack_enable: bool,
)
    requires
        0 <= channel <= 125,
        address.len() == 5,
    ensures
        radio.settled(
            radio.settings.channel == channel,
            channel_request(channel),
        ).settings.channel == channel,
        radio.settled(
            radio.settings.address == address,
            address_request(address),
        ).settings.address == address,
        radio.settled(
            radio.settings.datarate == datarate,
            datarate_request(datarate),
        ).settings.datarate == datarate,
        radio.settled(
            radio.settings.ack_enable == ack_enable,
            ack_enable_request(ack_enable),
        ).settings.ack_enable == ack_enable,
{
}

/// Asked twice in a row for one channel while the cache is on, a session writes
/// at most once: when the first call has run its course, the second asks for
/// no request.
pub proof fn lemma_set_channel_twice(radio: RadioView, channel: int)
    requires
        radio.cache_settings,
        0 <= channel <= 125,
    ensures
        ({
            let then = radio.settled(radio.settings.channel == channel, channel_request(channel));
            !then.must_write(then.settings.channel == channel)
        }),
{
}

/// Asked for two different channels in a row while the cache is on and the
/// settings do not travel inline, a session that is on neither of them writes
/// once for each: both calls ask for a request, and the second leaves the
/// session on the second channel.
pub proof fn lemma_set_channel_distinct(radio: RadioView, first: int, second: int)
    requires
        radio.cache_settings,
        !radio.settings.inline_mode,
        0 <= first <= 125,
        0 <= second <= 125,
        first != second,
        radio.settings.channel != first,
    ensures
        radio.must_write(radio.settings.channel == first),
        ({
            let then = radio.settled(radio.settings.channel == first, channel_request(first));
            &&& then.settings.channel == first
            &&& then.must_write(then.settings.channel == second)
            &&& then.settled(
                then.settings.channel == second,
                channel_request(second),
            ).settings.channel == second
        }),
{
}

/// A reset brings every setting to its boot value, whatever it was before. If
/// the dongle refuses the last request, the framing stays as it was.
pub proof fn lemma_reset_settings(settings: SettingsView)
    ensures
        settings.after_all(reset_sequence()) == default_settings(true),
        settings.after_all(reset_sequence().drop_last()) == default_settings(
            settings.inline_mode,
        ),
{
    reveal_with_fuel(SettingsView::after_all, 10);
    let all = reset_sequence();
    assert(all.drop_first().drop_first().drop_first().drop_first().drop_first().drop_first()
        .drop_first().drop_first().drop_first().len() == 0);
    let most = all.drop_last();
    assert(most.drop_first().drop_first().drop_first().drop_first().drop_first().drop_first()
        .drop_first().drop_first().len() == 0);
}

/// With inline framing, what goes to the dongle starts with a header that
/// reads back as the session's settings, and goes on with the payload.
pub proof fn lemma_frame_carries_settings(settings: SettingsView, payload: Seq<u8>)
    requires
        settings.inline_mode,
        payload.len() <= 32,
        0 <= settings.channel <= 125,
        settings.address.len() == 5,
    ensures
        InlineHeaderView::decode(settings.frame(payload)) == Some(
            settings.header(payload.len() as int),
        ),
        settings.frame(payload).subrange(8, 8 + payload.len() as int) == payload,
{
    let header = settings.header(payload.len() as int);
    let frame = settings.frame(payload);
    crate::inline::lemma_header_round_trip(header);
    let bytes = header.encode();
    assert(bytes.len() == 8);
    assert(frame.len() == 8 + payload.len());
    assert(frame[0] == bytes[0] && frame[1] == bytes[1] && frame[2] == bytes[2]);
    assert(frame.subrange(3, 8) =~= bytes.subrange(3, 8));
    assert(frame.subrange(8, 8 + payload.len() as int) =~= payload);
}

/// Whether an observer can be shown any packet whatever.
pub open spec fn takes_any_packet<F: Fn(u8, u8, &[u8; 5], u8, &[u8])>(callback: F) -> bool {
    forall|direction: u8, channel: u8, address: &[u8; 5], radio_index: u8, data: &[u8]|
        call_requires(callback, (direction, channel, address, radio_index, data))
}

/// The first `length` bytes of a buffer, or all of it if it has no more.
pub open spec fn filled_part(buffer: Seq<u8>, length: int) -> Seq<u8> {
    if 0 <= length <= buffer.len() {
        buffer.take(length)
    } else {
        buffer
    }
}

/// Whether two addresses are the same.
fn same_address(a: &[u8; 5], b: &[u8; 5]) -> (same: bool)
    ensures
        same == (a@ == b@),
{
    let same = a[0] == b[0] && a[1] == b[1] && a[2] == b[2] && a[3] == b[3] && a[4] == b[4];
    proof {
        if same {
            assert(a@ =~= b@);
        }
    }
    same
}

/// 1 for `true`, 0 for `false`.
fn flag_value(on: bool) -> (value: u16)
    ensures
        value == flag(on),
{
    if on {
        1
    } else {
        0
    }
}

/// A session with one dongle.
#[derive(Debug)]
pub struct Crazyradio {
    settings: RadioSettings,
    cache_settings: bool,
    version: FirmwareVersion,
}

impl View for Crazyradio {
    type V = RadioView;

    closed spec fn view(&self) -> RadioView {
        RadioView {
            settings: self.spec_settings()@,
            cache_settings: self.cache_settings,
            version: self.version,
        }
    }
}

impl Crazyradio {
    /// Starts a session with a dongle whose firmware is `version`, or refuses a
    /// firmware older than 0.5. The session assumes the settings of a dongle
    /// that was reset: write the requests of [`Crazyradio::reset`] before any other.
    pub fn new(version: FirmwareVersion) -> (r: Result<Crazyradio, Error>)
        ensures
            !version.supported() ==> r == Err::<Crazyradio, Error>(
                Error::DongleVersionNotSupported,
            ),
            version.supported() ==> r is Ok && r->Ok_0@ == (RadioView {
                settings: default_settings(false),
                cache_settings: true,
                version,
            }),
    {
        if !version.supported() {
            return Err(Error::DongleVersionNotSupported);
        }
        let channel = match Channel::from_number(2) {
            Ok(channel) => channel,
            Err(e) => {
                return Err(e);
            },
        };
        let address: [u8; 5] = [0xe7, 0xe7, 0xe7, 0xe7, 0xe7];
        assert(address@ =~= default_address());
        Ok(
            Crazyradio {
                settings: RadioSettings {
                    channel,
                    address,
                    datarate: Datarate::Dr2M,
                    ack_enable: true,
                    inline_mode: false,
                },
                cache_settings: true,
                version,
            },
        )
    }

    /// The settings the dongle is believed to have.
    pub closed spec fn spec_settings(&self) -> RadioSettings {
        self.settings
    }

    /// The settings the dongle is believed to have.
    #[verifier::when_used_as_spec(spec_settings)]
    pub fn settings(&self) -> (s: RadioSettings)
        ensures
            s == self.spec_settings(),
            s@ == self@.settings,
    {
        self.settings
    }

    /// The firmware version the session was started with.
    pub fn version(&self) -> (v: FirmwareVersion)
        ensures
            v == self@.version,
    {
        self.version
    }

    /// Whether setters skip the request for a value that is already set.
    pub fn cache_settings(&self) -> (b: bool)
        ensures
            b == self@.cache_settings,
    {
        self.cache_settings
    }

    /// Switches the settings cache on or off.
    pub fn set_cache_settings(&mut self, enable: bool)
        ensures
            final(self)@ == (RadioView { cache_settings: enable, ..old(self)@ }),
    {
        self.cache_settings = enable;
    }

    /// Notes that the dongle has taken `request`.
    pub fn confirm(&mut self, request: &ControlRequest)
        ensures
            final(self)@ == old(self)@.after(request@),
    {
        match request.command {
            UsbCommand::SetRadioChannel => {
                if request.value <= 125 {
                    match Channel::from_number(request.value as u8) {
                        Ok(channel) => {
                            self.settings.channel = channel;
                        },
                        Err(_) => {},
                    }
                }
            },
            UsbCommand::SetRadioAddress => {
                if request.data.len() == 5 {
                    let address: [u8; 5] = [
                        request.data[0],
                        request.data[1],
                        request.data[2],
                        request.data[3],
                        request.data[4],
                    ];
                    assert(address@ =~= request.data@);
                    self.settings.address = address;
                }
            },
            UsbCommand::SetDataRate => {
                match Datarate::from_code(request.value) {
                    Some(datarate) => {
                        self.settings.datarate = datarate;
                    },
                    None => {},
                }
            },
            UsbCommand::AckEnable => {
                self.settings.ack_enable = request.value != 0;
            },
            UsbCommand::SetInlineMode => {
                self.settings.inline_mode = request.value != 0;
            },
            _ => {},
        }
    }

    /// Takes the outcome of writing `request` to the dongle. A request that was
    /// written is confirmed. One that failed leaves the session as it was, and
    /// its error is handed on, unless the request is one whose failure is to be
    /// ignored.
    pub fn complete(&mut self, request: &ControlRequest, outcome: Result<usize, UsbError>) -> (r:
        Result<(), Error>)
        ensures
            outcome is Ok ==> r is Ok && final(self)@ == old(self)@.after(request@),
            outcome is Err ==> final(self)@ == old(self)@,
            outcome matches Err(e) ==> r == if request.best_effort() {
                Ok::<(), Error>(())
            } else {
                Err::<(), Error>(Error::UsbError(e))
            },
    {
        match outcome {
            Ok(_) => {
                self.confirm(request);
                Ok(())
            },
            Err(e) => {
                if request.best_effort() {
                    Ok(())
                } else {
                    Err(Error::UsbError(e))
                }
            },
        }
    }

    /// Sets the radio channel. Returns the request to write, if one is due: none
    /// when the settings travel inline, and none when the cache is on and the
    /// channel is the one already set.
    pub fn set_channel(&mut self, channel: Channel) -> (request: Option<ControlRequest>)
        ensures
            request is Some <==> old(self)@.must_write(old(self)@.settings.channel == channel@),
            request matches Some(r) ==> r@ == channel_request(channel@),
            final(self)@ == old(self)@.noted(channel_request(channel@)),
    {
        let number = channel.number();
        if self.settings.inline_mode {
            self.settings.channel = channel;
            None
        } else if self.cache_settings && self.settings.channel.number() == number {
            None
        } else {
            Some(ControlRequest::new(UsbCommand::SetRadioChannel, number as u16))
        }
    }

    /// Sets the datarate. Returns the request to write, if one is due.
    pub fn set_datarate(&mut self, datarate: Datarate) -> (request: Option<ControlRequest>)
        ensures
            request is Some <==> old(self)@.must_write(old(self)@.settings.datarate == datarate),
            request matches Some(r) ==> r@ == datarate_request(datarate),
            final(self)@ == old(self)@.noted(datarate_request(datarate)),
    {
        if self.settings.inline_mode {
            self.settings.datarate = datarate;
            None
        } else if self.cache_settings && self.settings.datarate == datarate {
            None
        } else {
            Some(ControlRequest::new(UsbCommand::SetDataRate, datarate.code() as u16))
        }
    }

    /// Sets the radio address. Returns the request to write, if one is due.
    pub fn set_address(&mut self, address: &[u8; 5]) -> (request: Option<ControlRequest>)
        ensures
            request is Some <==> old(self)@.must_write(old(self)@.settings.address == address@),
            request matches Some(r) ==> r@ == address_request(address@),
            final(self)@ == old(self)@.noted(address_request(address@)),
    {
        if self.settings.inline_mode {
            self.settings.address = *address;
            None
        } else if self.cache_settings && same_address(&self.settings.address, address) {
            None
        } else {
            Some(ControlRequest::with_data(UsbCommand::SetRadioAddress, address.as_slice()))
        }
    }

    /// Sets whether the radio waits for an acknowledgement after each packet; to
    /// be switched off before broadcast packets are sent. Returns the request to
    /// write, if one is due.
    pub fn set_ack_enable(&mut self, ack_enable: bool) -> (request: Option<ControlRequest>)
        ensures
            request is Some <==> old(self)@.must_write(
                old(self)@.settings.ack_enable == ack_enable,
            ),
            request matches Some(r) ==> r@ == ack_enable_request(ack_enable),
            final(self)@ == old(self)@.noted(ack_enable_request(ack_enable)),
    {
        if self.settings.inline_mode {
            self.settings.ack_enable = ack_enable;
            None
        } else if self.cache_settings && self.settings.ack_enable == ack_enable {
            None
        } else {
            Some(ControlRequest::new(UsbCommand::AckEnable, flag_value(ack_enable)))
        }
    }

    /// Sets the transmit power. The request is always to be written.
    pub fn set_power(&self, power: Power) -> (request: ControlRequest)
        ensures
            request@ == power_request(power),
    {
        ControlRequest::new(UsbCommand::SetRadioPower, power.code() as u16)
    }

    /// Sets the time the radio waits for an acknowledgement, to the step that
    /// `delay_ms` milliseconds fall in. A delay above four seconds is refused.
    pub fn set_ard_time(&self, delay_ms: u128) -> (r: Result<ControlRequest, Error>)
        requires
            delay_ms >= ARD_STEP_MS,
        ensures
            delay_ms > MAX_ARD_MS ==> r == Err::<ControlRequest, Error>(Error::InvalidArgument),
            delay_ms <= MAX_ARD_MS ==> r is Ok && r->Ok_0@ == ard_time_request(delay_ms as int),
    {
        if delay_ms <= MAX_ARD_MS {
            let ard: u16 = (delay_ms / ARD_STEP_MS) as u16 - 1;
            Ok(ControlRequest::new(UsbCommand::SetRadioArd, ard))
        } else {
            Err(Error::InvalidArgument)
        }
    }

    /// Sets the time the radio waits for an acknowledgement, to what a payload of
    /// `nbytes` bytes needs. More than 32 bytes are refused.
    pub fn set_ard_bytes(&self, nbytes: u8) -> (r: Result<ControlRequest, Error>)
        ensures
            nbytes > MAX_ARD_BYTES ==> r == Err::<ControlRequest, Error>(Error::InvalidArgument),
            nbytes <= MAX_ARD_BYTES ==> r is Ok && r->Ok_0@ == ard_bytes_request(nbytes as int),
    {
        if nbytes <= MAX_ARD_BYTES {
            let value: u16 = 0x80 | nbytes as u16;
            assert(value == 0x80 + nbytes) by (bit_vector)
                requires
                    nbytes <= 32,
                    value == 0x80 | nbytes as u16,
            ;
            Ok(ControlRequest::new(UsbCommand::SetRadioArd, value))
        } else {
            Err(Error::InvalidArgument)
        }
    }

    /// Sets how many times the radio sends a packet again when no acknowledgement
    /// comes in time. More than 15 times are refused.
    pub fn set_arc(&self, arc: usize) -> (r: Result<ControlRequest, Error>)
        ensures
            arc > MAX_ARC ==> r == Err::<ControlRequest, Error>(Error::InvalidArgument),
            arc <= MAX_ARC ==> r is Ok && r->Ok_0@ == arc_request(arc as int),
    {
        if arc <= MAX_ARC {
            Ok(ControlRequest::new(UsbCommand::SetRadioArc, arc as u16))
        } else {
            Err(Error::InvalidArgument)
        }
    }

    /// Switches the continuous carrier on or off: a sine wave on the channel's
    /// frequency at the set transmit power. The request is always to be written.
    pub fn set_cont_carrier(&self, enable: bool) -> (request: ControlRequest)
        ensures
            request@ == cont_carrier_request(enable),
    {
        ControlRequest::new(UsbCommand::SetContCarrier, flag_value(enable))
    }

    /// Switches inline framing on or off. The request is always to be written;
    /// the session changes its framing when the request is confirmed.
    pub fn set_inline_mode(&self, enable: bool) -> (request: ControlRequest)
        ensures
            request@ == inline_mode_request(enable),
    {
        ControlRequest::new(UsbCommand::SetInlineMode, flag_value(enable))
    }

    /// Makes the dongle drop a share of the packets and of the acknowledgements,
    /// each given in percent. A share above 100 is refused, and so is a firmware
    /// that lacks the feature.
    pub fn set_packet_loss_simulation(&self, packet_loss_pct: u8, ack_loss_pct: u8) -> (r: Result<
        ControlRequest,
        Error,
    >)
        ensures
            packet_loss_pct > MAX_LOSS_PERCENT || ack_loss_pct > MAX_LOSS_PERCENT ==> r == Err::<
                ControlRequest,
                Error,
            >(Error::InvalidArgument),
            packet_loss_pct <= MAX_LOSS_PERCENT && ack_loss_pct <= MAX_LOSS_PERCENT
                && !self@.version.simulates_packet_loss() ==> r == Err::<ControlRequest, Error>(
                Error::DongleVersionNotSupported,
            ),
            packet_loss_pct <= MAX_LOSS_PERCENT && ack_loss_pct <= MAX_LOSS_PERCENT
                && self@.version.simulates_packet_loss() ==> r is Ok && r->Ok_0@
                == packet_loss_request(
                packet_loss_pct,
                ack_loss_pct,
            ),
    {
        if packet_loss_pct > MAX_LOSS_PERCENT || ack_loss_pct > MAX_LOSS_PERCENT {
            return Err(Error::InvalidArgument);
        }
        if !self.version.simulates_packet_loss() {
            return Err(Error::DongleVersionNotSupported);
        }
        let data: [u8; 2] = [packet_loss_pct, ack_loss_pct];
        let request = ControlRequest::with_data(
            UsbCommand::SetPacketLossSimulation,
            data.as_slice(),
        );
        assert(request@.data =~= seq![packet_loss_pct, ack_loss_pct]);
        Ok(request)
    }

    /// Ends the session and restarts the dongle in its bootloader.
    pub fn launch_bootloader(self) -> (request: ControlRequest)
        ensures
            request@ == bootloader_request(),
    {
        ControlRequest::new(UsbCommand::LaunchBootloader, 0)
    }

    /// The requests that bring the dongle to its boot values, in the order in
    /// which to write them. The last one switches inline framing on, and its
    /// failure is to be ignored.
    pub fn reset(&self) -> (requests: Vec<ControlRequest>)
        ensures
            request_views(requests@) == reset_sequence(),
            forall|i: int|
                0 <= i < requests@.len() ==> (#[trigger] requests@[i]).best_effort() == (i == 8),
    {
        let address: [u8; 5] = [0xe7, 0xe7, 0xe7, 0xe7, 0xe7];
        assert(address@ =~= default_address());
        let mut requests: Vec<ControlRequest> = Vec::new();
        requests.push(self.set_cont_carrier(false));
        requests.push(ControlRequest::new(UsbCommand::SetDataRate, Datarate::Dr2M.code() as u16));
        requests.push(ControlRequest::new(UsbCommand::SetRadioChannel, 2));
        requests.push(ControlRequest::with_data(UsbCommand::SetRadioAddress, address.as_slice()));
        requests.push(self.set_power(Power::P0dBm));
        requests.push(ControlRequest::new(UsbCommand::SetRadioArc, 3));
        requests.push(ControlRequest::new(UsbCommand::SetRadioArd, 0xa0));
        requests.push(ControlRequest::new(UsbCommand::AckEnable, 1));
        requests.push(self.set_inline_mode(true));
        assert(request_views(requests@) =~= reset_sequence());
        requests
    }

    /// The bytes to write to the dongle to have `data` sent as one packet. The
    /// reply is then read and handed to [`Crazyradio::receive_ack`].
    pub fn send_packet(&self, data: &[u8]) -> (frame: Vec<u8>)
        requires
            data@.len() <= MAX_PAYLOAD,
        ensures
            frame@ == self@.settings.frame(data@),
    {
        let mut frame: Vec<u8> = if self.settings.inline_mode {
            let header = InlineHeader {
                length: (data.len() + OUT_HEADER_LENGTH) as u8,
                datarate: self.settings.datarate,
                ack_enable: self.settings.ack_enable,
                channel: self.settings.channel,
                address: self.settings.address,
            };
            header.encode()
        } else {
            Vec::new()
        };
        frame.extend_from_slice(data);
        assert(frame@ =~= self@.settings.frame(data@));
        frame
    }

    /// The bytes to write to the dongle to have `data` sent as one packet that
    /// nobody answers, as a broadcast is. No reply is to be read. Acknowledgements
    /// are to be switched off beforehand, with [`Crazyradio::set_ack_enable`].
    pub fn send_packet_no_ack(&self, data: &[u8]) -> (frame: Vec<u8>)
        requires
            data@.len() <= MAX_PAYLOAD,
        ensures
            frame@ == self@.settings.frame(data@),
    {
        self.send_packet(data)
    }

    /// How many bytes to ask the dongle for when its reply is read.
    pub fn reply_capacity(&self) -> (n: usize)
        ensures
            n == self@.settings.reply_capacity(),
    {
        if self.settings.inline_mode {
            64
        } else {
            33
        }
    }

    /// Takes the dongle's reply to a packet apart. The acknowledgement payload
    /// goes to `ack_data`, cut to the buffer's length where the buffer is the
    /// shorter. A reply that is no whole frame gives `None` and leaves `ack_data`
    /// alone.
    pub fn receive_ack(&self, reply: &[u8], ack_data: &mut [u8]) -> (ack: Option<Ack>)
        ensures
            ack is Some <==> reply_valid(reply@, self@.settings.inline_mode),
            !reply_valid(reply@, self@.settings.inline_mode) ==> final(ack_data)@ == old(
                ack_data,
            )@,
            reply_valid(reply@, self@.settings.inline_mode) ==> {
                let payload = reply_payload(reply@, self@.settings.inline_mode);
                &&& final(ack_data)@ == delivered(old(ack_data)@, payload)
                &&& ack == Some(
                    ack_of(
                        reply_status(reply@, self@.settings.inline_mode),
                        delivered_length(old(ack_data)@.len() as int, payload),
                    ),
                )
            },
            final(ack_data)@.len() == old(ack_data)@.len(),
            ack matches Some(a) ==> a.retry <= 15 && a.length <= 32 && a.length <= old(
                ack_data,
            )@.len(),
    {
        decode_reply(reply, self.settings.inline_mode, ack_data)
    }

    /// Shows the observer, if there is one, a payload that is about to be sent:
    /// with the channel and address it goes to, and `radio_index` for the dongle
    /// it leaves by.
    pub fn capture_sent<F: Fn(u8, u8, &[u8; 5], u8, &[u8])>(
        &self,
        slot: &CaptureSlot<F>,
        radio_index: u8,
        data: &[u8],
    )
        requires
            slot@ matches Some(callback) ==> takes_any_packet(callback),
        ensures
            slot@ matches Some(callback) ==> call_ensures(
                callback,
                (
                    DIRECTION_TX,
                    self.settings().channel.number(),
                    &self.settings().address,
                    radio_index,
                    data,
                ),
                (),
            ),
    {
        capture_packet(
            slot,
            DIRECTION_TX,
            self.settings.channel.number(),
            &self.settings.address,
            radio_index,
            data,
        );
    }

    /// Shows the observer, if there is one, the payload of an acknowledgement
    /// that was received: the part of `ack_data` that the acknowledgement
    /// filled, with the channel and address it came on. Where no
    /// acknowledgement was received, there is nothing to show.
    pub fn capture_received<F: Fn(u8, u8, &[u8; 5], u8, &[u8])>(
        &self,
        slot: &CaptureSlot<F>,
        radio_index: u8,
        ack: &Ack,
        ack_data: &[u8],
    )
        requires
            slot@ matches Some(callback) ==> takes_any_packet(callback),
        ensures
            slot@ matches Some(callback) ==> (ack.received ==> exists|payload: &[u8]|
                payload@ == filled_part(ack_data@, ack.length as int) && #[trigger] call_ensures(
                    callback,
                    (
                        DIRECTION_RX,
                        self.settings().channel.number(),
                        &self.settings().address,
                        radio_index,
                        payload,
                    ),
                    (),
                )),
    {
        if ack.received {
            let length = if ack.length <= ack_data.len() {
                ack.length
            } else {
                ack_data.len()
            };
            let payload = slice_subrange(ack_data, 0, length);
            capture_packet(
                slot,
                DIRECTION_RX,
                self.settings.channel.number(),
                &self.settings.address,
                radio_index,
                payload,
            );
        }
    }

    /// Starts a sweep over the channels from `start` to `stop`, both included,
    /// to find those on which a probe packet is acknowledged. For each channel
    /// the sweep names, the radio is tuned to it and the probe is sent once.
    pub fn scan_channels(&self, start: Channel, stop: Channel) -> (scan: Scan)
        ensures
            scan@ == (ScanView { first: start@, stop: stop@, acked: Seq::empty() }),
    {
        Scan::new(start, stop)
    }
}

} // verus!
