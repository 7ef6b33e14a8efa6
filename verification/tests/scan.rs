use crazyradio::{
    Ack, Channel, ControlRequest, Crazyradio, FirmwareVersion, InlineHeader, RadioCommand, Scan,
    SendPacketResult, UsbCommand,
};

fn channel(number: u8) -> Channel {
    Channel::from_number(number).unwrap()
}

fn numbers(channels: &[Channel]) -> Vec<u8> {
    channels.iter().map(|c| c.number()).collect()
}

/// A dongle with one peer in range: it takes the session's transfers and
/// answers as the hardware would.
struct Peer {
    channels: Vec<u8>,
    tuned: u8,
    inline: bool,
    control_writes: usize,
    packets: Vec<(u8, Vec<u8>)>,
}

impl Peer {
    fn on(channels: &[u8], inline: bool) -> Peer {
        Peer { channels: channels.to_vec(), tuned: 2, inline, control_writes: 0, packets: vec![] }
    }

    fn control(&mut self, request: &ControlRequest) {
        self.control_writes += 1;
        if request.command == UsbCommand::SetRadioChannel {
            self.tuned = request.value as u8;
        }
    }

    fn exchange(&mut self, frame: &[u8]) -> Vec<u8> {
        let (on, payload) = if self.inline {
            let header = InlineHeader::decode(frame).unwrap();
            assert_eq!(header.length as usize, frame.len());
            (header.channel.number(), frame[8..].to_vec())
        } else {
            (self.tuned, frame.to_vec())
        };
        self.packets.push((on, payload));
        let acked = self.channels.contains(&on);
        let status = if acked { 0x01 } else { 0x00 };
        if self.inline {
            vec![2, status]
        } else {
            vec![status]
        }
    }
}

fn open(inline: bool) -> Crazyradio {
    let mut radio = Crazyradio::new(FirmwareVersion { major: 0, minor: 5 }).unwrap();
    if inline {
        let request = radio.set_inline_mode(true);
        radio.confirm(&request);
    }
    radio
}

fn sweep(radio: &mut Crazyradio, peer: &mut Peer, start: u8, stop: u8) -> Vec<u8> {
    let mut scan = radio.scan_channels(channel(start), channel(stop));
    let mut ack_data = [0u8; 32];
    while let Some(probe) = scan.probe(radio, &[0xff]) {
        assert_eq!(scan.current().unwrap().number(), probe.channel.number());
        if let Some(request) = probe.tune {
            peer.control(&request);
            radio.confirm(&request);
        }
        let reply = peer.exchange(&probe.frame);
        let ack = radio.receive_ack(&reply, &mut ack_data).unwrap();
        scan = scan.record(ack.received);
    }
    numbers(&scan.into_found())
}

#[test]
fn scan_finds_the_one_peer() {
    let mut radio = open(false);
    let mut peer = Peer::on(&[42], false);
    assert_eq!(sweep(&mut radio, &mut peer, 0, 125), vec![42]);
    assert_eq!(peer.packets.len(), 126);
    for (i, (on, payload)) in peer.packets.iter().enumerate() {
        assert_eq!(*on as usize, i);
        assert_eq!(payload, &vec![0xff]);
    }
    assert_eq!(peer.control_writes, 126);
}

#[test]
fn scan_finds_the_one_peer_with_inline_framing() {
    let mut radio = open(true);
    let mut peer = Peer::on(&[42], true);
    assert_eq!(sweep(&mut radio, &mut peer, 0, 125), vec![42]);
    assert_eq!(peer.packets.len(), 126);
    assert_eq!(peer.control_writes, 0);
}

#[test]
fn scan_with_no_peer_finds_nothing() {
    let mut radio = open(false);
    let mut peer = Peer::on(&[], false);
    assert_eq!(sweep(&mut radio, &mut peer, 0, 125), Vec::<u8>::new());
    assert_eq!(peer.packets.len(), 126);
}

#[test]
fn scan_is_the_same_every_time() {
    let mut radio = open(false);
    let mut peer = Peer::on(&[3, 42, 125], false);
    let first = sweep(&mut radio, &mut peer, 0, 125);
    let second = sweep(&mut radio, &mut peer, 0, 125);
    assert_eq!(first, vec![3, 42, 125]);
    assert_eq!(second, first);
}

#[test]
fn scan_keeps_to_its_range() {
    let mut radio = open(false);
    let mut peer = Peer::on(&[3, 42, 125], false);
    assert_eq!(sweep(&mut radio, &mut peer, 4, 124), vec![42]);
    assert_eq!(peer.packets.len(), 121);
    assert_eq!(peer.packets[0].0, 4);
    assert_eq!(peer.packets[120].0, 124);
    assert_eq!(sweep(&mut radio, &mut peer, 42, 42), vec![42]);
    assert_eq!(sweep(&mut radio, &mut peer, 41, 41), Vec::<u8>::new());
}

#[test]
fn scan_over_an_empty_range_sends_nothing() {
    let mut radio = open(false);
    let mut peer = Peer::on(&[3, 42, 125], false);
    assert_eq!(sweep(&mut radio, &mut peer, 50, 40), Vec::<u8>::new());
    assert!(peer.packets.is_empty());
}

#[test]
fn probe_tunes_where_the_radio_is_elsewhere() {
    let mut radio = open(false);
    let scan = Scan::new(channel(2), channel(3));
    let probe = scan.probe(&mut radio, &[0xff, 0x05]).unwrap();
    assert_eq!(probe.channel.number(), 2);
    assert_eq!(probe.tune, None);
    assert_eq!(probe.frame, vec![0xff, 0x05]);
    let scan = scan.record(false);
    let probe = scan.probe(&mut radio, &[0xff, 0x05]).unwrap();
    assert_eq!(probe.channel.number(), 3);
    assert_eq!(
        probe.tune,
        Some(ControlRequest { command: UsbCommand::SetRadioChannel, value: 3, data: vec![] })
    );
    assert_eq!(probe.frame, vec![0xff, 0x05]);
    let scan = scan.record(true);
    assert!(scan.probe(&mut radio, &[0xff, 0x05]).is_none());
}

#[test]
fn probe_with_inline_framing_names_the_channel_in_the_frame() {
    let mut radio = open(true);
    let scan = Scan::new(channel(100), channel(100));
    let probe = scan.probe(&mut radio, &[0xff]).unwrap();
    assert_eq!(probe.tune, None);
    assert_eq!(probe.frame, vec![9, 0x12, 100, 0xe7, 0xe7, 0xe7, 0xe7, 0xe7, 0xff]);
    assert_eq!(radio.settings().channel.number(), 100);
}

#[test]
fn scan_steps_one_channel_at_a_time() {
    let scan = Scan::new(channel(124), channel(125));
    assert_eq!(scan.current().unwrap().number(), 124);
    let scan = scan.record(true);
    assert_eq!(scan.current().unwrap().number(), 125);
    let scan = scan.record(false);
    assert!(scan.current().is_none());
    let scan = scan.record(true);
    assert!(scan.current().is_none());
    assert_eq!(numbers(&scan.into_found()), vec![124]);
}

#[test]
fn send_packet_command_sets_channel_address_and_ack() {
    let mut radio = open(false);
    let request = radio.set_ack_enable(false).unwrap();
    radio.confirm(&request);
    let command =
        RadioCommand::SendPacket { channel: channel(42), address: [1, 2, 3, 4, 5], payload: vec![0xff] };
    let requests = command.prepare(&mut radio);
    assert_eq!(
        requests,
        vec![
            ControlRequest { command: UsbCommand::SetRadioChannel, value: 42, data: vec![] },
            ControlRequest {
                command: UsbCommand::SetRadioAddress,
                value: 0,
                data: vec![1, 2, 3, 4, 5]
            },
            ControlRequest { command: UsbCommand::AckEnable, value: 1, data: vec![] },
        ]
    );
    for request in &requests {
        radio.confirm(request);
    }
    assert_eq!(command.prepare(&mut radio), vec![]);
}

#[test]
fn no_ack_command_switches_acknowledgements_off() {
    let mut radio = open(false);
    let command = RadioCommand::SendPacketNoAck {
        channel: channel(2),
        address: [0xe7; 5],
        payload: vec![0xff],
    };
    let requests = command.prepare(&mut radio);
    assert_eq!(
        requests,
        vec![ControlRequest { command: UsbCommand::AckEnable, value: 0, data: vec![] }]
    );
    radio.confirm(&requests[0]);
    let command =
        RadioCommand::SendPacket { channel: channel(2), address: [0xe7; 5], payload: vec![0xff] };
    assert_eq!(
        command.prepare(&mut radio),
        vec![ControlRequest { command: UsbCommand::AckEnable, value: 1, data: vec![] }]
    );
}

#[test]
fn scan_command_sets_the_address_only() {
    let mut radio = open(false);
    let command = RadioCommand::Scan {
        start: channel(0),
        stop: channel(125),
        address: [5, 5, 5, 5, 5],
        payload: vec![0xff],
    };
    assert_eq!(
        command.prepare(&mut radio),
        vec![ControlRequest { command: UsbCommand::SetRadioAddress, value: 0, data: vec![5; 5] }]
    );
}

#[test]
fn commands_with_inline_framing_write_nothing() {
    let mut radio = open(true);
    let command = RadioCommand::SendPacketNoAck {
        channel: channel(77),
        address: [1, 2, 3, 4, 5],
        payload: vec![0xff],
    };
    assert_eq!(command.prepare(&mut radio), vec![]);
    let settings = radio.settings();
    assert_eq!(settings.channel.number(), 77);
    assert_eq!(settings.address, [1, 2, 3, 4, 5]);
    assert!(!settings.ack_enable);
}

#[test]
fn send_packet_result_keeps_the_filled_part() {
    let ack = Ack { received: true, power_detector: true, retry: 4, length: 3, rssi_dbm: None };
    let mut ack_data = vec![0u8; 32];
    ack_data[..3].copy_from_slice(&[7, 8, 9]);
    let result = SendPacketResult::new(&ack, ack_data);
    assert!(result.acked);
    assert_eq!(result.payload, vec![7, 8, 9]);
    let (ack, payload) = result.into_ack();
    assert_eq!(
        ack,
        Ack { received: true, power_detector: false, retry: 0, length: 3, rssi_dbm: None }
    );
    assert_eq!(payload, vec![7, 8, 9]);
}

#[test]
fn send_packet_result_without_acknowledgement() {
    let ack = Ack { received: false, power_detector: false, retry: 3, length: 0, rssi_dbm: None };
    let result = SendPacketResult::new(&ack, vec![0u8; 32]);
    assert!(!result.acked);
    assert!(result.payload.is_empty());
    let full = Ack { received: true, power_detector: false, retry: 0, length: 32, rssi_dbm: None };
    let result = SendPacketResult::new(&full, (1..=32u8).collect());
    assert_eq!(result.payload, (1..=32u8).collect::<Vec<u8>>());
}
