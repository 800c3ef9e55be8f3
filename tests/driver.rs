use lepton_driver::cci::{CCI_ADDRESS, LEPTONCCI};
use lepton_driver::command::{from_be, to_be, Direction, LepCommand, Parameter, Register};
use lepton_driver::lepton::{FrameOutcome, Lepton, FRAME_PACKETS, FRAME_REST_SIZE, FRAME_SIZE};
use lepton_driver::packet::{
    check_crc, checksum_input, validate_packet, verdict_for_checksum, DiscardReason,
    PacketVerdict, PACKET_SIZE,
};
use lepton_driver::status::LepStatus;
use lepton_driver::{BusAction, BusEvent, CciError, CciSession};

/// Bit-by-bit CRC-16/XMODEM, kept apart from the library's checksum.
fn xmodem(data: &[u8]) -> u16 {
    let mut crc: u16 = 0;
    for &b in data {
        crc ^= (b as u16) << 8;
        for _ in 0..8 {
            crc = if crc & 0x8000 != 0 { (crc << 1) ^ 0x1021 } else { crc << 1 };
        }
    }
    crc
}

fn packet(line: u16, fill: u8) -> Vec<u8> {
    let mut p = vec![0u8; PACKET_SIZE];
    p[0] = (line >> 8) as u8;
    p[1] = line as u8;
    for (i, b) in p.iter_mut().enumerate().skip(4) {
        *b = fill.wrapping_add(i as u8);
    }
    let mut covered = p.clone();
    covered[0] &= 0x0f;
    let crc = xmodem(&covered);
    p[2] = (crc >> 8) as u8;
    p[3] = crc as u8;
    p
}

fn frame_packets(fill: u8) -> Vec<Vec<u8>> {
    (0..FRAME_PACKETS as u16).map(|i| packet(i, fill)).collect()
}

fn split(packets: &[Vec<u8>]) -> (Vec<u8>, Vec<u8>) {
    let first = packets[0].clone();
    let rest: Vec<u8> = packets[1..].iter().flatten().copied().collect();
    (first, rest)
}

fn run(session: &mut CciSession, reads: &[[u8; 2]]) -> Vec<BusAction> {
    let mut actions = Vec::new();
    let mut next_read = 0;
    loop {
        let action = session.next_action();
        actions.push(action);
        match action {
            BusAction::Write { .. } => session.on_event(BusEvent::Written),
            BusAction::WriteRead { .. } => {
                session.on_event(BusEvent::Read { data: reads[next_read] });
                next_read += 1;
            }
            BusAction::Sleep => session.on_event(BusEvent::Slept),
            BusAction::Done => break,
        }
    }
    assert_eq!(next_read, reads.len());
    actions
}

#[test]
fn reference_checksum_matches_known_value() {
    assert_eq!(xmodem(b"123456789"), 0x31c3);
}

#[test]
fn status_zero_is_success() {
    assert_eq!(LepStatus::from_code(0), LepStatus::Success);
    assert!(LepStatus::from_code(0).is_ok());
}

#[test]
fn documented_status_codes_are_distinct() {
    let documented: [i8; 23] = [
        0, -1, -2, -3, -4, -5, -6, -7, -8, -9, -11, -15, -16, -18, -20, -22, -23, -24, -25, -26,
        -80, -126, -127,
    ];
    for (i, &a) in documented.iter().enumerate() {
        let sa = LepStatus::from_code(a);
        assert!(!matches!(sa, LepStatus::Unknown(_)));
        assert_eq!(sa.code(), a);
        for &b in &documented[i + 1..] {
            assert_ne!(sa, LepStatus::from_code(b));
        }
    }
    assert_eq!(LepStatus::from_code(-2), LepStatus::Busy);
    assert_eq!(LepStatus::from_code(-3), LepStatus::RangeError);
}

#[test]
fn undocumented_status_is_unknown() {
    for c in [-10i8, -50, 1, 5, 127] {
        assert_eq!(LepStatus::from_code(c), LepStatus::Unknown(c));
        assert_ne!(LepStatus::from_code(c), LepStatus::Success);
        assert_eq!(LepStatus::from_code(c).code(), c);
    }
}

#[test]
fn get_and_set_commands_differ() {
    for p in [
        Parameter::PhaseDelay,
        Parameter::GpioMode,
        Parameter::VideoOutputSource,
        Parameter::VideoOutputConstant,
        Parameter::TelemetryMode,
        Parameter::AgcEnable,
    ] {
        let get = LepCommand::encode(p, Direction::Read);
        let set = LepCommand::encode(p, Direction::Write);
        assert_ne!(get, set);
        assert_eq!(get.command_id ^ set.command_id, 1);
        assert_eq!(get.data_length, 2);
    }
    assert_eq!(LepCommand::get_oem_phase_delay().command_id, 0x4858);
    assert_eq!(LepCommand::set_oem_phase_delay().command_id, 0x4859);
    assert_eq!(LepCommand::get_oem_gpio_mode().command_id, 0x4854);
    assert_eq!(LepCommand::set_oem_gpio_mode().command_id, 0x4855);
}

#[test]
fn command_wire_round_trip() {
    let c = LepCommand::set_oem_phase_delay();
    assert_eq!(c.get_command_id(), [0x48, 0x59]);
    assert_eq!(c.get_data_length(), [0x00, 0x02]);
    assert_eq!(LepCommand::from_wire(c.get_command_id(), c.get_data_length()), c);
    let odd = LepCommand { command_id: 0xabcd, data_length: 0x1234 };
    assert_eq!(LepCommand::from_wire(odd.get_command_id(), odd.get_data_length()), odd);
    assert_eq!(from_be(to_be(0xfffd)), 0xfffd);
    assert_eq!(to_be(0x0102), [1, 2]);
}

#[test]
fn register_addresses() {
    assert_eq!(Register::CCIPower.address(), 0x0000);
    assert_eq!(Register::CCIStatus.address(), 0x0002);
    assert_eq!(Register::CCICommandID.address(), 0x0004);
    assert_eq!(Register::CCIDataLength.address(), 0x0006);
    assert_eq!(Register::CCIDataReg0.address(), 0x0008);
}

#[test]
fn packet_with_correct_checksum_is_accepted() {
    let p = packet(5, 17);
    assert!(check_crc(&p));
    assert_eq!(validate_packet(&p), PacketVerdict::Accept);
    let computed = xmodem(&checksum_input(&p));
    assert_eq!(verdict_for_checksum(&p, computed), PacketVerdict::Accept);
    assert_eq!(
        verdict_for_checksum(&p, computed ^ 1),
        PacketVerdict::Discard(DiscardReason::Checksum)
    );
}

#[test]
fn checksum_ignores_top_nibble_of_identifier() {
    let mut p = packet(5, 17);
    p[0] |= 0xa0;
    assert_eq!(validate_packet(&p), PacketVerdict::Accept);
}

#[test]
fn checksum_input_masks_without_touching_packet() {
    let p = packet(0x0f3e & 0xf3e, 9);
    let mut q = p.clone();
    q[0] = 0xf1;
    let c = checksum_input(&q);
    assert_eq!(q[0], 0xf1);
    assert_eq!(c[0], 0x01);
    assert_eq!(c[2], 0);
    assert_eq!(c[3], 0);
    assert_eq!(&c[4..], &q[4..]);
}

#[test]
fn marked_packet_is_discarded_whatever_its_checksum() {
    let mut p = packet(0x0f00, 3);
    assert_eq!(validate_packet(&p), PacketVerdict::Discard(DiscardReason::Marked));
    p[2] = 0;
    p[3] = 0;
    assert_eq!(validate_packet(&p), PacketVerdict::Discard(DiscardReason::Marked));
    p[0] = 0xff;
    assert_eq!(validate_packet(&p), PacketVerdict::Discard(DiscardReason::Marked));
}

#[test]
fn single_bit_flip_is_discarded() {
    let p = packet(7, 40);
    for byte in [1usize, 4, 5, 80, 163] {
        for bit in 0..8 {
            let mut q = p.clone();
            q[byte] ^= 1 << bit;
            assert_eq!(validate_packet(&q), PacketVerdict::Discard(DiscardReason::Checksum));
        }
    }
    for bit in 0..4 {
        let mut q = p.clone();
        q[0] ^= 1 << bit;
        assert_ne!(validate_packet(&q), PacketVerdict::Accept);
    }
}

#[test]
fn new_device_has_empty_frame() {
    let lepton = Lepton::new();
    assert_eq!(lepton.get_frame().len(), FRAME_SIZE);
    assert!(lepton.get_frame().iter().all(|&b| b == 0));
    assert_eq!(lepton.cci().address, CCI_ADDRESS);
    assert_eq!(lepton.cci().max_polls, None);
}

#[test]
fn valid_frame_is_published() {
    let mut lepton = Lepton::new();
    let packets = frame_packets(1);
    let (first, rest) = split(&packets);
    assert_eq!(rest.len(), FRAME_REST_SIZE);
    assert!(Lepton::check_packet(&first));
    assert_eq!(lepton.read_frame(&first, &rest), FrameOutcome::Published);
    let expected: Vec<u8> = packets.concat();
    assert_eq!(lepton.get_frame(), &expected[..]);
}

#[test]
fn frame_not_starting_at_line_zero_is_not_assembled() {
    let mut lepton = Lepton::new();
    let packets: Vec<Vec<u8>> = (1..=FRAME_PACKETS as u16).map(|i| packet(i, 2)).collect();
    let (first, rest) = split(&packets);
    assert!(!Lepton::check_packet(&first));
    assert_eq!(lepton.read_frame(&first, &rest), FrameOutcome::NotSynchronized);
    assert!(lepton.get_frame().iter().all(|&b| b == 0));
}

#[test]
fn marked_packet_discards_frame_and_keeps_buffer() {
    let mut lepton = Lepton::new();
    let good = frame_packets(1);
    let (first, rest) = split(&good);
    assert_eq!(lepton.read_frame(&first, &rest), FrameOutcome::Published);
    let before = lepton.get_frame().to_vec();

    let mut packets = frame_packets(2);
    packets[37][0] |= 0x0f;
    let (first, rest) = split(&packets);
    assert_eq!(
        lepton.read_frame(&first, &rest),
        FrameOutcome::Discarded { index: 37, reason: DiscardReason::Marked }
    );
    assert_eq!(lepton.get_frame(), &before[..]);
}

#[test]
fn checksum_failure_discards_frame_and_keeps_buffer() {
    let mut lepton = Lepton::new();
    let good = frame_packets(1);
    let (first, rest) = split(&good);
    assert_eq!(lepton.read_frame(&first, &rest), FrameOutcome::Published);
    let before = lepton.get_frame().to_vec();

    let mut packets = frame_packets(3);
    packets[12][100] ^= 0x10;
    let (first, rest) = split(&packets);
    assert_eq!(
        lepton.read_frame(&first, &rest),
        FrameOutcome::Discarded { index: 12, reason: DiscardReason::Checksum }
    );
    assert_eq!(lepton.get_frame(), &before[..]);
}

#[test]
fn boot_and_interface_status_from_status_register() {
    let lepton = Lepton::new();
    let mut boot = lepton.get_boot_status();
    let actions = run(&mut boot, &[[0x00, 0x02]]);
    assert_eq!(actions, vec![BusAction::WriteRead { address: [0x00, 0x02] }, BusAction::Done]);
    assert_eq!(boot.boot_status(), Ok(true));
    let mut interface = lepton.get_interface_status();
    run(&mut interface, &[[0x00, 0x02]]);
    assert_eq!(interface.interface_status(), Ok(true));

    let mut busy = lepton.get_interface_status();
    run(&mut busy, &[[0x00, 0x01]]);
    assert_eq!(busy.interface_status(), Ok(false));
    assert_eq!(busy.boot_status(), Ok(false));
}

#[test]
fn status_code_from_upper_byte() {
    let cci = LEPTONCCI::new();
    let mut s = cci.get_status_code();
    run(&mut s, &[[0xfd, 0x06]]);
    assert_eq!(s.status_code(), Ok(LepStatus::RangeError));
    let mut s = cci.get_status_code();
    run(&mut s, &[[0x00, 0x06]]);
    assert_eq!(s.status_code(), Ok(LepStatus::Success));
}

#[test]
fn set_phase_delay_session() {
    let lepton = Lepton::new();
    let mut s = lepton.set_phase_delay(-3);
    let actions = run(&mut s, &[[0x00, 0x03], [0x00, 0x02], [0x00, 0x02]]);
    assert_eq!(
        actions,
        vec![
            BusAction::Write { bytes: [0x00, 0x08, 0xff, 0xfd] },
            BusAction::Write { bytes: [0x00, 0x06, 0x00, 0x02] },
            BusAction::Write { bytes: [0x00, 0x04, 0x48, 0x59] },
            BusAction::WriteRead { address: [0x00, 0x02] },
            BusAction::Sleep,
            BusAction::WriteRead { address: [0x00, 0x02] },
            BusAction::WriteRead { address: [0x00, 0x02] },
            BusAction::Done,
        ]
    );
    assert_eq!(s.status_code(), Ok(LepStatus::Success));
}

#[test]
fn get_phase_delay_session() {
    let lepton = Lepton::new();
    let mut s = lepton.get_phase_delay();
    let actions = run(&mut s, &[[0x00, 0x00], [0xff, 0xfd], [0x00, 0x02]]);
    assert_eq!(
        actions,
        vec![
            BusAction::Write { bytes: [0x00, 0x06, 0x00, 0x02] },
            BusAction::Write { bytes: [0x00, 0x04, 0x48, 0x58] },
            BusAction::WriteRead { address: [0x00, 0x02] },
            BusAction::WriteRead { address: [0x00, 0x08] },
            BusAction::WriteRead { address: [0x00, 0x02] },
            BusAction::Done,
        ]
    );
    assert_eq!(s.value_and_status(), Ok((0xfffd, LepStatus::Success)));
    assert_eq!(s.signed_value_and_status(), Ok((-3, LepStatus::Success)));
}

#[test]
fn gpio_and_video_sessions() {
    let lepton = Lepton::new();
    let mut s = lepton.set_gpio_mode(5);
    let actions = run(&mut s, &[[0x00, 0x02], [0xf5, 0x02]]);
    assert_eq!(actions[0], BusAction::Write { bytes: [0x00, 0x08, 0x00, 0x05] });
    assert_eq!(actions[2], BusAction::Write { bytes: [0x00, 0x04, 0x48, 0x55] });
    assert_eq!(s.status_code(), Ok(LepStatus::CommandNotAllowed));

    let mut s = lepton.get_video_output_source();
    let actions = run(&mut s, &[[0x00, 0x00], [0x00, 0x03], [0x00, 0x00]]);
    assert_eq!(actions[1], BusAction::Write { bytes: [0x00, 0x04, 0x48, 0x2c] });
    assert_eq!(s.value_and_status(), Ok((3, LepStatus::Success)));

    let mut s = lepton.set_video_output_constant(0xffff);
    let actions = run(&mut s, &[[0x00, 0x00], [0x00, 0x00]]);
    assert_eq!(actions[0], BusAction::Write { bytes: [0x00, 0x08, 0xff, 0xff] });
    assert_eq!(actions[2], BusAction::Write { bytes: [0x00, 0x04, 0x48, 0x3d] });

    let mut s = lepton.set_agc_enable(1);
    let actions = run(&mut s, &[[0x00, 0x00], [0x00, 0x00]]);
    assert_eq!(actions[2], BusAction::Write { bytes: [0x00, 0x04, 0x01, 0x01] });

    let mut s = lepton.get_telemetry_mode();
    let actions = run(&mut s, &[[0x00, 0x00], [0x00, 0x01], [0x00, 0x00]]);
    assert_eq!(actions[1], BusAction::Write { bytes: [0x00, 0x04, 0x02, 0x18] });
    assert_eq!(s.value_and_status(), Ok((1, LepStatus::Success)));
}

#[test]
fn bounded_wait_reports_unresponsive() {
    let lepton = Lepton::new().with_max_polls(2);
    let mut s = lepton.set_telemetry_mode(1);
    let actions = run(&mut s, &[[0x00, 0x01], [0x00, 0x01]]);
    assert_eq!(actions.last(), Some(&BusAction::Done));
    assert_eq!(s.status_code(), Err(CciError::Unresponsive));
    assert_eq!(lepton.cci().max_polls, Some(2));
}

#[test]
fn unfinished_session_has_no_result() {
    let lepton = Lepton::new();
    let mut s = lepton.get_gpio_mode();
    assert_eq!(s.value_and_status(), Err(CciError::Incomplete));
    s.on_event(BusEvent::Slept);
    assert_eq!(s.position, 0);
    s.on_event(BusEvent::Read { data: [0, 0] });
    assert_eq!(s.position, 0);
    assert!(!s.is_done());
}

#[test]
fn command_steps_put_length_before_identifier() {
    let writes = LEPTONCCI::write_command(LepCommand::set_oem_gpio_mode(), Some(9));
    assert_eq!(writes.len(), 4);
    assert_eq!(LEPTONCCI::write_register(Register::CCIDataLength, 2), [0, 6, 0, 2]);
    let mut s = CciSession::new(writes, None);
    let actions = run(&mut s, &[[0, 0]]);
    assert_eq!(actions[1], BusAction::Write { bytes: [0x00, 0x06, 0x00, 0x02] });
    assert_eq!(actions[2], BusAction::Write { bytes: [0x00, 0x04, 0x48, 0x55] });
}
