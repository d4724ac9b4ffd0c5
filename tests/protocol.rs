use cashcode::nominal::BillNominal;
use cashcode::protocol::{ack, decode, encode, is_ack, CashCodeCommand, Command, Decoded};

#[test]
fn command_frames_are_fixed() {
    assert_eq!(encode(Command::Poll), vec![0x02, 0x03, 0x06, 0x33, 0xDA, 0x81]);
    assert_eq!(encode(Command::Reset), vec![0x02, 0x03, 0x06, 0x30, 0x41, 0xB3]);
    assert_eq!(
        encode(Command::Enable),
        vec![0x02, 0x03, 0x0C, 0x34, 0xFF, 0xFF, 0xFF, 0x00, 0x00, 0x00, 0xB5, 0xC1]
    );
    assert_eq!(
        encode(Command::Disable),
        vec![0x02, 0x03, 0x0C, 0x34, 0x00, 0x00, 0x00, 0x00, 0x00, 0x00, 0xB5, 0xC1]
    );
    assert_eq!(ack(), vec![0x02, 0x03, 0x06, 0x00, 0xC2, 0x82]);
}

#[test]
fn control_requests_map_to_commands() {
    assert_eq!(CashCodeCommand::Enable.command(), Command::Enable);
    assert_eq!(CashCodeCommand::Disable.command(), Command::Disable);
}

#[test]
fn ack_is_recognised_exactly() {
    assert!(is_ack(&[0x02, 0x03, 0x06, 0x00, 0xC2, 0x82]));
    assert!(!is_ack(&[0x02, 0x03, 0x06, 0x00, 0xC2]));
    assert!(!is_ack(&[0x02, 0x03, 0x06, 0x00, 0xC2, 0x82, 0x00]));
    assert!(!is_ack(&[0x02, 0x03, 0x06, 0x01, 0xC2, 0x82]));
    assert!(!is_ack(&[]));
}

#[test]
fn nominal_codes_decode_without_collisions() {
    let mut seen: Vec<BillNominal> = Vec::new();
    for code in 0u16..=255 {
        let code = code as u8;
        let r = BillNominal::from_code(code);
        match code {
            0x00 => assert_eq!(r, Some(BillNominal::Dram1000)),
            0x01 => assert_eq!(r, Some(BillNominal::Dram5000)),
            0x02 => assert_eq!(r, Some(BillNominal::Dram10000)),
            0x03 => assert_eq!(r, Some(BillNominal::Dram20000)),
            0x0C => assert_eq!(r, Some(BillNominal::Dram2000)),
            _ => assert_eq!(r, None),
        }
        if let Some(d) = r {
            assert!(!seen.contains(&d));
            seen.push(d);
        }
    }
    assert_eq!(seen.len(), 5);
}

#[test]
fn nominal_values_and_positions() {
    assert_eq!(BillNominal::Dram1000.value(), 1000);
    assert_eq!(BillNominal::Dram2000.value(), 2000);
    assert_eq!(BillNominal::Dram5000.value(), 5000);
    assert_eq!(BillNominal::Dram10000.value(), 10000);
    assert_eq!(BillNominal::Dram20000.value(), 20000);
    for i in 0..5usize {
        assert_eq!(BillNominal::at(i).index(), i);
    }
    assert_eq!(BillNominal::from_value(10000), Some(BillNominal::Dram10000));
    assert_eq!(BillNominal::from_value(3000), None);
}

#[test]
fn short_buffers_decode_to_no_frame() {
    assert_eq!(decode(&[]), Decoded::Incomplete);
    assert_eq!(decode(&[0x02]), Decoded::Incomplete);
    assert_eq!(decode(&[0x02, 0x03]), Decoded::Incomplete);
    assert_eq!(decode(&[0x02, 0x03, 0x06]), Decoded::Incomplete);
    assert_eq!(decode(&[0x05, 0x03, 0x06]), Decoded::Unrecognized);
}

#[test]
fn frames_decode_status_and_payload() {
    assert_eq!(decode(&[0x07, 0x03, 0x06, 0x14]), Decoded::Unrecognized);
    assert_eq!(
        decode(&[0x02, 0x03, 0x06, 0x14, 0xAA, 0xBB]),
        Decoded::Frame { status: 0x14, payload: None }
    );
    assert_eq!(
        decode(&[0x02, 0x03, 0x06, 0x81, 0x01, 0xAA, 0xBB]),
        Decoded::Frame { status: 0x81, payload: Some(0x01) }
    );
    assert_eq!(decode(&[0x02, 0x03, 0x06, 0x81]), Decoded::Incomplete);
    assert_eq!(decode(&[0x02, 0x03, 0x06, 0x47]), Decoded::Incomplete);
    assert_eq!(decode(&[0x02, 0x03, 0x06, 0x1C]), Decoded::Incomplete);
}
