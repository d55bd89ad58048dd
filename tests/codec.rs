use r503_codec::{
    aura_led_command, decode, encode, CodecError, Color, Identifier, Instruction, LightPattern,
    MAX_PAYLOAD,
};

fn frame_bytes(identifier: Identifier, instruction: Instruction, payload: Option<&[u8]>) -> Vec<u8> {
    encode(identifier, instruction, payload).unwrap().as_slice().to_vec()
}

#[test]
fn encode_aura_led_scenario() {
    let data = [0x01u8, 0xFF, 0x03, 0x00];
    let bytes = frame_bytes(Identifier::Command, Instruction::AuraLedConfig, Some(&data));
    let chk = compute_expected(&[0x01, 0x00, 0x07, 0x35, 0x01, 0xFF, 0x03, 0x00]);
    assert_eq!(chk, 0x0140);
    assert_eq!(
        bytes,
        vec![
            0xEF, 0x01, 0xFF, 0xFF, 0xFF, 0xFF, 0x01, 0x00, 0x07, 0x35, 0x01, 0xFF, 0x03, 0x00,
            0x01, 0x40
        ]
    );
}

fn compute_expected(bytes: &[u8]) -> u16 {
    let mut sum: u32 = 0;
    for b in bytes {
        sum += *b as u32;
    }
    (sum % 65536) as u16
}

#[test]
fn encode_without_payload_still_carries_length() {
    let bytes = frame_bytes(Identifier::Command, Instruction::GenImg, None);
    assert_eq!(
        bytes,
        vec![0xEF, 0x01, 0xFF, 0xFF, 0xFF, 0xFF, 0x01, 0x00, 0x03, 0x01, 0x00, 0x05]
    );
}

#[test]
fn encode_other_instruction_and_data_identifier() {
    let bytes = frame_bytes(Identifier::Data, Instruction::Other(0xC8), Some(&[0x10, 0x20]));
    assert_eq!(
        bytes,
        vec![0xEF, 0x01, 0xFF, 0xFF, 0xFF, 0xFF, 0x02, 0x00, 0x05, 0xC8, 0x10, 0x20, 0x00, 0xFF]
    );
}

#[test]
fn encode_largest_payload() {
    let data = vec![0xFFu8; MAX_PAYLOAD];
    let bytes = frame_bytes(Identifier::EndOfData, Instruction::VfyPwd, Some(&data));
    assert_eq!(bytes.len(), 44);
    assert_eq!(&bytes[6..9], &[0x08, 0x00, 35]);
    // 0x08 + 0x23 + 0x13 + 32 * 0xFF = 8222 = 0x201E
    assert_eq!(&bytes[42..], &[0x20, 0x1E]);
}

#[test]
fn encode_payload_of_33_bytes_fails() {
    let data = vec![0u8; 33];
    let r = encode(Identifier::Command, Instruction::AuraLedConfig, Some(&data));
    assert_eq!(r.err(), Some(CodecError::CapacityExceeded));
}

#[test]
fn round_trip_every_identifier() {
    let ids = [
        Identifier::Command,
        Identifier::Data,
        Identifier::Acknowledge,
        Identifier::EndOfData,
    ];
    for id in ids {
        let data = [0xDEu8, 0xAD, 0xBE, 0xEF, 0x00];
        let bytes = frame_bytes(id, Instruction::Search, Some(&data));
        let p = decode(&bytes).unwrap();
        assert_eq!(p.identifier, id);
        assert_eq!(p.code, 0x04);
        assert_eq!(p.data, data.to_vec());
        assert_eq!(p.address, 0xFFFF_FFFF);
    }
}

#[test]
fn round_trip_without_payload() {
    let bytes = frame_bytes(Identifier::Command, Instruction::CheckSensor, None);
    let p = decode(&bytes).unwrap();
    assert_eq!(p.identifier, Identifier::Command);
    assert_eq!(p.code, 0x36);
    assert!(p.data.is_empty());
}

#[test]
fn decode_acknowledge_with_address_and_trailing_bytes() {
    // address 0x12345678, acknowledge, length 3, confirmation 0x00, checksum 0x000A
    let bytes = [
        0xEF, 0x01, 0x12, 0x34, 0x56, 0x78, 0x07, 0x00, 0x03, 0x00, 0x00, 0x0A, 0x99, 0x98,
    ];
    let p = decode(&bytes).unwrap();
    assert_eq!(p.address, 0x1234_5678);
    assert_eq!(p.identifier, Identifier::Acknowledge);
    assert_eq!(p.code, 0x00);
    assert!(p.data.is_empty());
}

#[test]
fn decode_bad_header() {
    let mut bytes = frame_bytes(Identifier::Command, Instruction::GenImg, None);
    bytes[1] = 0x00;
    assert_eq!(decode(&bytes).err(), Some(CodecError::BadHeader));
}

#[test]
fn decode_unknown_identifier() {
    let bytes = [0xEF, 0x01, 0xFF, 0xFF, 0xFF, 0xFF, 0x03, 0x00, 0x03, 0x01, 0x00, 0x07];
    assert_eq!(decode(&bytes).err(), Some(CodecError::UnknownIdentifier));
}

#[test]
fn decode_truncated_inputs() {
    let full = frame_bytes(Identifier::Command, Instruction::AuraLedConfig, Some(&[1, 2, 3]));
    for n in 0..full.len() {
        assert_eq!(decode(&full[..n]).err(), Some(CodecError::Truncated), "prefix {}", n);
    }
    assert!(decode(&full).is_ok());
}

#[test]
fn decode_declared_length_too_short() {
    let bytes = [0xEF, 0x01, 0xFF, 0xFF, 0xFF, 0xFF, 0x01, 0x00, 0x02, 0x00, 0x03];
    assert_eq!(decode(&bytes).err(), Some(CodecError::Truncated));
}

#[test]
fn decode_flipped_data_bit() {
    let data = [0x01u8, 0xFF, 0x03, 0x00];
    let good = frame_bytes(Identifier::Command, Instruction::AuraLedConfig, Some(&data));
    for i in 9..14 {
        for bit in 0..8 {
            let mut bad = good.clone();
            bad[i] ^= 1 << bit;
            assert_eq!(decode(&bad).err(), Some(CodecError::ChecksumMismatch));
        }
    }
}

#[test]
fn decode_corrupted_checksum_field() {
    let mut bytes = frame_bytes(Identifier::Command, Instruction::GenImg, None);
    bytes[11] ^= 0x01;
    assert_eq!(decode(&bytes).err(), Some(CodecError::ChecksumMismatch));
}

#[test]
fn identifier_bytes() {
    assert_eq!(Identifier::Command.to_byte(), 0x01);
    assert_eq!(Identifier::Data.to_byte(), 0x02);
    assert_eq!(Identifier::Acknowledge.to_byte(), 0x07);
    assert_eq!(Identifier::EndOfData.to_byte(), 0x08);
    assert_eq!(Identifier::from_byte(0x07), Some(Identifier::Acknowledge));
    assert_eq!(Identifier::from_byte(0x00), None);
    assert_eq!(Identifier::from_byte(0x09), None);
}

#[test]
fn instruction_codes() {
    assert_eq!(Instruction::AuraLedConfig.code(), 0x35);
    assert_eq!(Instruction::VfyPwd.code(), 0x13);
    assert_eq!(Instruction::HandShake.code(), 0x40);
    assert_eq!(Instruction::Other(0x77).code(), 0x77);
}

#[test]
fn aura_led_command_white_breathing() {
    let f = aura_led_command(LightPattern::Breathing, 0xFF, Color::White, 0x00);
    assert_eq!(
        f.as_slice(),
        &[
            0xEF, 0x01, 0xFF, 0xFF, 0xFF, 0xFF, 0x01, 0x00, 0x07, 0x35, 0x01, 0xFF, 0x07, 0x00,
            0x01, 0x44
        ]
    );
}

#[test]
fn aura_led_command_matches_encode() {
    let f = aura_led_command(LightPattern::Flashing, 0x10, Color::Cyan, 0x03);
    let expected = frame_bytes(
        Identifier::Command,
        Instruction::AuraLedConfig,
        Some(&[0x02, 0x10, 0x06, 0x03]),
    );
    assert_eq!(f.as_slice(), expected.as_slice());
}

#[test]
fn touch_edges_pick_colors() {
    assert_eq!(r503_codec::touch_color(true), Color::Blue);
    assert_eq!(r503_codec::touch_color(false), Color::Cyan);
}
