use budsync::encoder::{
    build_raw_frame, encode, encode_anc_command, encode_toggle, CommandValue, EncodingError,
};
use budsync::protocol::{AncMode, CharacteristicHandle, CommandIdentifier, NoiseControlMode};

#[test]
fn toggle_bytes_are_one_and_two() {
    assert_eq!(encode_toggle(true), 0x01);
    assert_eq!(encode_toggle(false), 0x02);
}

#[test]
fn every_boolean_identifier_uses_the_toggle_convention() {
    let toggles = [
        CommandIdentifier::AdaptiveVolumeConfig,
        CommandIdentifier::ConversationDetectConfig,
        CommandIdentifier::AllowOffOption,
    ];
    for id in toggles {
        assert_eq!(encode(id, CommandValue::Toggle(true)), Ok(vec![0x01]));
        assert_eq!(encode(id, CommandValue::Toggle(false)), Ok(vec![0x02]));
    }
}

#[test]
fn listening_mode_bytes() {
    let cases = [
        (NoiseControlMode::Off, 0x01u8),
        (NoiseControlMode::NoiseCancellation, 0x02),
        (NoiseControlMode::Transparency, 0x03),
        (NoiseControlMode::Adaptive, 0x04),
    ];
    for (mode, byte) in cases {
        assert_eq!(
            encode(CommandIdentifier::ListeningMode, CommandValue::Mode(mode)),
            Ok(vec![byte])
        );
        assert_eq!(mode.to_byte(), byte);
        assert_eq!(NoiseControlMode::from_byte(byte), Some(mode));
    }
    assert_eq!(NoiseControlMode::from_byte(0x05), None);
}

#[test]
fn raw_frame_layout_is_pinned() {
    let frame = build_raw_frame(0x02);
    assert_eq!(
        frame,
        vec![0x55, 0x60, 0x01, 0x0F, 0xF0, 0x03, 0x00, 0x00, 0x01, 0x02, 0x00, 0x00, 0x00]
    );
    assert_eq!(frame.len(), 13);
    assert_eq!(frame[9], 0x02);
}

#[test]
fn anc_command_frames() {
    assert_eq!(encode_anc_command(AncMode::NoiseCancellation)[9], 0x01);
    assert_eq!(encode_anc_command(AncMode::Transparency)[9], 0x02);
    assert_eq!(encode_anc_command(AncMode::Off)[9], 0x03);
    for m in [AncMode::NoiseCancellation, AncMode::Transparency, AncMode::Off] {
        assert_eq!(encode_anc_command(m), build_raw_frame(m.to_byte()));
    }
}

#[test]
fn rename_payload_is_the_utf8_bytes_of_any_name() {
    let r = encode(
        CommandIdentifier::Rename,
        CommandValue::Name("Studio Buds".to_string()),
    );
    assert_eq!(r, Ok(b"Studio Buds".to_vec()));

    let r = encode(
        CommandIdentifier::Rename,
        CommandValue::Name("Écouteurs".to_string()),
    );
    assert_eq!(r, Ok("Écouteurs".as_bytes().to_vec()));

    let r = encode(CommandIdentifier::Rename, CommandValue::Name(String::new()));
    assert_eq!(r, Ok(Vec::new()));
}

#[test]
fn unmapped_pairs_are_encoding_errors() {
    assert_eq!(
        encode(CommandIdentifier::ListeningMode, CommandValue::Toggle(true)),
        Err(EncodingError::NoTableEntry)
    );
    assert_eq!(
        encode(
            CommandIdentifier::AllowOffOption,
            CommandValue::Mode(NoiseControlMode::Off)
        ),
        Err(EncodingError::NoTableEntry)
    );
    assert_eq!(
        encode(
            CommandIdentifier::AdaptiveVolumeConfig,
            CommandValue::Name("x".to_string())
        ),
        Err(EncodingError::NoTableEntry)
    );
}

#[test]
fn command_codes_round_trip() {
    let ids = [
        (CommandIdentifier::ListeningMode, 0x0Du8),
        (CommandIdentifier::AdaptiveVolumeConfig, 0x26),
        (CommandIdentifier::ConversationDetectConfig, 0x28),
        (CommandIdentifier::AllowOffOption, 0x34),
        (CommandIdentifier::Rename, 0x1A),
    ];
    for (id, code) in ids {
        assert_eq!(id.code(), code);
        assert_eq!(CommandIdentifier::from_code(code), Some(id));
    }
    assert_eq!(CommandIdentifier::from_code(0x00), None);
}

#[test]
fn characteristic_handles_round_trip() {
    assert_eq!(CharacteristicHandle::NothingEverything.value(), 0x002E);
    assert_eq!(
        CharacteristicHandle::from_value(0x002E),
        Some(CharacteristicHandle::NothingEverything)
    );
    assert_eq!(CharacteristicHandle::from_value(0xFFFF), None);
}
