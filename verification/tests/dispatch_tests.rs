use budsync::decoder::{field_for_command, target_field};
use budsync::dispatch::{
    prepare_command, prepare_raw_write, CommandTarget, Dispatcher, QueuedCommand, TransportError,
};
use budsync::encoder::{encode_anc_command, CommandValue, EncodingError};
use budsync::protocol::{AncMode, CharacteristicHandle, CommandIdentifier, NoiseControlMode};
use budsync::store::SettingField;

fn toggle_command(id: CommandIdentifier, enabled: bool) -> QueuedCommand {
    prepare_command(id, CommandValue::Toggle(enabled)).unwrap()
}

#[test]
fn prepare_command_carries_the_encoded_payload() {
    let cmd = prepare_command(
        CommandIdentifier::ListeningMode,
        CommandValue::Mode(NoiseControlMode::Transparency),
    )
    .unwrap();
    assert_eq!(cmd.target, CommandTarget::Control(CommandIdentifier::ListeningMode));
    assert_eq!(cmd.payload, vec![0x03]);

    let refused = prepare_command(CommandIdentifier::ListeningMode, CommandValue::Toggle(true));
    assert_eq!(refused.err(), Some(EncodingError::NoTableEntry));
}

#[test]
fn prepare_raw_write_carries_the_frame() {
    let cmd = prepare_raw_write(
        CharacteristicHandle::NothingEverything,
        AncMode::Transparency.to_byte(),
    );
    assert_eq!(
        cmd.target,
        CommandTarget::Characteristic(CharacteristicHandle::NothingEverything)
    );
    assert_eq!(cmd.payload, encode_anc_command(AncMode::Transparency));
    assert_eq!(cmd.payload[9], 0x02);
}

#[test]
fn every_target_maps_to_the_field_it_writes() {
    let cases = [
        (CommandIdentifier::ListeningMode, SettingField::ListeningMode),
        (CommandIdentifier::AdaptiveVolumeConfig, SettingField::PersonalizedVolume),
        (
            CommandIdentifier::ConversationDetectConfig,
            SettingField::ConversationAwareness,
        ),
        (CommandIdentifier::AllowOffOption, SettingField::AllowOffMode),
        (CommandIdentifier::Rename, SettingField::DeviceName),
    ];
    for (id, field) in cases {
        assert_eq!(field_for_command(id), field);
        assert_eq!(target_field(CommandTarget::Control(id)), field);
    }
    assert_eq!(
        target_field(CommandTarget::Characteristic(
            CharacteristicHandle::NothingEverything
        )),
        SettingField::AncMode
    );
}

#[test]
fn commands_reach_the_transport_in_issuance_order() {
    let mut d = Dispatcher::new(true);
    d.issue(toggle_command(CommandIdentifier::AdaptiveVolumeConfig, true))
        .unwrap();
    d.issue(toggle_command(CommandIdentifier::ConversationDetectConfig, false))
        .unwrap();
    d.issue(toggle_command(CommandIdentifier::AllowOffOption, true))
        .unwrap();

    let mut observed: Vec<(CommandTarget, Vec<u8>)> = Vec::new();
    while d.take_next() {
        let cmd = d.current().expect("a command must be in flight");
        observed.push((cmd.target, cmd.payload.clone()));
        assert!(d.complete(None).is_none());
    }

    assert_eq!(
        observed,
        vec![
            (
                CommandTarget::Control(CommandIdentifier::AdaptiveVolumeConfig),
                vec![0x01]
            ),
            (
                CommandTarget::Control(CommandIdentifier::ConversationDetectConfig),
                vec![0x02]
            ),
            (
                CommandTarget::Control(CommandIdentifier::AllowOffOption),
                vec![0x01]
            ),
        ]
    );
}

#[test]
fn raw_writes_are_queued_and_drained_like_commands() {
    let mut d = Dispatcher::new(true);
    let modes = [AncMode::Transparency, AncMode::Off, AncMode::NoiseCancellation];
    for mode in modes {
        d.issue(prepare_raw_write(
            CharacteristicHandle::NothingEverything,
            mode.to_byte(),
        ))
        .unwrap();
    }

    let mut observed: Vec<Vec<u8>> = Vec::new();
    while d.take_next() {
        let cmd = d.current().expect("a command must be in flight");
        assert_eq!(
            cmd.target,
            CommandTarget::Characteristic(CharacteristicHandle::NothingEverything)
        );
        observed.push(cmd.payload.clone());
        assert!(d.complete(None).is_none());
    }

    let expected: Vec<Vec<u8>> = modes.iter().map(|m| encode_anc_command(*m)).collect();
    assert_eq!(observed, expected);
}

#[test]
fn issue_while_disconnected_is_refused() {
    let mut d = Dispatcher::new(false);
    assert_eq!(
        d.issue(toggle_command(CommandIdentifier::AllowOffOption, true)),
        Err(TransportError::Disconnected)
    );
    assert!(!d.take_next());
}

#[test]
fn a_failed_write_is_reported_not_fatal() {
    let mut d = Dispatcher::new(true);
    d.issue(toggle_command(CommandIdentifier::AdaptiveVolumeConfig, true))
        .unwrap();
    assert!(d.take_next());
    let report = d
        .complete(Some(TransportError::WriteRejected))
        .expect("a failure must be reported");
    assert_eq!(
        report.0.target,
        CommandTarget::Control(CommandIdentifier::AdaptiveVolumeConfig)
    );
    assert_eq!(report.1, TransportError::WriteRejected);

    // The dispatcher keeps working after the failure.
    d.issue(toggle_command(CommandIdentifier::AllowOffOption, false))
        .unwrap();
    assert!(d.take_next());
    assert!(d.complete(None).is_none());
}

#[test]
fn link_loss_abandons_in_flight_and_queued_commands_in_order() {
    let mut d = Dispatcher::new(true);
    d.issue(toggle_command(CommandIdentifier::AdaptiveVolumeConfig, true))
        .unwrap();
    d.issue(toggle_command(CommandIdentifier::ConversationDetectConfig, true))
        .unwrap();
    d.issue(toggle_command(CommandIdentifier::AllowOffOption, true))
        .unwrap();
    assert!(d.take_next());

    let abandoned = d.link_lost();
    let targets: Vec<CommandTarget> = abandoned.iter().map(|c| c.target).collect();
    assert_eq!(
        targets,
        vec![
            CommandTarget::Control(CommandIdentifier::AdaptiveVolumeConfig),
            CommandTarget::Control(CommandIdentifier::ConversationDetectConfig),
            CommandTarget::Control(CommandIdentifier::AllowOffOption),
        ]
    );

    assert_eq!(
        d.issue(toggle_command(CommandIdentifier::AllowOffOption, true)),
        Err(TransportError::Disconnected)
    );

    d.link_restored();
    assert_eq!(
        d.issue(toggle_command(CommandIdentifier::AllowOffOption, true)),
        Ok(())
    );
    assert!(d.take_next());
    assert!(d.complete(None).is_none());
}
