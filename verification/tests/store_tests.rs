use budsync::protocol::{AncMode, NoiseControlMode};
use budsync::store::{
    AirPodsConfiguration, ConfirmState, DeviceConfiguration, DeviceInformation, DeviceRecord,
    DeviceStore, NothingConfiguration, NothingInformation, SettingField, SettingValue, StoreError,
};

fn airpods_record(mac: &str, name: &str) -> DeviceRecord {
    DeviceRecord {
        identifier: mac.to_string(),
        information: None,
        configuration: DeviceConfiguration::AirPods(AirPodsConfiguration {
            device_name: name.to_string(),
            device_name_status: ConfirmState::Confirmed,
            listening_mode: NoiseControlMode::Off,
            listening_mode_status: ConfirmState::Confirmed,
            available_modes: vec![
                NoiseControlMode::Off,
                NoiseControlMode::NoiseCancellation,
                NoiseControlMode::Transparency,
                NoiseControlMode::Adaptive,
            ],
            personalized_volume_enabled: false,
            personalized_volume_status: ConfirmState::Confirmed,
            conversation_awareness_enabled: false,
            conversation_awareness_status: ConfirmState::Confirmed,
            allow_off_mode: true,
            allow_off_mode_status: ConfirmState::Confirmed,
        }),
    }
}

fn nothing_record(mac: &str) -> DeviceRecord {
    DeviceRecord {
        identifier: mac.to_string(),
        information: None,
        configuration: DeviceConfiguration::Nothing(NothingConfiguration {
            anc_mode: AncMode::Off,
            anc_mode_status: ConfirmState::Confirmed,
            available_anc_modes: vec![
                AncMode::NoiseCancellation,
                AncMode::Transparency,
                AncMode::Off,
            ],
        }),
    }
}

fn airpods_config(rec: &DeviceRecord) -> &AirPodsConfiguration {
    match &rec.configuration {
        DeviceConfiguration::AirPods(c) => c,
        DeviceConfiguration::Nothing(_) => panic!("expected a family-A record"),
    }
}

#[test]
fn connect_get_remove_lifecycle() {
    let mac = "AA:BB:CC:DD:EE:FF".to_string();
    let mut store = DeviceStore::new();
    assert!(store.get(&mac).is_none());

    assert_eq!(store.connect(airpods_record(&mac, "Buds")), Ok(()));
    let rec = store.get(&mac).expect("record must exist after connect");
    assert_eq!(rec.identifier, mac);
    assert_eq!(airpods_config(rec).device_name, "Buds");

    assert_eq!(
        store.connect(airpods_record(&mac, "Buds")),
        Err(StoreError::AlreadyPresent)
    );

    assert!(store.remove(&mac));
    assert!(store.get(&mac).is_none());
    assert!(!store.remove(&mac));
}

#[test]
fn two_devices_are_kept_apart() {
    let mac_a = "AA:AA:AA:AA:AA:AA".to_string();
    let mac_b = "BB:BB:BB:BB:BB:BB".to_string();
    let mut store = DeviceStore::new();
    store.connect(airpods_record(&mac_a, "Left")).unwrap();
    store.connect(nothing_record(&mac_b)).unwrap();

    store
        .upsert_optimistic(
            &mac_a,
            SettingField::DeviceName,
            SettingValue::Name("Renamed".to_string()),
        )
        .unwrap();

    assert_eq!(airpods_config(store.get(&mac_a).unwrap()).device_name, "Renamed");
    match &store.get(&mac_b).unwrap().configuration {
        DeviceConfiguration::Nothing(c) => assert_eq!(c.anc_mode, AncMode::Off),
        DeviceConfiguration::AirPods(_) => panic!("family must not change"),
    }
}

#[test]
fn optimistic_update_is_pending() {
    let mac = "AA:BB:CC:DD:EE:01".to_string();
    let mut store = DeviceStore::new();
    store.connect(airpods_record(&mac, "Buds")).unwrap();

    store
        .upsert_optimistic(
            &mac,
            SettingField::ListeningMode,
            SettingValue::Mode(NoiseControlMode::Transparency),
        )
        .unwrap();

    let cfg = airpods_config(store.get(&mac).unwrap());
    assert_eq!(cfg.listening_mode, NoiseControlMode::Transparency);
    assert_eq!(cfg.listening_mode_status, ConfirmState::Pending);
}

#[test]
fn confirmed_overwrites_optimistic_same_field() {
    let mac = "AA:BB:CC:DD:EE:02".to_string();
    let mut store = DeviceStore::new();
    store.connect(airpods_record(&mac, "Buds")).unwrap();

    store
        .upsert_optimistic(
            &mac,
            SettingField::ListeningMode,
            SettingValue::Mode(NoiseControlMode::Transparency),
        )
        .unwrap();
    store
        .apply_confirmed(
            &mac,
            SettingField::ListeningMode,
            SettingValue::Mode(NoiseControlMode::Adaptive),
        )
        .unwrap();

    let cfg = airpods_config(store.get(&mac).unwrap());
    assert_eq!(cfg.listening_mode, NoiseControlMode::Adaptive);
    assert_eq!(cfg.listening_mode_status, ConfirmState::Confirmed);
}

#[test]
fn confirmation_of_one_field_leaves_others_pending() {
    let mac = "AA:BB:CC:DD:EE:03".to_string();
    let mut store = DeviceStore::new();
    store.connect(airpods_record(&mac, "Buds")).unwrap();

    store
        .upsert_optimistic(
            &mac,
            SettingField::DeviceName,
            SettingValue::Name("Studio Buds".to_string()),
        )
        .unwrap();
    store
        .upsert_optimistic(
            &mac,
            SettingField::PersonalizedVolume,
            SettingValue::Toggle(true),
        )
        .unwrap();
    store
        .apply_confirmed(
            &mac,
            SettingField::PersonalizedVolume,
            SettingValue::Toggle(true),
        )
        .unwrap();

    let cfg = airpods_config(store.get(&mac).unwrap());
    assert_eq!(cfg.personalized_volume_enabled, true);
    assert_eq!(cfg.personalized_volume_status, ConfirmState::Confirmed);
    assert_eq!(cfg.device_name, "Studio Buds");
    assert_eq!(cfg.device_name_status, ConfirmState::Pending);
}

#[test]
fn mark_unconfirmed_keeps_the_optimistic_value() {
    let mac = "AA:BB:CC:DD:EE:04".to_string();
    let mut store = DeviceStore::new();
    store.connect(airpods_record(&mac, "Buds")).unwrap();

    store
        .upsert_optimistic(
            &mac,
            SettingField::DeviceName,
            SettingValue::Name("Studio Buds".to_string()),
        )
        .unwrap();
    store
        .mark_unconfirmed(&mac, SettingField::DeviceName)
        .unwrap();

    let cfg = airpods_config(store.get(&mac).unwrap());
    assert_eq!(cfg.device_name, "Studio Buds");
    assert_eq!(cfg.device_name_status, ConfirmState::Unconfirmed);
}

#[test]
fn information_is_attached_without_touching_the_configuration() {
    let mac = "AA:BB:CC:DD:EE:06".to_string();
    let other = "77:77:77:77:77:77".to_string();
    let mut store = DeviceStore::new();
    store.connect(nothing_record(&mac)).unwrap();

    let info = DeviceInformation::Nothing(NothingInformation {
        serial_number: "SN1234".to_string(),
        firmware_version: String::new(),
    });
    assert_eq!(
        store.set_information(&other, info.clone()).err(),
        Some(StoreError::UnknownDevice)
    );
    assert_eq!(store.set_information(&mac, info), Ok(()));

    let rec = store.get(&mac).unwrap();
    match &rec.information {
        Some(DeviceInformation::Nothing(i)) => {
            assert_eq!(i.serial_number, "SN1234");
            assert_eq!(i.firmware_version, "");
        }
        _ => panic!("the information block must be attached"),
    }
    match &rec.configuration {
        DeviceConfiguration::Nothing(c) => assert_eq!(c.anc_mode, AncMode::Off),
        DeviceConfiguration::AirPods(_) => panic!("family must not change"),
    }
}

#[test]
fn unknown_device_and_field_mismatch_errors() {
    let mac = "AA:BB:CC:DD:EE:05".to_string();
    let other = "11:22:33:44:55:66".to_string();
    let mut store = DeviceStore::new();
    store.connect(airpods_record(&mac, "Buds")).unwrap();

    assert_eq!(
        store.upsert_optimistic(
            &other,
            SettingField::DeviceName,
            SettingValue::Name("X".to_string())
        ),
        Err(StoreError::UnknownDevice)
    );
    assert_eq!(
        store.upsert_optimistic(&mac, SettingField::AncMode, SettingValue::Anc(AncMode::Off)),
        Err(StoreError::FieldMismatch)
    );
    assert_eq!(
        store.apply_confirmed(
            &mac,
            SettingField::ListeningMode,
            SettingValue::Toggle(true)
        ),
        Err(StoreError::FieldMismatch)
    );

    let cfg = airpods_config(store.get(&mac).unwrap());
    assert_eq!(cfg.device_name, "Buds");
    assert_eq!(cfg.listening_mode, NoiseControlMode::Off);
}
