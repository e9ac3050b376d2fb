//! Notification decoder and event bus: turns raw inbound protocol events —
//! framed family-A events, or family-B raw notifications keyed by attribute
//! handle — into typed reconciliation updates, and applies them to the
//! device state store as authoritative, hardware-confirmed values.  Unknown
//! handles and unrecognized payloads decode to nothing: they are recorded
//! as diagnostics and never raise an unrecoverable error.

use vstd::prelude::*;
use crate::messages::BluetoothUIMessage;
use crate::protocol::{
    anc_mode_byte, anc_mode_of_byte, command_code, command_of_code, frame_bytes, handle_of_value,
    handle_value, lemma_anc_mode_inverse, listening_mode_of_byte, toggle_byte, AACPEvent, AncMode,
    CharacteristicHandle, CommandIdentifier,
};
use crate::dispatch::CommandTarget;
use crate::encoder::{spec_encode, CommandValue};
use crate::store::{
    apply_field, ConfirmState, DeviceStore, DiagModel, ProtocolError, RecordModel, SettingField,
    SettingValue, StoreError, ValueModel,
};

verus! {

/// A raw inbound event, before decoding: either a framed family-A event or
/// a family-B `(attribute handle, payload)` notification.
#[derive(Debug)]
pub enum RawEvent {
    Framed(AACPEvent),
    Raw(u16, Vec<u8>),
}

/// A typed reconciliation update: the authoritative value of one field of
/// one device.
#[derive(Debug)]
pub struct StateUpdate {
    pub device_id: String,
    pub field: SettingField,
    pub value: SettingValue,
}

/// Whether `data` is a well-formed family-B raw frame: 13 bytes that equal
/// the frame built around the byte at the payload offset.
pub open spec fn is_raw_frame(data: Seq<u8>) -> bool {
    data.len() == 13 && data == frame_bytes(data[9])
}

/// Decodes a family-B raw notification: the ANC mode carried by a
/// well-formed frame addressed to a known characteristic, `None` otherwise.
pub open spec fn spec_decode_raw(handle: u16, data: Seq<u8>) -> Option<AncMode> {
    match handle_of_value(handle) {
        Some(CharacteristicHandle::NothingEverything) => if is_raw_frame(data) {
            anc_mode_of_byte(data[9])
        } else {
            None
        },
        None => None,
    }
}

/// Decodes a one-byte toggle payload against the wire convention:
/// `0x01` is enabled, `0x02` is disabled, anything else is unrecognized.
pub open spec fn spec_decode_toggle(payload: Seq<u8>, f: SettingField) -> Option<
    (SettingField, ValueModel),
> {
    if payload.len() == 1 && payload[0] == toggle_byte(true) {
        Some((f, ValueModel::Toggle(true)))
    } else if payload.len() == 1 && payload[0] == toggle_byte(false) {
        Some((f, ValueModel::Toggle(false)))
    } else {
        None
    }
}

/// Decodes a framed family-A event into the field it confirms and the
/// confirmed value.  Rename confirmations arrive as `NameUpdated`; an ack
/// whose code or payload the tables do not map decodes to `None`.
pub open spec fn spec_decode_aacp(ev: AACPEvent) -> Option<(SettingField, ValueModel)> {
    match ev {
        AACPEvent::ControlCommandAck(code, payload) => match command_of_code(code) {
            Some(CommandIdentifier::ListeningMode) => if payload@.len() == 1 {
                match listening_mode_of_byte(payload@[0]) {
                    Some(m) => Some((SettingField::ListeningMode, ValueModel::Mode(m))),
                    None => None,
                }
            } else {
                None
            },
            Some(CommandIdentifier::AdaptiveVolumeConfig) => spec_decode_toggle(
                payload@,
                SettingField::PersonalizedVolume,
            ),
            Some(CommandIdentifier::ConversationDetectConfig) => spec_decode_toggle(
                payload@,
                SettingField::ConversationAwareness,
            ),
            Some(CommandIdentifier::AllowOffOption) => spec_decode_toggle(
                payload@,
                SettingField::AllowOffMode,
            ),
            Some(CommandIdentifier::Rename) => None,
            None => None,
        },
        AACPEvent::NameUpdated(s) => Some((SettingField::DeviceName, ValueModel::Name(s@))),
        AACPEvent::Unknown(_, _) => None,
    }
}

/// Decodes a raw inbound event of either family.
pub open spec fn spec_decode(ev: RawEvent) -> Option<(SettingField, ValueModel)> {
    match ev {
        RawEvent::Framed(e) => spec_decode_aacp(e),
        RawEvent::Raw(h, d) => match spec_decode_raw(h, d@) {
            Some(m) => Some((SettingField::AncMode, ValueModel::Anc(m))),
            None => None,
        },
    }
}

/// The diagnostic an undecodable event is recorded under.
pub open spec fn spec_decode_error(ev: RawEvent) -> ProtocolError {
    match ev {
        RawEvent::Framed(e) => match e {
            AACPEvent::ControlCommandAck(code, _) => if command_of_code(code) is Some
                && command_of_code(code) != Some(CommandIdentifier::Rename) {
                ProtocolError::UnrecognizedPayload
            } else {
                ProtocolError::UnknownEventKind
            },
            AACPEvent::NameUpdated(_) => ProtocolError::UnknownEventKind,
            AACPEvent::Unknown(_, _) => ProtocolError::UnknownEventKind,
        },
        RawEvent::Raw(h, _) => if handle_of_value(h) is None {
            ProtocolError::UnknownHandle
        } else {
            ProtocolError::UnrecognizedPayload
        },
    }
}

/// Each byte of the frame built around `p`.
proof fn lemma_frame_bytes_index(p: u8)
    ensures
        frame_bytes(p).len() == 13,
        frame_bytes(p)[0] == 0x55,
        frame_bytes(p)[1] == 0x60,
        frame_bytes(p)[2] == 0x01,
        frame_bytes(p)[3] == 0x0F,
        frame_bytes(p)[4] == 0xF0,
        frame_bytes(p)[5] == 0x03,
        frame_bytes(p)[6] == 0x00,
        frame_bytes(p)[7] == 0x00,
        frame_bytes(p)[8] == 0x01,
        frame_bytes(p)[9] == p,
        frame_bytes(p)[10] == 0x00,
        frame_bytes(p)[11] == 0x00,
        frame_bytes(p)[12] == 0x00,
{
}

fn decode_raw_notification(handle: u16, data: &Vec<u8>) -> (r: Option<AncMode>)
    ensures
        r == spec_decode_raw(handle, data@),
{
    if CharacteristicHandle::from_value(handle).is_none() {
        return None;
    }
    if data.len() != 13 {
        return None;
    }
    let framed = data[0] == 0x55 && data[1] == 0x60 && data[2] == 0x01 && data[3] == 0x0F
        && data[4] == 0xF0 && data[5] == 0x03 && data[6] == 0x00 && data[7] == 0x00 && data[8]
        == 0x01 && data[10] == 0x00 && data[11] == 0x00 && data[12] == 0x00;
    proof {
        lemma_frame_bytes_index(data@[9]);
        if framed {
            assert(data@ =~= frame_bytes(data@[9]));
        }
    }
    if framed {
        AncMode::from_byte(data[9])
    } else {
        None
    }
}

fn decode_event(ev: RawEvent) -> (r: Result<(SettingField, SettingValue), ProtocolError>)
    ensures
        r is Ok <==> spec_decode(ev) is Some,
        r is Ok ==> spec_decode(ev) == Some((r->Ok_0.0, r->Ok_0.1@)),
        r is Err ==> r->Err_0 == spec_decode_error(ev),
{
    match ev {
        RawEvent::Raw(handle, data) => {
            let known = CharacteristicHandle::from_value(handle).is_some();
            match decode_raw_notification(handle, &data) {
                Some(m) => Ok((SettingField::AncMode, SettingValue::Anc(m))),
                None => if known {
                    Err(ProtocolError::UnrecognizedPayload)
                } else {
                    Err(ProtocolError::UnknownHandle)
                },
            }
        },
        RawEvent::Framed(e) => match e {
            AACPEvent::NameUpdated(s) => Ok((SettingField::DeviceName, SettingValue::Name(s))),
            AACPEvent::Unknown(_, _) => Err(ProtocolError::UnknownEventKind),
            AACPEvent::ControlCommandAck(code, payload) => match CommandIdentifier::from_code(
                code,
            ) {
                Some(CommandIdentifier::ListeningMode) => {
                    if payload.len() == 1 {
                        match crate::protocol::NoiseControlMode::from_byte(payload[0]) {
                            Some(m) => Ok((SettingField::ListeningMode, SettingValue::Mode(m))),
                            None => Err(ProtocolError::UnrecognizedPayload),
                        }
                    } else {
                        Err(ProtocolError::UnrecognizedPayload)
                    }
                },
                Some(CommandIdentifier::AdaptiveVolumeConfig) => decode_toggle_payload(
                    &payload,
                    SettingField::PersonalizedVolume,
                ),
                Some(CommandIdentifier::ConversationDetectConfig) => decode_toggle_payload(
                    &payload,
                    SettingField::ConversationAwareness,
                ),
                Some(CommandIdentifier::AllowOffOption) => decode_toggle_payload(
                    &payload,
                    SettingField::AllowOffMode,
                ),
                Some(CommandIdentifier::Rename) => Err(ProtocolError::UnknownEventKind),
                None => Err(ProtocolError::UnknownEventKind),
            },
        },
    }
}

fn decode_toggle_payload(payload: &Vec<u8>, f: SettingField) -> (r: Result<
    (SettingField, SettingValue),
    ProtocolError,
>)
    ensures
        r is Ok <==> spec_decode_toggle(payload@, f) is Some,
        r is Ok ==> spec_decode_toggle(payload@, f) == Some((r->Ok_0.0, r->Ok_0.1@)),
        r is Err ==> r->Err_0 == ProtocolError::UnrecognizedPayload,
{
    if payload.len() == 1 && payload[0] == 0x01 {
        Ok((f, SettingValue::Toggle(true)))
    } else if payload.len() == 1 && payload[0] == 0x02 {
        Ok((f, SettingValue::Toggle(false)))
    } else {
        Err(ProtocolError::UnrecognizedPayload)
    }
}

/// Decodes a raw inbound event for a device into a typed state update, or
/// `None` when the handle, event kind or payload is not recognized.
pub fn decode(device_id: String, raw_event: RawEvent) -> (r: Option<StateUpdate>)
    ensures
        r is Some <==> spec_decode(raw_event) is Some,
        r is Some ==> r->Some_0.device_id@ == device_id@ && spec_decode(raw_event) == Some(
            (r->Some_0.field, r->Some_0.value@),
        ),
{
    match decode_event(raw_event) {
        Ok((field, value)) => Some(StateUpdate { device_id, field, value }),
        Err(_) => None,
    }
}

/// The outcome of reconciling one inbound event against the store.
#[derive(Clone, Copy, PartialEq, Eq, Structural, Debug)]
pub enum ReconcileOutcome {
    /// The event confirmed the given field; the store was overwritten.
    Applied(SettingField),
    /// The event was discarded and recorded as a diagnostic; the store's
    /// device map is unchanged.
    Discarded(ProtocolError),
    /// The message carried no reconciliation work.
    NoChange,
    /// The device's record was evicted (it existed if and only if `true`).
    Removed(bool),
}

/// What reconciling one decodable or undecodable event must do to the
/// store: an undecodable event, an unknown device, or a value of the wrong
/// family leaves the device map unchanged and records exactly one
/// diagnostic; otherwise the decoded field is overwritten as confirmed.
pub open spec fn reconcile_post(
    pre: DeviceStore,
    post: DeviceStore,
    r: ReconcileOutcome,
    id: Seq<char>,
    dec: Option<(SettingField, ValueModel)>,
    err: ProtocolError,
) -> bool {
    match dec {
        None => post@ == pre@ && post.log() == pre.log().push(DiagModel { device_id: id, error: err })
            && r == ReconcileOutcome::Discarded(err),
        Some((f, v)) => if !pre@.contains_key(id) {
            post@ == pre@ && post.log() == pre.log().push(
                DiagModel { device_id: id, error: ProtocolError::UnknownDevice },
            ) && r == ReconcileOutcome::Discarded(ProtocolError::UnknownDevice)
        } else if apply_field(pre@[id].configuration, f, v, ConfirmState::Confirmed) is None {
            post@ == pre@ && post.log() == pre.log().push(
                DiagModel { device_id: id, error: ProtocolError::FamilyMismatch },
            ) && r == ReconcileOutcome::Discarded(ProtocolError::FamilyMismatch)
        } else {
            post@ == pre@.insert(
                id,
                RecordModel {
                    information: pre@[id].information,
                    configuration: apply_field(
                        pre@[id].configuration,
                        f,
                        v,
                        ConfirmState::Confirmed,
                    )->Some_0,
                },
            ) && post.log() == pre.log() && r == ReconcileOutcome::Applied(f)
        },
    }
}

/// Reconciles one raw inbound event against the store: a successful decode
/// is applied as the authoritative, confirmed value of its field; anything
/// unrecognized is discarded and recorded as a diagnostic, never an
/// unrecoverable error.
pub fn reconcile(store: &mut DeviceStore, device_id: String, raw_event: RawEvent) -> (r:
    ReconcileOutcome)
    requires
        old(store).wf(),
    ensures
        final(store).wf(),
        reconcile_post(
            *old(store),
            *final(store),
            r,
            device_id@,
            spec_decode(raw_event),
            spec_decode_error(raw_event),
        ),
{
    match decode_event(raw_event) {
        Err(e) => {
            store.record_diagnostic(device_id, e);
            ReconcileOutcome::Discarded(e)
        },
        Ok((field, value)) => match store.apply_confirmed(&device_id, field, value) {
            Ok(()) => ReconcileOutcome::Applied(field),
            Err(StoreError::UnknownDevice) => {
                store.record_diagnostic(device_id, ProtocolError::UnknownDevice);
                ReconcileOutcome::Discarded(ProtocolError::UnknownDevice)
            },
            Err(_) => {
                store.record_diagnostic(device_id, ProtocolError::FamilyMismatch);
                ReconcileOutcome::Discarded(ProtocolError::FamilyMismatch)
            },
        },
    }
}

/// Reconciles one presentation-layer message against the store: protocol
/// events and raw notifications are decoded and applied; a disconnection
/// evicts the device's record; every other message leaves the store
/// untouched.  (A connection carries no family information, so record
/// creation stays with the caller, through [`DeviceStore::connect`].)
pub fn process_message(store: &mut DeviceStore, msg: BluetoothUIMessage) -> (r: ReconcileOutcome)
    requires
        old(store).wf(),
    ensures
        final(store).wf(),
        msg matches BluetoothUIMessage::AACPUIEvent(mac, ev) ==> reconcile_post(
            *old(store),
            *final(store),
            r,
            mac@,
            spec_decode_aacp(ev),
            spec_decode_error(RawEvent::Framed(ev)),
        ),
        msg matches BluetoothUIMessage::ATTNotification(mac, handle, data) ==> reconcile_post(
            *old(store),
            *final(store),
            r,
            mac@,
            spec_decode(RawEvent::Raw(handle, data)),
            spec_decode_error(RawEvent::Raw(handle, data)),
        ),
        msg matches BluetoothUIMessage::DeviceDisconnected(mac) ==> final(store)@ == old(
            store,
        )@.remove(mac@) && final(store).log() == old(store).log() && r == ReconcileOutcome::Removed(
            old(store)@.contains_key(mac@),
        ),
        (msg is OpenWindow || msg is NoOp || msg is DeviceConnected) ==> final(store)@ == old(
            store,
        )@ && final(store).log() == old(store).log() && r == ReconcileOutcome::NoChange,
{
    match msg {
        BluetoothUIMessage::AACPUIEvent(mac, ev) => reconcile(store, mac, RawEvent::Framed(ev)),
        BluetoothUIMessage::ATTNotification(mac, handle, data) => reconcile(
            store,
            mac,
            RawEvent::Raw(handle, data),
        ),
        BluetoothUIMessage::DeviceDisconnected(mac) => {
            let found = store.remove(&mac);
            ReconcileOutcome::Removed(found)
        },
        BluetoothUIMessage::OpenWindow => ReconcileOutcome::NoChange,
        BluetoothUIMessage::DeviceConnected(_) => ReconcileOutcome::NoChange,
        BluetoothUIMessage::NoOp => ReconcileOutcome::NoChange,
    }
}

/// For every ANC mode, the raw frame the encoder builds for the mode
/// decodes, on the family-B characteristic it is written to, back to that
/// same mode: family-B encoding round-trips through the decoder.
pub proof fn lemma_family_b_round_trip(m: AncMode)
    ensures
        spec_decode_raw(
            handle_value(CharacteristicHandle::NothingEverything),
            frame_bytes(anc_mode_byte(m)),
        ) == Some(m),
{
    lemma_anc_mode_inverse(m);
    lemma_frame_bytes_index(anc_mode_byte(m));
    assert(is_raw_frame(frame_bytes(anc_mode_byte(m)))) by {
        assert(frame_bytes(anc_mode_byte(m)) =~= frame_bytes(
            frame_bytes(anc_mode_byte(m))[9],
        ));
    }
}

/// The field of a configuration snapshot that a family-A command confirms.
pub open spec fn field_for(id: CommandIdentifier) -> SettingField {
    match id {
        CommandIdentifier::ListeningMode => SettingField::ListeningMode,
        CommandIdentifier::AdaptiveVolumeConfig => SettingField::PersonalizedVolume,
        CommandIdentifier::ConversationDetectConfig => SettingField::ConversationAwareness,
        CommandIdentifier::AllowOffOption => SettingField::AllowOffMode,
        CommandIdentifier::Rename => SettingField::DeviceName,
    }
}

/// The field a family-A command confirms, as executable code: the same
/// mapping as [`field_for`], for callers that react to a command's fate.
pub fn field_for_command(id: CommandIdentifier) -> (r: SettingField)
    ensures
        r == field_for(id),
{
    match id {
        CommandIdentifier::ListeningMode => SettingField::ListeningMode,
        CommandIdentifier::AdaptiveVolumeConfig => SettingField::PersonalizedVolume,
        CommandIdentifier::ConversationDetectConfig => SettingField::ConversationAwareness,
        CommandIdentifier::AllowOffOption => SettingField::AllowOffMode,
        CommandIdentifier::Rename => SettingField::DeviceName,
    }
}

/// The field of a configuration snapshot that a queued command's target
/// writes, across both families.
pub open spec fn field_for_target(t: CommandTarget) -> SettingField {
    match t {
        CommandTarget::Control(id) => field_for(id),
        CommandTarget::Characteristic(CharacteristicHandle::NothingEverything) => SettingField::AncMode,
    }
}

/// Executable counterpart of [`field_for_target`].
pub fn target_field(t: CommandTarget) -> (r: SettingField)
    ensures
        r == field_for_target(t),
{
    match t {
        CommandTarget::Control(id) => field_for_command(id),
        CommandTarget::Characteristic(CharacteristicHandle::NothingEverything) => SettingField::AncMode,
    }
}

/// The state-store value that a command value stands for.
pub open spec fn value_model_of(v: CommandValue) -> ValueModel {
    match v {
        CommandValue::Toggle(b) => ValueModel::Toggle(b),
        CommandValue::Mode(m) => ValueModel::Mode(m),
        CommandValue::Name(s) => ValueModel::Name(s@),
    }
}

/// For every non-rename command with a table entry, an acknowledgement that
/// echoes the encoded bytes under the command's own code decodes back to
/// the command's field and logical value: family-A encoding round-trips
/// through the acknowledgement decoder.
pub proof fn lemma_family_a_ack_round_trip(e: AACPEvent, id: CommandIdentifier, v: CommandValue)
    requires
        !(id is Rename),
        spec_encode(id, v) is Some,
        e matches AACPEvent::ControlCommandAck(code, payload) && code == command_code(id)
            && payload@ == spec_encode(id, v)->Some_0,
    ensures
        spec_decode_aacp(e) == Some((field_for(id), value_model_of(v))),
{
    crate::protocol::lemma_command_code_inverse(id);
    match v {
        CommandValue::Mode(m) => {
            crate::protocol::lemma_listening_mode_inverse(m);
        },
        CommandValue::Toggle(b) => {
        },
        CommandValue::Name(_) => {
        },
    }
}

} // verus!
