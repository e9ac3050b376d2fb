//! Device state store: a mapping from device identifier (MAC address) to a
//! typed configuration snapshot.  A snapshot is updated either optimistically
//! when a command is issued locally, or authoritatively when the hardware
//! confirms a value; every field carries a confirmation status so that a
//! reader can tell a provisional guess from hardware ground truth.

use vstd::prelude::*;
use crate::protocol::{AncMode, NoiseControlMode};

verus! {

/// Confirmation status of a single configuration field.
#[derive(Clone, Copy, PartialEq, Eq, Structural, Debug)]
pub enum ConfirmState {
    /// The value was reported by the hardware.
    Confirmed,
    /// The value is an optimistic local guess awaiting confirmation.
    Pending,
    /// An optimistic guess whose command failed or was never confirmed.
    Unconfirmed,
}

/// Read-only hardware facts of a family-A device.
#[derive(Clone, Debug)]
pub struct AirPodsInformation {
    pub model_number: String,
    pub manufacturer: String,
    pub serial_number: String,
    pub left_serial_number: String,
    pub right_serial_number: String,
    pub version1: String,
    pub version2: String,
    pub version3: String,
}

/// Read-only hardware facts of a family-B device.
#[derive(Clone, Debug)]
pub struct NothingInformation {
    pub serial_number: String,
    pub firmware_version: String,
}

/// Read-only hardware facts, one variant per accessory family.
#[derive(Clone, Debug)]
pub enum DeviceInformation {
    AirPods(AirPodsInformation),
    Nothing(NothingInformation),
}

/// Configuration snapshot of a family-A device.  Each settable field is
/// paired with its confirmation status.
#[derive(Debug)]
pub struct AirPodsConfiguration {
    pub device_name: String,
    pub device_name_status: ConfirmState,
    pub listening_mode: NoiseControlMode,
    pub listening_mode_status: ConfirmState,
    pub available_modes: Vec<NoiseControlMode>,
    pub personalized_volume_enabled: bool,
    pub personalized_volume_status: ConfirmState,
    pub conversation_awareness_enabled: bool,
    pub conversation_awareness_status: ConfirmState,
    pub allow_off_mode: bool,
    pub allow_off_mode_status: ConfirmState,
}

/// Configuration snapshot of a family-B device.
#[derive(Debug)]
pub struct NothingConfiguration {
    pub anc_mode: AncMode,
    pub anc_mode_status: ConfirmState,
    pub available_anc_modes: Vec<AncMode>,
}

/// A device's configuration, one variant per accessory family.  Exactly one
/// variant is valid per device; the family never changes at runtime.
#[derive(Debug)]
pub enum DeviceConfiguration {
    AirPods(AirPodsConfiguration),
    Nothing(NothingConfiguration),
}

/// Mathematical model of a family-A information block.
#[verifier::ext_equal]
pub struct AirPodsInfoModel {
    pub model_number: Seq<char>,
    pub manufacturer: Seq<char>,
    pub serial_number: Seq<char>,
    pub left_serial_number: Seq<char>,
    pub right_serial_number: Seq<char>,
    pub version1: Seq<char>,
    pub version2: Seq<char>,
    pub version3: Seq<char>,
}

/// Mathematical model of a family-B information block.
#[verifier::ext_equal]
pub struct NothingInfoModel {
    pub serial_number: Seq<char>,
    pub firmware_version: Seq<char>,
}

/// Mathematical model of a [`DeviceInformation`] value.
#[verifier::ext_equal]
pub enum InfoModel {
    AirPods(AirPodsInfoModel),
    Nothing(NothingInfoModel),
}

/// Mathematical model of a family-A configuration snapshot.
#[verifier::ext_equal]
pub struct AirPodsModel {
    pub device_name: Seq<char>,
    pub device_name_status: ConfirmState,
    pub listening_mode: NoiseControlMode,
    pub listening_mode_status: ConfirmState,
    pub available_modes: Seq<NoiseControlMode>,
    pub personalized_volume_enabled: bool,
    pub personalized_volume_status: ConfirmState,
    pub conversation_awareness_enabled: bool,
    pub conversation_awareness_status: ConfirmState,
    pub allow_off_mode: bool,
    pub allow_off_mode_status: ConfirmState,
}

/// Mathematical model of a family-B configuration snapshot.
#[verifier::ext_equal]
pub struct NothingModel {
    pub anc_mode: AncMode,
    pub anc_mode_status: ConfirmState,
    pub available_anc_modes: Seq<AncMode>,
}

/// Mathematical model of a [`DeviceConfiguration`] value.
#[verifier::ext_equal]
pub enum ConfigModel {
    AirPods(AirPodsModel),
    Nothing(NothingModel),
}

impl View for AirPodsInformation {
    type V = AirPodsInfoModel;

    open spec fn view(&self) -> AirPodsInfoModel {
        AirPodsInfoModel {
            model_number: self.model_number@,
            manufacturer: self.manufacturer@,
            serial_number: self.serial_number@,
            left_serial_number: self.left_serial_number@,
            right_serial_number: self.right_serial_number@,
            version1: self.version1@,
            version2: self.version2@,
            version3: self.version3@,
        }
    }
}

impl View for NothingInformation {
    type V = NothingInfoModel;

    open spec fn view(&self) -> NothingInfoModel {
        NothingInfoModel {
            serial_number: self.serial_number@,
            firmware_version: self.firmware_version@,
        }
    }
}

impl View for DeviceInformation {
    type V = InfoModel;

    open spec fn view(&self) -> InfoModel {
        match self {
            DeviceInformation::AirPods(i) => InfoModel::AirPods(i@),
            DeviceInformation::Nothing(i) => InfoModel::Nothing(i@),
        }
    }
}

impl View for AirPodsConfiguration {
    type V = AirPodsModel;

    open spec fn view(&self) -> AirPodsModel {
        AirPodsModel {
            device_name: self.device_name@,
            device_name_status: self.device_name_status,
            listening_mode: self.listening_mode,
            listening_mode_status: self.listening_mode_status,
            available_modes: self.available_modes@,
            personalized_volume_enabled: self.personalized_volume_enabled,
            personalized_volume_status: self.personalized_volume_status,
            conversation_awareness_enabled: self.conversation_awareness_enabled,
            conversation_awareness_status: self.conversation_awareness_status,
            allow_off_mode: self.allow_off_mode,
            allow_off_mode_status: self.allow_off_mode_status,
        }
    }
}

impl View for NothingConfiguration {
    type V = NothingModel;

    open spec fn view(&self) -> NothingModel {
        NothingModel {
            anc_mode: self.anc_mode,
            anc_mode_status: self.anc_mode_status,
            available_anc_modes: self.available_anc_modes@,
        }
    }
}

impl View for DeviceConfiguration {
    type V = ConfigModel;

    open spec fn view(&self) -> ConfigModel {
        match self {
            DeviceConfiguration::AirPods(c) => ConfigModel::AirPods(c@),
            DeviceConfiguration::Nothing(c) => ConfigModel::Nothing(c@),
        }
    }
}

/// The settable fields of a configuration snapshot, across both families.
#[derive(Clone, Copy, PartialEq, Eq, Structural, Debug)]
pub enum SettingField {
    DeviceName,
    ListeningMode,
    PersonalizedVolume,
    ConversationAwareness,
    AllowOffMode,
    AncMode,
}

/// A value destined for one settable field.
#[derive(Debug)]
pub enum SettingValue {
    Name(String),
    Mode(NoiseControlMode),
    Toggle(bool),
    Anc(AncMode),
}

/// Mathematical model of a [`SettingValue`].
#[verifier::ext_equal]
pub enum ValueModel {
    Name(Seq<char>),
    Mode(NoiseControlMode),
    Toggle(bool),
    Anc(AncMode),
}

impl View for SettingValue {
    type V = ValueModel;

    open spec fn view(&self) -> ValueModel {
        match self {
            SettingValue::Name(s) => ValueModel::Name(s@),
            SettingValue::Mode(m) => ValueModel::Mode(*m),
            SettingValue::Toggle(b) => ValueModel::Toggle(*b),
            SettingValue::Anc(a) => ValueModel::Anc(*a),
        }
    }
}

/// Writes `v` with status `st` into field `f` of configuration `c`, or
/// `None` when the field does not belong to the configuration's family or
/// the value does not fit the field.
pub open spec fn apply_field(
    c: ConfigModel,
    f: SettingField,
    v: ValueModel,
    st: ConfirmState,
) -> Option<ConfigModel> {
    match (c, f, v) {
        (
            ConfigModel::AirPods(m),
            SettingField::DeviceName,
            ValueModel::Name(n),
        ) => Some(
            ConfigModel::AirPods(AirPodsModel { device_name: n, device_name_status: st, ..m }),
        ),
        (
            ConfigModel::AirPods(m),
            SettingField::ListeningMode,
            ValueModel::Mode(lm),
        ) => Some(
            ConfigModel::AirPods(
                AirPodsModel { listening_mode: lm, listening_mode_status: st, ..m },
            ),
        ),
        (
            ConfigModel::AirPods(m),
            SettingField::PersonalizedVolume,
            ValueModel::Toggle(b),
        ) => Some(
            ConfigModel::AirPods(
                AirPodsModel {
                    personalized_volume_enabled: b,
                    personalized_volume_status: st,
                    ..m
                },
            ),
        ),
        (
            ConfigModel::AirPods(m),
            SettingField::ConversationAwareness,
            ValueModel::Toggle(b),
        ) => Some(
            ConfigModel::AirPods(
                AirPodsModel {
                    conversation_awareness_enabled: b,
                    conversation_awareness_status: st,
                    ..m
                },
            ),
        ),
        (
            ConfigModel::AirPods(m),
            SettingField::AllowOffMode,
            ValueModel::Toggle(b),
        ) => Some(
            ConfigModel::AirPods(
                AirPodsModel { allow_off_mode: b, allow_off_mode_status: st, ..m },
            ),
        ),
        (
            ConfigModel::Nothing(m),
            SettingField::AncMode,
            ValueModel::Anc(a),
        ) => Some(
            ConfigModel::Nothing(NothingModel { anc_mode: a, anc_mode_status: st, ..m }),
        ),
        _ => None,
    }
}

/// Reads field `f` of configuration `c`: its current value and status, or
/// `None` when the field does not belong to the configuration's family.
pub open spec fn field_of(c: ConfigModel, f: SettingField) -> Option<(ValueModel, ConfirmState)> {
    match (c, f) {
        (ConfigModel::AirPods(m), SettingField::DeviceName) => Some(
            (ValueModel::Name(m.device_name), m.device_name_status),
        ),
        (ConfigModel::AirPods(m), SettingField::ListeningMode) => Some(
            (ValueModel::Mode(m.listening_mode), m.listening_mode_status),
        ),
        (ConfigModel::AirPods(m), SettingField::PersonalizedVolume) => Some(
            (ValueModel::Toggle(m.personalized_volume_enabled), m.personalized_volume_status),
        ),
        (ConfigModel::AirPods(m), SettingField::ConversationAwareness) => Some(
            (ValueModel::Toggle(m.conversation_awareness_enabled), m.conversation_awareness_status),
        ),
        (ConfigModel::AirPods(m), SettingField::AllowOffMode) => Some(
            (ValueModel::Toggle(m.allow_off_mode), m.allow_off_mode_status),
        ),
        (ConfigModel::Nothing(m), SettingField::AncMode) => Some(
            (ValueModel::Anc(m.anc_mode), m.anc_mode_status),
        ),
        _ => None,
    }
}

/// Sets the status of field `f` of configuration `c`, keeping its value, or
/// `None` when the field does not belong to the configuration's family.
pub open spec fn set_status(c: ConfigModel, f: SettingField, st: ConfirmState) -> Option<
    ConfigModel,
> {
    match field_of(c, f) {
        Some((v, _)) => apply_field(c, f, v, st),
        None => None,
    }
}

/// A write to one field reads back as written and leaves every other field
/// of the snapshot untouched.
pub proof fn lemma_apply_field_frame(
    c: ConfigModel,
    f: SettingField,
    v: ValueModel,
    st: ConfirmState,
)
    requires
        apply_field(c, f, v, st) is Some,
    ensures
        field_of(apply_field(c, f, v, st)->Some_0, f) == Some((v, st)),
        forall|g: SettingField|
            g != f ==> #[trigger] field_of(apply_field(c, f, v, st)->Some_0, g) == field_of(c, g),
{
}

/// A confirmed value always overwrites a prior optimistic value of the same
/// field: applying an optimistic write first changes nothing about the
/// outcome of the confirming write.
pub proof fn lemma_confirmed_overwrites_optimistic(
    c: ConfigModel,
    f: SettingField,
    optimistic: ValueModel,
    confirmed: ValueModel,
)
    requires
        apply_field(c, f, optimistic, ConfirmState::Pending) is Some,
        apply_field(c, f, confirmed, ConfirmState::Confirmed) is Some,
    ensures
        apply_field(
            apply_field(c, f, optimistic, ConfirmState::Pending)->Some_0,
            f,
            confirmed,
            ConfirmState::Confirmed,
        ) == apply_field(c, f, confirmed, ConfirmState::Confirmed),
{
    let after_opt = apply_field(c, f, optimistic, ConfirmState::Pending)->Some_0;
    let lhs = apply_field(after_opt, f, confirmed, ConfirmState::Confirmed);
    let rhs = apply_field(c, f, confirmed, ConfirmState::Confirmed);
    assert(lhs is Some);
    assert(lhs->Some_0 =~= rhs->Some_0);
}

/// A malformed or unrecognized inbound event: logged and discarded, never
/// fatal.
#[derive(Clone, Copy, PartialEq, Eq, Structural, Debug)]
pub enum ProtocolError {
    /// A raw notification addressed a characteristic this client does not
    /// model.
    UnknownHandle,
    /// A notification payload did not match the expected frame layout or
    /// held an unmapped value byte.
    UnrecognizedPayload,
    /// A framed event of a kind this client does not model.
    UnknownEventKind,
    /// An event arrived for a device the store does not hold.
    UnknownDevice,
    /// A decoded update addressed a field of the other accessory family.
    FamilyMismatch,
}

/// A failed store operation.  The store is left unchanged by every failed
/// operation.
#[derive(Clone, Copy, PartialEq, Eq, Structural, Debug)]
pub enum StoreError {
    /// No record exists for the given device identifier.
    UnknownDevice,
    /// The addressed field does not belong to the device's family or the
    /// value does not fit the field.
    FieldMismatch,
    /// A record for the given device identifier already exists.
    AlreadyPresent,
}

/// A recorded diagnostic: a discarded inbound event and the device it
/// concerned.
#[derive(Clone, Debug)]
pub struct Diagnostic {
    pub device_id: String,
    pub error: ProtocolError,
}

/// Mathematical model of a [`Diagnostic`].
#[verifier::ext_equal]
pub struct DiagModel {
    pub device_id: Seq<char>,
    pub error: ProtocolError,
}

impl View for Diagnostic {
    type V = DiagModel;

    open spec fn view(&self) -> DiagModel {
        DiagModel { device_id: self.device_id@, error: self.error }
    }
}

/// The aggregate the store owns per device: identifier, optional read-only
/// information, and the current configuration snapshot.
#[derive(Debug)]
pub struct DeviceRecord {
    pub identifier: String,
    pub information: Option<DeviceInformation>,
    pub configuration: DeviceConfiguration,
}

/// Mathematical model of a [`DeviceRecord`], keyed in the store's map by
/// the identifier, which therefore stands outside the model.
#[verifier::ext_equal]
pub struct RecordModel {
    pub information: Option<InfoModel>,
    pub configuration: ConfigModel,
}

impl View for DeviceRecord {
    type V = RecordModel;

    open spec fn view(&self) -> RecordModel {
        RecordModel {
            information: match self.information {
                Some(i) => Some(i@),
                None => None,
            },
            configuration: self.configuration@,
        }
    }
}

/// No two records carry the same device identifier.
spec fn unique_ids(s: Seq<DeviceRecord>) -> bool {
    forall|i: int, j: int|
        0 <= i < j < s.len() ==> (#[trigger] s[i].identifier@) != (#[trigger] s[j].identifier@)
}

/// Some record in `s` carries identifier `k`.
spec fn has_id(s: Seq<DeviceRecord>, k: Seq<char>) -> bool {
    exists|i: int| 0 <= i < s.len() && (#[trigger] s[i].identifier@) == k
}

/// The map that a record sequence denotes: each identifier to the model of
/// the last record carrying it.
spec fn map_of(s: Seq<DeviceRecord>) -> Map<Seq<char>, RecordModel>
    decreases s.len(),
{
    if s.len() == 0 {
        Map::<Seq<char>, RecordModel>::empty()
    } else {
        map_of(s.drop_last()).insert(s.last().identifier@, s.last()@)
    }
}

proof fn lemma_map_of_contains(s: Seq<DeviceRecord>, k: Seq<char>)
    ensures
        map_of(s).contains_key(k) <==> has_id(s, k),
    decreases s.len(),
{
    if s.len() == 0 {
    } else {
        lemma_map_of_contains(s.drop_last(), k);
        if s.last().identifier@ == k {
            assert(s[s.len() - 1].identifier@ == k);
        } else {
            if has_id(s, k) {
                let i = choose|i: int| 0 <= i < s.len() && s[i].identifier@ == k;
                assert(i < s.len() - 1);
                assert(s.drop_last()[i].identifier@ == k);
            }
            if has_id(s.drop_last(), k) {
                let i = choose|i: int|
                    0 <= i < s.drop_last().len() && s.drop_last()[i].identifier@ == k;
                assert(s[i].identifier@ == k);
            }
        }
    }
}

proof fn lemma_unique_drop_last(s: Seq<DeviceRecord>)
    requires
        unique_ids(s),
        s.len() > 0,
    ensures
        unique_ids(s.drop_last()),
{
    assert forall|i: int, j: int| 0 <= i < j < s.drop_last().len() implies (#[trigger] s.drop_last()[i].identifier@)
        != (#[trigger] s.drop_last()[j].identifier@) by {
        assert(s.drop_last()[i] == s[i]);
        assert(s.drop_last()[j] == s[j]);
    }
}

proof fn lemma_map_of_index(s: Seq<DeviceRecord>, i: int)
    requires
        unique_ids(s),
        0 <= i < s.len(),
    ensures
        map_of(s).contains_key(s[i].identifier@),
        map_of(s)[s[i].identifier@] == s[i]@,
    decreases s.len(),
{
    if i == s.len() - 1 {
    } else {
        lemma_unique_drop_last(s);
        lemma_map_of_index(s.drop_last(), i);
        assert(s.drop_last()[i] == s[i]);
        assert(s[i].identifier@ != s[s.len() - 1].identifier@);
    }
}

proof fn lemma_map_of_push(s: Seq<DeviceRecord>, r: DeviceRecord)
    ensures
        map_of(s.push(r)) == map_of(s).insert(r.identifier@, r@),
{
    assert(s.push(r).drop_last() =~= s);
    assert(s.push(r).last() == r);
}

proof fn lemma_unique_push(s: Seq<DeviceRecord>, r: DeviceRecord)
    requires
        unique_ids(s),
        !has_id(s, r.identifier@),
    ensures
        unique_ids(s.push(r)),
{
    assert forall|i: int, j: int| 0 <= i < j < s.push(r).len() implies (#[trigger] s.push(r)[i].identifier@)
        != (#[trigger] s.push(r)[j].identifier@) by {
        if j == s.len() {
            assert(s.push(r)[i] == s[i]);
            assert(!(s[i].identifier@ == r.identifier@));
        } else {
            assert(s.push(r)[i] == s[i]);
            assert(s.push(r)[j] == s[j]);
        }
    }
}

proof fn lemma_unique_remove(s: Seq<DeviceRecord>, i: int)
    requires
        unique_ids(s),
        0 <= i < s.len(),
    ensures
        unique_ids(s.remove(i)),
        !has_id(s.remove(i), s[i].identifier@),
    decreases s.len(),
{
    let t = s.remove(i);
    assert forall|p: int, q: int| 0 <= p < q < t.len() implies (#[trigger] t[p].identifier@)
        != (#[trigger] t[q].identifier@) by {
        let p0: int = if p < i {
            p
        } else {
            p + 1
        };
        let q0: int = if q < i {
            q
        } else {
            q + 1
        };
        assert(t[p] == s[p0]);
        assert(t[q] == s[q0]);
    }
    assert forall|p: int| 0 <= p < t.len() implies (#[trigger] t[p].identifier@)
        != s[i].identifier@ by {
        let p0: int = if p < i {
            p
        } else {
            p + 1
        };
        assert(t[p] == s[p0]);
    }
}

proof fn lemma_map_of_remove(s: Seq<DeviceRecord>, i: int)
    requires
        unique_ids(s),
        0 <= i < s.len(),
    ensures
        map_of(s.remove(i)) == map_of(s).remove(s[i].identifier@),
    decreases s.len(),
{
    let k = s[i].identifier@;
    lemma_unique_drop_last(s);
    if i == s.len() - 1 {
        assert(s.remove(i) =~= s.drop_last());
        lemma_map_of_contains(s.drop_last(), k);
        assert(!has_id(s.drop_last(), k)) by {
            if has_id(s.drop_last(), k) {
                let j = choose|j: int|
                    0 <= j < s.drop_last().len() && s.drop_last()[j].identifier@ == k;
                assert(s[j].identifier@ == k);
            }
        }
        assert(map_of(s).remove(k) =~= map_of(s.drop_last()));
    } else {
        lemma_map_of_remove(s.drop_last(), i);
        assert(s.drop_last()[i] == s[i]);
        let t = s.remove(i);
        assert(t.drop_last() =~= s.drop_last().remove(i));
        assert(t.last() == s.last());
        let lk = s.last().identifier@;
        assert(k != lk);
        assert(map_of(s.drop_last()).remove(k).insert(lk, s.last()@) =~= map_of(
            s.drop_last(),
        ).insert(lk, s.last()@).remove(k));
    }
}

/// The device state store: at most one record per device identifier, and a
/// log of the diagnostics recorded for discarded inbound events.
pub struct DeviceStore {
    records: Vec<DeviceRecord>,
    diagnostics: Vec<Diagnostic>,
}

impl View for DeviceStore {
    type V = Map<Seq<char>, RecordModel>;

    closed spec fn view(&self) -> Map<Seq<char>, RecordModel> {
        map_of(self.records@)
    }
}

impl DeviceStore {
    /// The store's well-formedness: record identifiers are unique, so the
    /// record sequence and its map agree.
    pub closed spec fn wf(&self) -> bool {
        unique_ids(self.records@)
    }

    /// The diagnostics recorded so far, oldest first.
    pub closed spec fn log(&self) -> Seq<DiagModel> {
        self.diagnostics@.map(|i: int, d: Diagnostic| d@)
    }

    /// An empty store.
    pub fn new() -> (r: DeviceStore)
        ensures
            r.wf(),
            r@ == Map::<Seq<char>, RecordModel>::empty(),
            r.log() == Seq::<DiagModel>::empty(),
    {
        let r = DeviceStore { records: Vec::new(), diagnostics: Vec::new() };
        proof {
            assert(r.log() =~= Seq::<DiagModel>::empty());
        }
        r
    }

    fn find_index(&self, id: &String) -> (r: Option<usize>)
        ensures
            match r {
                Some(i) => 0 <= i < self.records@.len() && self.records@[i as int].identifier@
                    == id@,
                None => !has_id(self.records@, id@),
            },
    {
        let n = self.records.len();
        for i in 0..n
            invariant
                n == self.records@.len(),
                forall|j: int| 0 <= j < i ==> (#[trigger] self.records@[j].identifier@) != id@,
        {
            if self.records[i].identifier == *id {
                return Some(i);
            }
        }
        None
    }

    /// Looks the device's record up by identifier.  Returns a record if and
    /// only if the store holds one for this identifier, and then exactly the
    /// one the store's map gives.
    pub fn get(&self, id: &String) -> (r: Option<&DeviceRecord>)
        requires
            self.wf(),
        ensures
            r is Some <==> self@.contains_key(id@),
            r is Some ==> r->Some_0@ == self@[id@] && r->Some_0.identifier@ == id@,
    {
        proof {
            lemma_map_of_contains(self.records@, id@);
        }
        match self.find_index(id) {
            Some(i) => {
                proof {
                    lemma_map_of_index(self.records@, i as int);
                }
                Some(&self.records[i])
            },
            None => None,
        }
    }

    /// Creates the device's record when the device is first seen connected.
    /// Fails, leaving the store unchanged, if a record for the identifier
    /// already exists.
    pub fn connect(&mut self, record: DeviceRecord) -> (r: Result<(), StoreError>)
        requires
            old(self).wf(),
        ensures
            final(self).wf(),
            r is Ok <==> !old(self)@.contains_key(record.identifier@),
            r is Ok ==> final(self)@ == old(self)@.insert(record.identifier@, record@),
            r is Err ==> final(self)@ == old(self)@ && r == Err::<(), StoreError>(
                StoreError::AlreadyPresent,
            ),
            final(self).log() == old(self).log(),
    {
        proof {
            lemma_map_of_contains(self.records@, record.identifier@);
        }
        match self.find_index(&record.identifier) {
            Some(_) => Err(StoreError::AlreadyPresent),
            None => {
                proof {
                    lemma_unique_push(self.records@, record);
                    lemma_map_of_push(self.records@, record);
                }
                self.records.push(record);
                Ok(())
            },
        }
    }

    /// Evicts the device's record, as when the device disconnects.  Returns
    /// whether a record existed; the diagnostics log is kept.
    pub fn remove(&mut self, id: &String) -> (found: bool)
        requires
            old(self).wf(),
        ensures
            final(self).wf(),
            final(self)@ == old(self)@.remove(id@),
            found <==> old(self)@.contains_key(id@),
            final(self).log() == old(self).log(),
    {
        proof {
            lemma_map_of_contains(self.records@, id@);
        }
        match self.find_index(id) {
            Some(i) => {
                proof {
                    lemma_unique_remove(self.records@, i as int);
                    lemma_map_of_remove(self.records@, i as int);
                }
                self.records.remove(i);
                true
            },
            None => {
                proof {
                    assert(self@.remove(id@) =~= self@);
                }
                false
            },
        }
    }

    fn write_field(
        &mut self,
        id: &String,
        field: SettingField,
        value: SettingValue,
        st: ConfirmState,
    ) -> (r: Result<(), StoreError>)
        requires
            old(self).wf(),
        ensures
            final(self).wf(),
            r is Ok <==> old(self)@.contains_key(id@) && apply_field(
                old(self)@[id@].configuration,
                field,
                value@,
                st,
            ) is Some,
            r is Ok ==> final(self)@ == old(self)@.insert(
                id@,
                RecordModel {
                    information: old(self)@[id@].information,
                    configuration: apply_field(
                        old(self)@[id@].configuration,
                        field,
                        value@,
                        st,
                    )->Some_0,
                },
            ),
            r == Err::<(), StoreError>(StoreError::UnknownDevice) <==> !old(
                self,
            )@.contains_key(id@),
            r == Err::<(), StoreError>(StoreError::FieldMismatch) <==> old(self)@.contains_key(id@)
                && apply_field(old(self)@[id@].configuration, field, value@, st) is None,
            r is Err ==> final(self)@ == old(self)@,
            final(self).log() == old(self).log(),
    {
        proof {
            lemma_map_of_contains(self.records@, id@);
        }
        let idx = match self.find_index(id) {
            Some(i) => i,
            None => {
                return Err(StoreError::UnknownDevice);
            },
        };
        proof {
            lemma_map_of_index(self.records@, idx as int);
            lemma_unique_remove(self.records@, idx as int);
            lemma_map_of_remove(self.records@, idx as int);
        }
        let ghost old_records = self.records@;
        let ghost k = id@;
        let rec = self.records.remove(idx);
        let DeviceRecord { identifier, information, configuration } = rec;
        match apply_value(configuration, field, value, st) {
            Ok(updated) => {
                let new_rec = DeviceRecord { identifier, information, configuration: updated };
                proof {
                    lemma_unique_push(self.records@, new_rec);
                    lemma_map_of_push(self.records@, new_rec);
                    assert(map_of(old_records).remove(k).insert(k, new_rec@) =~= map_of(
                        old_records,
                    ).insert(k, new_rec@));
                }
                self.records.push(new_rec);
                Ok(())
            },
            Err(untouched) => {
                let back = DeviceRecord { identifier, information, configuration: untouched };
                proof {
                    lemma_unique_push(self.records@, back);
                    lemma_map_of_push(self.records@, back);
                    assert(map_of(old_records).remove(k).insert(k, back@) =~= map_of(
                        old_records,
                    ));
                }
                self.records.push(back);
                Err(StoreError::FieldMismatch)
            },
        }
    }

    /// Applies the user's intended change immediately, before any hardware
    /// confirmation: the field takes the new value with `Pending` status.
    /// The change is explicitly provisional.
    pub fn upsert_optimistic(
        &mut self,
        id: &String,
        field: SettingField,
        value: SettingValue,
    ) -> (r: Result<(), StoreError>)
        requires
            old(self).wf(),
        ensures
            final(self).wf(),
            r is Ok <==> old(self)@.contains_key(id@) && apply_field(
                old(self)@[id@].configuration,
                field,
                value@,
                ConfirmState::Pending,
            ) is Some,
            r is Ok ==> final(self)@ == old(self)@.insert(
                id@,
                RecordModel {
                    information: old(self)@[id@].information,
                    configuration: apply_field(
                        old(self)@[id@].configuration,
                        field,
                        value@,
                        ConfirmState::Pending,
                    )->Some_0,
                },
            ),
            r == Err::<(), StoreError>(StoreError::UnknownDevice) <==> !old(
                self,
            )@.contains_key(id@),
            r == Err::<(), StoreError>(StoreError::FieldMismatch) <==> old(self)@.contains_key(id@)
                && apply_field(
                old(self)@[id@].configuration,
                field,
                value@,
                ConfirmState::Pending,
            ) is None,
            r is Err ==> final(self)@ == old(self)@,
            final(self).log() == old(self).log(),
    {
        self.write_field(id, field, value, ConfirmState::Pending)
    }

    /// Overwrites a field with the value an authoritative hardware event
    /// confirmed: the field takes the new value with `Confirmed` status,
    /// whatever optimistic value or status it held before.
    pub fn apply_confirmed(
        &mut self,
        id: &String,
        field: SettingField,
        value: SettingValue,
    ) -> (r: Result<(), StoreError>)
        requires
            old(self).wf(),
        ensures
            final(self).wf(),
            r is Ok <==> old(self)@.contains_key(id@) && apply_field(
                old(self)@[id@].configuration,
                field,
                value@,
                ConfirmState::Confirmed,
            ) is Some,
            r is Ok ==> final(self)@ == old(self)@.insert(
                id@,
                RecordModel {
                    information: old(self)@[id@].information,
                    configuration: apply_field(
                        old(self)@[id@].configuration,
                        field,
                        value@,
                        ConfirmState::Confirmed,
                    )->Some_0,
                },
            ),
            r == Err::<(), StoreError>(StoreError::UnknownDevice) <==> !old(
                self,
            )@.contains_key(id@),
            r == Err::<(), StoreError>(StoreError::FieldMismatch) <==> old(self)@.contains_key(id@)
                && apply_field(
                old(self)@[id@].configuration,
                field,
                value@,
                ConfirmState::Confirmed,
            ) is None,
            r is Err ==> final(self)@ == old(self)@,
            final(self).log() == old(self).log(),
    {
        self.write_field(id, field, value, ConfirmState::Confirmed)
    }

    /// Marks a field's optimistic value as unconfirmed, keeping the value,
    /// as when the command that wrote it failed or its confirmation window
    /// elapsed.
    pub fn mark_unconfirmed(&mut self, id: &String, field: SettingField) -> (r: Result<
        (),
        StoreError,
    >)
        requires
            old(self).wf(),
        ensures
            final(self).wf(),
            r is Ok <==> old(self)@.contains_key(id@) && set_status(
                old(self)@[id@].configuration,
                field,
                ConfirmState::Unconfirmed,
            ) is Some,
            r is Ok ==> final(self)@ == old(self)@.insert(
                id@,
                RecordModel {
                    information: old(self)@[id@].information,
                    configuration: set_status(
                        old(self)@[id@].configuration,
                        field,
                        ConfirmState::Unconfirmed,
                    )->Some_0,
                },
            ),
            r == Err::<(), StoreError>(StoreError::UnknownDevice) <==> !old(
                self,
            )@.contains_key(id@),
            r == Err::<(), StoreError>(StoreError::FieldMismatch) <==> old(self)@.contains_key(id@)
                && set_status(
                old(self)@[id@].configuration,
                field,
                ConfirmState::Unconfirmed,
            ) is None,
            r is Err ==> final(self)@ == old(self)@,
            final(self).log() == old(self).log(),
    {
        proof {
            lemma_map_of_contains(self.records@, id@);
        }
        let idx = match self.find_index(id) {
            Some(i) => i,
            None => {
                return Err(StoreError::UnknownDevice);
            },
        };
        proof {
            lemma_map_of_index(self.records@, idx as int);
            lemma_unique_remove(self.records@, idx as int);
            lemma_map_of_remove(self.records@, idx as int);
        }
        let ghost old_records = self.records@;
        let ghost k = id@;
        let rec = self.records.remove(idx);
        let DeviceRecord { identifier, information, configuration } = rec;
        match set_field_status(configuration, field, ConfirmState::Unconfirmed) {
            Ok(updated) => {
                let new_rec = DeviceRecord { identifier, information, configuration: updated };
                proof {
                    lemma_unique_push(self.records@, new_rec);
                    lemma_map_of_push(self.records@, new_rec);
                    assert(map_of(old_records).remove(k).insert(k, new_rec@) =~= map_of(
                        old_records,
                    ).insert(k, new_rec@));
                }
                self.records.push(new_rec);
                Ok(())
            },
            Err(untouched) => {
                let back = DeviceRecord { identifier, information, configuration: untouched };
                proof {
                    lemma_unique_push(self.records@, back);
                    lemma_map_of_push(self.records@, back);
                    assert(map_of(old_records).remove(k).insert(k, back@) =~= map_of(
                        old_records,
                    ));
                }
                self.records.push(back);
                Err(StoreError::FieldMismatch)
            },
        }
    }

    /// Attaches the read-only hardware facts the information decoder
    /// produced for the device.  The configuration snapshot is untouched;
    /// an absent or partial information value is tolerated as it is.
    pub fn set_information(&mut self, id: &String, info: DeviceInformation) -> (r: Result<
        (),
        StoreError,
    >)
        requires
            old(self).wf(),
        ensures
            final(self).wf(),
            r is Ok <==> old(self)@.contains_key(id@),
            r is Ok ==> final(self)@ == old(self)@.insert(
                id@,
                RecordModel {
                    information: Some(info@),
                    configuration: old(self)@[id@].configuration,
                },
            ),
            r is Err ==> final(self)@ == old(self)@ && r == Err::<(), StoreError>(
                StoreError::UnknownDevice,
            ),
            final(self).log() == old(self).log(),
    {
        proof {
            lemma_map_of_contains(self.records@, id@);
        }
        let idx = match self.find_index(id) {
            Some(i) => i,
            None => {
                return Err(StoreError::UnknownDevice);
            },
        };
        proof {
            lemma_map_of_index(self.records@, idx as int);
            lemma_unique_remove(self.records@, idx as int);
            lemma_map_of_remove(self.records@, idx as int);
        }
        let ghost old_records = self.records@;
        let ghost k = id@;
        let rec = self.records.remove(idx);
        let new_rec = DeviceRecord {
            identifier: rec.identifier,
            information: Some(info),
            configuration: rec.configuration,
        };
        proof {
            lemma_unique_push(self.records@, new_rec);
            lemma_map_of_push(self.records@, new_rec);
            assert(map_of(old_records).remove(k).insert(k, new_rec@) =~= map_of(
                old_records,
            ).insert(k, new_rec@));
        }
        self.records.push(new_rec);
        Ok(())
    }

    /// Records a diagnostic for a discarded inbound event.  The device map
    /// is left untouched.
    pub fn record_diagnostic(&mut self, device_id: String, error: ProtocolError)
        requires
            old(self).wf(),
        ensures
            final(self).wf(),
            final(self)@ == old(self)@,
            final(self).log() == old(self).log().push(
                DiagModel { device_id: device_id@, error },
            ),
    {
        let ghost pushed = DiagModel { device_id: device_id@, error };
        let ghost old_diags = self.diagnostics@;
        self.diagnostics.push(Diagnostic { device_id, error });
        proof {
            assert(self.log() =~= old_diags.map(|i: int, d: Diagnostic| d@).push(pushed));
        }
    }

    /// How many diagnostics the store has recorded.
    pub fn diagnostics_len(&self) -> (n: usize)
        ensures
            n == self.log().len(),
    {
        self.diagnostics.len()
    }

    /// The most recently recorded diagnostic, if any.
    pub fn last_diagnostic(&self) -> (r: Option<&Diagnostic>)
        ensures
            r is Some <==> self.log().len() > 0,
            r is Some ==> r->Some_0@ == self.log().last(),
    {
        if self.diagnostics.len() > 0 {
            let i = self.diagnostics.len() - 1;
            Some(&self.diagnostics[i])
        } else {
            None
        }
    }
}

#[verifier::rlimit(50)]
fn apply_value(
    config: DeviceConfiguration,
    field: SettingField,
    value: SettingValue,
    st: ConfirmState,
) -> (r: Result<DeviceConfiguration, DeviceConfiguration>)
    ensures
        r is Ok <==> apply_field(config@, field, value@, st) is Some,
        r is Ok ==> r->Ok_0@ == apply_field(config@, field, value@, st)->Some_0,
        r is Err ==> r->Err_0@ == config@,
{
    match (config, field, value) {
        (
            DeviceConfiguration::AirPods(c),
            SettingField::DeviceName,
            SettingValue::Name(n),
        ) => Ok(
            DeviceConfiguration::AirPods(
                AirPodsConfiguration { device_name: n, device_name_status: st, ..c },
            ),
        ),
        (
            DeviceConfiguration::AirPods(c),
            SettingField::ListeningMode,
            SettingValue::Mode(m),
        ) => Ok(
            DeviceConfiguration::AirPods(
                AirPodsConfiguration { listening_mode: m, listening_mode_status: st, ..c },
            ),
        ),
        (
            DeviceConfiguration::AirPods(c),
            SettingField::PersonalizedVolume,
            SettingValue::Toggle(b),
        ) => Ok(
            DeviceConfiguration::AirPods(
                AirPodsConfiguration {
                    personalized_volume_enabled: b,
                    personalized_volume_status: st,
                    ..c
                },
            ),
        ),
        (
            DeviceConfiguration::AirPods(c),
            SettingField::ConversationAwareness,
            SettingValue::Toggle(b),
        ) => Ok(
            DeviceConfiguration::AirPods(
                AirPodsConfiguration {
                    conversation_awareness_enabled: b,
                    conversation_awareness_status: st,
                    ..c
                },
            ),
        ),
        (
            DeviceConfiguration::AirPods(c),
            SettingField::AllowOffMode,
            SettingValue::Toggle(b),
        ) => Ok(
            DeviceConfiguration::AirPods(
                AirPodsConfiguration { allow_off_mode: b, allow_off_mode_status: st, ..c },
            ),
        ),
        (
            DeviceConfiguration::Nothing(c),
            SettingField::AncMode,
            SettingValue::Anc(a),
        ) => Ok(
            DeviceConfiguration::Nothing(
                NothingConfiguration { anc_mode: a, anc_mode_status: st, ..c },
            ),
        ),
        (c, _, _) => Err(c),
    }
}

fn set_field_status(config: DeviceConfiguration, field: SettingField, st: ConfirmState) -> (r:
    Result<DeviceConfiguration, DeviceConfiguration>)
    ensures
        r is Ok <==> set_status(config@, field, st) is Some,
        r is Ok ==> r->Ok_0@ == set_status(config@, field, st)->Some_0,
        r is Err ==> r->Err_0@ == config@,
{
    match (config, field) {
        (DeviceConfiguration::AirPods(c), SettingField::DeviceName) => Ok(
            DeviceConfiguration::AirPods(
                AirPodsConfiguration { device_name_status: st, ..c },
            ),
        ),
        (DeviceConfiguration::AirPods(c), SettingField::ListeningMode) => Ok(
            DeviceConfiguration::AirPods(
                AirPodsConfiguration { listening_mode_status: st, ..c },
            ),
        ),
        (DeviceConfiguration::AirPods(c), SettingField::PersonalizedVolume) => Ok(
            DeviceConfiguration::AirPods(
                AirPodsConfiguration { personalized_volume_status: st, ..c },
            ),
        ),
        (DeviceConfiguration::AirPods(c), SettingField::ConversationAwareness) => Ok(
            DeviceConfiguration::AirPods(
                AirPodsConfiguration { conversation_awareness_status: st, ..c },
            ),
        ),
        (DeviceConfiguration::AirPods(c), SettingField::AllowOffMode) => Ok(
            DeviceConfiguration::AirPods(
                AirPodsConfiguration { allow_off_mode_status: st, ..c },
            ),
        ),
        (DeviceConfiguration::Nothing(c), SettingField::AncMode) => Ok(
            DeviceConfiguration::Nothing(NothingConfiguration { anc_mode_status: st, ..c }),
        ),
        (c, _) => Err(c),
    }
}

} // verus!
