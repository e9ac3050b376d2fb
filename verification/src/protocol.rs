//! Wire-level constant tables shared by the command encoder and the
//! notification decoder: command identifiers and their byte codes, the
//! listening-mode and ANC-mode byte tables, the family-B raw frame layout,
//! and the toggle byte convention.

use vstd::prelude::*;

verus! {

/// Byte written for an enabled toggle setting.
pub const TOGGLE_ENABLED: u8 = 0x01;

/// Byte written for a disabled toggle setting.
pub const TOGGLE_DISABLED: u8 = 0x02;

/// Length in bytes of a family-B raw characteristic frame.
pub const FRAME_LEN: usize = 13;

/// Offset of the payload byte inside a family-B raw frame.
pub const PAYLOAD_INDEX: usize = 9;

/// The wire byte for a toggle value: enabled is `0x01`, disabled is `0x02`.
/// The 1/2 sentinel pair (not 1/0) is the wire convention.
pub open spec fn toggle_byte(enabled: bool) -> u8 {
    if enabled {
        TOGGLE_ENABLED
    } else {
        TOGGLE_DISABLED
    }
}

/// Controllable settings of the framed control protocol (family A), each
/// with a stable byte code on the wire.
#[derive(Clone, Copy, PartialEq, Eq, Structural, Debug)]
pub enum CommandIdentifier {
    ListeningMode,
    AdaptiveVolumeConfig,
    ConversationDetectConfig,
    AllowOffOption,
    Rename,
}

/// The stable wire code of each command identifier.
pub open spec fn command_code(id: CommandIdentifier) -> u8 {
    match id {
        CommandIdentifier::ListeningMode => 0x0D,
        CommandIdentifier::AdaptiveVolumeConfig => 0x26,
        CommandIdentifier::ConversationDetectConfig => 0x28,
        CommandIdentifier::AllowOffOption => 0x34,
        CommandIdentifier::Rename => 0x1A,
    }
}

/// The command identifier that a wire code stands for, if any.
pub open spec fn command_of_code(code: u8) -> Option<CommandIdentifier> {
    if code == 0x0D {
        Some(CommandIdentifier::ListeningMode)
    } else if code == 0x26 {
        Some(CommandIdentifier::AdaptiveVolumeConfig)
    } else if code == 0x28 {
        Some(CommandIdentifier::ConversationDetectConfig)
    } else if code == 0x34 {
        Some(CommandIdentifier::AllowOffOption)
    } else if code == 0x1A {
        Some(CommandIdentifier::Rename)
    } else {
        None
    }
}

/// The identifiers whose value is a boolean toggle.
pub open spec fn is_toggle_identifier(id: CommandIdentifier) -> bool {
    match id {
        CommandIdentifier::AdaptiveVolumeConfig => true,
        CommandIdentifier::ConversationDetectConfig => true,
        CommandIdentifier::AllowOffOption => true,
        _ => false,
    }
}

/// The command-code table is injective: decoding the code of an identifier
/// gives that identifier back.
pub proof fn lemma_command_code_inverse(id: CommandIdentifier)
    ensures
        command_of_code(command_code(id)) == Some(id),
{
}

impl CommandIdentifier {
    /// The identifier's wire code.
    pub fn code(&self) -> (r: u8)
        ensures
            r == command_code(*self),
    {
        match self {
            CommandIdentifier::ListeningMode => 0x0D,
            CommandIdentifier::AdaptiveVolumeConfig => 0x26,
            CommandIdentifier::ConversationDetectConfig => 0x28,
            CommandIdentifier::AllowOffOption => 0x34,
            CommandIdentifier::Rename => 0x1A,
        }
    }

    /// Looks a wire code up in the identifier table.
    pub fn from_code(code: u8) -> (r: Option<CommandIdentifier>)
        ensures
            r == command_of_code(code),
    {
        if code == 0x0D {
            Some(CommandIdentifier::ListeningMode)
        } else if code == 0x26 {
            Some(CommandIdentifier::AdaptiveVolumeConfig)
        } else if code == 0x28 {
            Some(CommandIdentifier::ConversationDetectConfig)
        } else if code == 0x34 {
            Some(CommandIdentifier::AllowOffOption)
        } else if code == 0x1A {
            Some(CommandIdentifier::Rename)
        } else {
            None
        }
    }
}

/// Listening modes of the family-A noise-control setting.
#[derive(Clone, Copy, PartialEq, Eq, Structural, Debug)]
pub enum NoiseControlMode {
    Off,
    NoiseCancellation,
    Transparency,
    Adaptive,
}

/// The single wire byte of each listening mode.
pub open spec fn listening_mode_byte(m: NoiseControlMode) -> u8 {
    match m {
        NoiseControlMode::Off => 0x01,
        NoiseControlMode::NoiseCancellation => 0x02,
        NoiseControlMode::Transparency => 0x03,
        NoiseControlMode::Adaptive => 0x04,
    }
}

/// The listening mode that a wire byte stands for, if any.
pub open spec fn listening_mode_of_byte(b: u8) -> Option<NoiseControlMode> {
    if b == 0x01 {
        Some(NoiseControlMode::Off)
    } else if b == 0x02 {
        Some(NoiseControlMode::NoiseCancellation)
    } else if b == 0x03 {
        Some(NoiseControlMode::Transparency)
    } else if b == 0x04 {
        Some(NoiseControlMode::Adaptive)
    } else {
        None
    }
}

/// The listening-mode table is injective: its decode inverts its encode.
pub proof fn lemma_listening_mode_inverse(m: NoiseControlMode)
    ensures
        listening_mode_of_byte(listening_mode_byte(m)) == Some(m),
{
}

impl NoiseControlMode {
    /// The mode's wire byte.
    pub fn to_byte(&self) -> (r: u8)
        ensures
            r == listening_mode_byte(*self),
    {
        match self {
            NoiseControlMode::Off => 0x01,
            NoiseControlMode::NoiseCancellation => 0x02,
            NoiseControlMode::Transparency => 0x03,
            NoiseControlMode::Adaptive => 0x04,
        }
    }

    /// Looks a wire byte up in the listening-mode table.
    pub fn from_byte(b: u8) -> (r: Option<NoiseControlMode>)
        ensures
            r == listening_mode_of_byte(b),
    {
        if b == 0x01 {
            Some(NoiseControlMode::Off)
        } else if b == 0x02 {
            Some(NoiseControlMode::NoiseCancellation)
        } else if b == 0x03 {
            Some(NoiseControlMode::Transparency)
        } else if b == 0x04 {
            Some(NoiseControlMode::Adaptive)
        } else {
            None
        }
    }
}

/// ANC modes of the family-B noise-control setting.
#[derive(Clone, Copy, PartialEq, Eq, Structural, Debug)]
pub enum AncMode {
    NoiseCancellation,
    Transparency,
    Off,
}

/// The payload byte of each ANC mode inside a family-B raw frame.
pub open spec fn anc_mode_byte(m: AncMode) -> u8 {
    match m {
        AncMode::NoiseCancellation => 0x01,
        AncMode::Transparency => 0x02,
        AncMode::Off => 0x03,
    }
}

/// The ANC mode that a payload byte stands for, if any.
pub open spec fn anc_mode_of_byte(b: u8) -> Option<AncMode> {
    if b == 0x01 {
        Some(AncMode::NoiseCancellation)
    } else if b == 0x02 {
        Some(AncMode::Transparency)
    } else if b == 0x03 {
        Some(AncMode::Off)
    } else {
        None
    }
}

/// The ANC-mode table is injective: its decode inverts its encode.
pub proof fn lemma_anc_mode_inverse(m: AncMode)
    ensures
        anc_mode_of_byte(anc_mode_byte(m)) == Some(m),
{
}

impl AncMode {
    /// The mode's payload byte.
    pub fn to_byte(&self) -> (r: u8)
        ensures
            r == anc_mode_byte(*self),
    {
        match self {
            AncMode::NoiseCancellation => 0x01,
            AncMode::Transparency => 0x02,
            AncMode::Off => 0x03,
        }
    }

    /// Looks a payload byte up in the ANC-mode table.
    pub fn from_byte(b: u8) -> (r: Option<AncMode>)
        ensures
            r == anc_mode_of_byte(b),
    {
        if b == 0x01 {
            Some(AncMode::NoiseCancellation)
        } else if b == 0x02 {
            Some(AncMode::Transparency)
        } else if b == 0x03 {
            Some(AncMode::Off)
        } else {
            None
        }
    }
}

/// Writable GATT characteristics of the raw-write family (family B).
#[derive(Clone, Copy, PartialEq, Eq, Structural, Debug)]
pub enum CharacteristicHandle {
    NothingEverything,
}

/// The numeric attribute handle of each characteristic.
pub open spec fn handle_value(h: CharacteristicHandle) -> u16 {
    match h {
        CharacteristicHandle::NothingEverything => 0x002E,
    }
}

/// The characteristic that a numeric attribute handle addresses, if any.
pub open spec fn handle_of_value(v: u16) -> Option<CharacteristicHandle> {
    if v == 0x002E {
        Some(CharacteristicHandle::NothingEverything)
    } else {
        None
    }
}

impl CharacteristicHandle {
    /// The characteristic's numeric attribute handle.
    pub fn value(&self) -> (r: u16)
        ensures
            r == handle_value(*self),
    {
        match self {
            CharacteristicHandle::NothingEverything => 0x002E,
        }
    }

    /// Looks a numeric attribute handle up in the characteristic table.
    pub fn from_value(v: u16) -> (r: Option<CharacteristicHandle>)
        ensures
            r == handle_of_value(v),
    {
        if v == 0x002E {
            Some(CharacteristicHandle::NothingEverything)
        } else {
            None
        }
    }
}

/// The constant nine-byte prefix of a family-B raw frame.
pub open spec fn frame_prefix() -> Seq<u8> {
    seq![0x55u8, 0x60, 0x01, 0x0F, 0xF0, 0x03, 0x00, 0x00, 0x01]
}

/// The full 13-byte family-B frame carrying one payload byte: the constant
/// prefix, the payload at offset 9, and three trailing zero bytes.
pub open spec fn frame_bytes(payload: u8) -> Seq<u8> {
    frame_prefix() + seq![payload] + seq![0u8, 0u8, 0u8]
}

/// Inbound events of the framed control protocol, already framed and typed
/// by the transport collaborator.
#[derive(Clone, Debug)]
pub enum AACPEvent {
    /// The device confirmed the current value of a controllable setting:
    /// the setting's wire code and the confirmed value bytes.
    ControlCommandAck(u8, Vec<u8>),
    /// The device reports its (new) name.
    NameUpdated(String),
    /// An event kind this client does not model.
    Unknown(u8, Vec<u8>),
}

} // verus!
