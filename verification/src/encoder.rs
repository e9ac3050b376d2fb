//! Command encoder: pure functions mapping a (command identifier, value)
//! pair to the bytes each accessory family expects on the wire.  Encoding
//! is total over the pairs that have a table entry and fails with an
//! [`EncodingError`] on every other pair; it never panics.

use vstd::prelude::*;
use vstd::string::StrSliceExecFns;
use crate::protocol::{
    anc_mode_byte, frame_bytes, is_toggle_identifier, listening_mode_byte, toggle_byte, AncMode,
    CommandIdentifier, NoiseControlMode, TOGGLE_DISABLED, TOGGLE_ENABLED,
};

verus! {

/// A value for the (identifier, value) pair has no wire representation.
#[derive(Clone, Copy, PartialEq, Eq, Structural, Debug)]
pub enum EncodingError {
    /// The identifier/value pair has no entry in the encoding tables.
    NoTableEntry,
}

/// The logical value carried by a command.
#[derive(Debug)]
pub enum CommandValue {
    /// A boolean toggle setting.
    Toggle(bool),
    /// A family-A listening mode.
    Mode(NoiseControlMode),
    /// A device name.
    Name(String),
}

/// The encoding table: the payload bytes of a (identifier, value) pair, or
/// `None` where the pair has no wire representation.  A rename carries any
/// name, as the name's UTF-8 bytes.
pub open spec fn spec_encode(id: CommandIdentifier, v: CommandValue) -> Option<Seq<u8>> {
    match v {
        CommandValue::Toggle(b) => if is_toggle_identifier(id) {
            Some(seq![toggle_byte(b)])
        } else {
            None
        },
        CommandValue::Mode(m) => if id is ListeningMode {
            Some(seq![listening_mode_byte(m)])
        } else {
            None
        },
        CommandValue::Name(s) => if id is Rename {
            Some(vstd::utf8::encode_utf8(s@))
        } else {
            None
        },
    }
}

/// Encodes a toggle value: enabled to `0x01`, disabled to `0x02`.
pub fn encode_toggle(enabled: bool) -> (r: u8)
    ensures
        r == toggle_byte(enabled),
{
    if enabled {
        TOGGLE_ENABLED
    } else {
        TOGGLE_DISABLED
    }
}

/// Encodes a (command identifier, value) pair into its family-A payload
/// bytes.  Returns exactly the bytes of the encoding table; a pair without
/// a table entry is an encoding error.
pub fn encode(id: CommandIdentifier, value: CommandValue) -> (r: Result<Vec<u8>, EncodingError>)
    ensures
        r is Ok <==> spec_encode(id, value) is Some,
        r is Ok ==> r->Ok_0@ == spec_encode(id, value)->Some_0,
        r is Err ==> r == Result::<Vec<u8>, EncodingError>::Err(EncodingError::NoTableEntry),
{
    match value {
        CommandValue::Toggle(b) => {
            if id == CommandIdentifier::AdaptiveVolumeConfig || id
                == CommandIdentifier::ConversationDetectConfig || id
                == CommandIdentifier::AllowOffOption {
                let mut out: Vec<u8> = Vec::new();
                out.push(encode_toggle(b));
                proof {
                    assert(out@ =~= seq![toggle_byte(b)]);
                }
                Ok(out)
            } else {
                Err(EncodingError::NoTableEntry)
            }
        },
        CommandValue::Mode(m) => {
            if id == CommandIdentifier::ListeningMode {
                let mut out: Vec<u8> = Vec::new();
                out.push(m.to_byte());
                proof {
                    assert(out@ =~= seq![listening_mode_byte(m)]);
                }
                Ok(out)
            } else {
                Err(EncodingError::NoTableEntry)
            }
        },
        CommandValue::Name(s) => {
            if id == CommandIdentifier::Rename {
                Ok(s.as_str().as_bytes_vec())
            } else {
                Err(EncodingError::NoTableEntry)
            }
        },
    }
}

/// The toggle encoding convention holds of every boolean-valued
/// identifier: enabled encodes to the single byte `0x01` and disabled to
/// the single byte `0x02` — the 1/2 sentinel pair, not boolean 1/0.
pub proof fn lemma_toggle_encoding(id: CommandIdentifier, enabled: bool)
    requires
        is_toggle_identifier(id),
    ensures
        spec_encode(id, CommandValue::Toggle(enabled)) == Some(seq![toggle_byte(enabled)]),
        toggle_byte(true) == 0x01,
        toggle_byte(false) == 0x02,
{
}

/// Builds the 13-byte family-B raw frame around one payload byte: the
/// constant prefix, the payload at offset 9, and three trailing zeros.
pub fn build_raw_frame(payload: u8) -> (r: Vec<u8>)
    ensures
        r@ == frame_bytes(payload),
        r@.len() == 13,
{
    let mut v: Vec<u8> = Vec::new();
    v.push(0x55);
    v.push(0x60);
    v.push(0x01);
    v.push(0x0F);
    v.push(0xF0);
    v.push(0x03);
    v.push(0x00);
    v.push(0x00);
    v.push(0x01);
    v.push(payload);
    v.push(0x00);
    v.push(0x00);
    v.push(0x00);
    proof {
        assert(v@ =~= frame_bytes(payload));
    }
    v
}

/// Builds the family-B raw frame that selects an ANC mode.
pub fn encode_anc_command(m: AncMode) -> (r: Vec<u8>)
    ensures
        r@ == frame_bytes(anc_mode_byte(m)),
{
    build_raw_frame(m.to_byte())
}

} // verus!
