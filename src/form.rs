//! The two serialized forms, and telling them apart.
use vstd::prelude::*;

verus! {

/// The serialized form of a key or an envelope.
#[derive(Clone, Copy, Debug, PartialEq, Eq, Structural)]
pub enum Form {
    /// A self-delimiting packet stream.
    Binary,
    /// Line-wrapped printable text between `-----BEGIN` and `-----END` markers.
    Armored,
}

/// The byte `-`, with which every armor header begins.
pub const DASH: u8 = 45;

/// Whether a buffer opens with the five dashes of an armor header. A binary
/// packet stream cannot: the first byte of a packet has its top bit set.
pub open spec fn looks_armored(b: Seq<u8>) -> bool {
    b.len() >= 5 && b[0] == DASH && b[1] == DASH && b[2] == DASH && b[3] == DASH && b[4] == DASH
}

/// The form that a buffer is read in.
pub open spec fn form_of(b: Seq<u8>) -> Form {
    if looks_armored(b) {
        Form::Armored
    } else {
        Form::Binary
    }
}

/// Detects the form of a serialized key or envelope from its leading bytes.
pub fn detect_form(b: &Vec<u8>) -> (f: Form)
    ensures
        f == form_of(b@),
{
    if b.len() >= 5 && b[0] == DASH && b[1] == DASH && b[2] == DASH && b[3] == DASH && b[4] == DASH {
        Form::Armored
    } else {
        Form::Binary
    }
}

} // verus!
