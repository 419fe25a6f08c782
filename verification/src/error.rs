//! Failure kinds shared by the instruction and record codecs.

use vstd::prelude::*;

verus! {

/// Why a decode or a builder call failed.
#[derive(Clone, Copy, Debug, PartialEq, Eq, Structural)]
pub enum TokenError {
    /// The buffer is shorter than the tag or field being read requires.
    MalformedBuffer,
    /// An instruction tag, authority-type byte, or account-state byte is
    /// outside its closed set.
    UnknownDiscriminant,
    /// An optional-value presence tag is neither 0 nor 1.
    InvalidOptionalTag,
    /// An initialization-flag byte is neither 0 nor 1.
    InvalidBoolean,
    /// A free-text amount payload is not valid UTF-8.
    InvalidText,
    /// A multisignature threshold or signer count is outside the valid
    /// range, or the threshold exceeds the signer count.
    ThresholdViolation,
    /// A builder was handed a program id other than the token program's.
    IncorrectProgramId,
}

} // verus!
