//! The ways a record can fail to decode, and the policy switch between them.
use vstd::prelude::*;

verus! {

/// Why a record could not be decoded.
#[derive(Debug, Clone, Copy, PartialEq, Eq, Structural)]
pub enum DecodeError {
    /// The record has no `opcode` entry.
    MissingOpcode,
    /// The record's `opcode` entry is not text.
    NotAString,
    /// The record lacks `inputs` or `fields`, or one of its collections is not a mapping.
    MissingInputsOrFields,
    /// A slot cell has no shape that resolves: it is neither null, a number
    /// or a text, nor a wrapper around one.
    MalformedValue,
    /// A procedure signature lacks its boolean `warp` entry.
    MissingWarpFlag,
    /// A closed-set option holds a tag outside its table.
    InvalidOption,
    /// The opcode is known to the format but has no node, or the record is a
    /// procedure definition that names no prototype.
    UnsupportedOpcode,
    /// The opcode is outside the closed set.
    UnrecognizedOpcode,
}

/// How tolerant decoding is of records it does not know.
#[derive(Debug, Clone, Copy, PartialEq, Eq, Structural)]
pub enum Mode {
    /// Unknown opcodes and option tags are errors.
    Development,
    /// Unknown opcodes become sentinel nodes and unknown option tags are left unset.
    Production,
}

impl Mode {
    /// What an option tag outside its table decodes to: an error in
    /// development, and no option in production.
    pub open spec fn unmatched<T>(self) -> Result<Option<T>, DecodeError> {
        match self {
            Mode::Development => Err(DecodeError::InvalidOption),
            Mode::Production => Ok(None),
        }
    }

    /// Gives what an option tag outside its table decodes to.
    pub fn on_unmatched<T>(self) -> (r: Result<Option<T>, DecodeError>)
        ensures
            r == self.unmatched::<T>(),
    {
        match self {
            Mode::Development => Err(DecodeError::InvalidOption),
            Mode::Production => Ok(None),
        }
    }
}

/// The model of a decoding outcome: the model of the value, or the error.
pub open spec fn outcome<T: DeepView>(r: Result<T, DecodeError>) -> Result<T::V, DecodeError> {
    match r {
        Ok(value) => Ok(value.deep_view()),
        Err(e) => Err(e),
    }
}

} // verus!
