//! Failure policy and decode errors.

use vstd::prelude::*;

verus! {

/// How violations of the format are handled. The policy is chosen once, by
/// the caller, and handed unchanged to every decoder.
#[derive(Clone, Copy, Debug, PartialEq, Eq, Structural)]
pub enum Policy {
    /// Every violation is reported as an error.
    Strict,
    /// A violation inside a field replaces the field by its default; a
    /// violation inside a sequence ends the sequence.
    Lenient,
}

impl Policy {
    pub open spec fn is_strict(self) -> bool {
        self == Policy::Strict
    }
}

impl Default for Policy {
    fn default() -> (p: Policy)
        ensures
            p == Policy::Lenient,
    {
        Policy::Lenient
    }
}

/// What went wrong.
#[derive(Clone, Copy, Debug, PartialEq, Eq, Structural)]
pub enum Cause {
    /// Bytes remain, but fewer than a chunk header takes.
    TruncatedHeader,
    /// A chunk declares more payload bytes than remain after its header.
    MalformedLength,
    /// A chunk whose tag is not legal where it stands.
    UnexpectedChunk,
    /// A fixed-size field is absent or too short.
    MalformedField,
    /// Bits that the layout reserves as zero are set.
    ReservedBits,
    /// A code that its enumeration does not know.
    UnknownCode,
    /// Text that is not valid UTF-8 where a value is required.
    InvalidText,
    /// A style-part name outside the known ones.
    UnknownStylePart,
}

impl Cause {
    /// Whether this is a truncation: a chunk that is cut short. The
    /// sequence of chunks in which it occurs has no position from which it
    /// could go on.
    pub open spec fn is_truncation(self) -> bool {
        self == Cause::TruncatedHeader || self == Cause::MalformedLength
    }

    /// Whether this is a truncation.
    pub fn truncation(self) -> (r: bool)
        ensures
            r == self.is_truncation(),
    {
        match self {
            Cause::TruncatedHeader | Cause::MalformedLength => true,
            _ => false,
        }
    }
}

/// The section that failed to decode.
#[derive(Clone, Copy, Debug, PartialEq, Eq, Structural)]
pub enum Section {
    Mh,
    Mdb,
    Casm,
    Ots,
    Cseg,
    Record,
}

/// A decode failure: its cause and, once it has passed through a section
/// decoder, the section that it belongs to.
#[derive(Clone, Copy, Debug, PartialEq, Eq, Structural)]
pub struct DecodeError {
    pub cause: Cause,
    pub section: Option<Section>,
}

impl DecodeError {
    /// An error that no section has claimed yet.
    pub open spec fn bare(cause: Cause) -> DecodeError {
        DecodeError { cause, section: None }
    }

    pub open spec fn within(self, section: Section) -> DecodeError {
        DecodeError { cause: self.cause, section: Some(section) }
    }

    pub fn new(cause: Cause) -> (e: DecodeError)
        ensures
            e == DecodeError::bare(cause),
    {
        DecodeError { cause, section: None }
    }

    /// The same failure, marked as having occurred in `section`.
    pub fn context(self, section: Section) -> (e: DecodeError)
        ensures
            e == self.within(section),
    {
        DecodeError { cause: self.cause, section: Some(section) }
    }
}

} // verus!
