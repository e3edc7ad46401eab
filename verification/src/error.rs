use vstd::prelude::*;

verus! {

/// A fatal decode failure.
///
/// Every failure is unrecoverable at the point of detection: the error
/// propagates straight to the top-level caller and no partial structure is
/// returned.
#[derive(Clone, Copy, Debug, PartialEq, Eq, Structural)]
pub enum DecodeError {
    /// The stream does not begin with the fixed four-byte signature.
    BadMagic,
    /// A constant pool entry's tag byte is not one of the recognized values.
    UnknownConstantTag,
    /// A Utf8 constant's payload is not well-formed UTF-8.
    InvalidUtf8,
    /// An attribute's name index does not refer to a Utf8 pool entry.
    AttributeNameNotUtf8,
    /// Reserved for callers that reject attribute names they do not know.
    /// The decoder itself keeps such attributes as opaque blobs and never
    /// raises this.
    UnknownAttributeName,
    /// A stack map frame's kind byte falls in the reserved range.
    UnknownFrameType,
    /// A verification type's tag byte is out of range.
    UnknownVerificationTag,
    /// An annotation element value's tag byte is not a recognized kind.
    UnknownElementValueTag,
    /// The stream ended before a required field could be read.
    TruncatedInput,
    /// A nested structure went deeper than the configured ceiling.
    RecursionLimitExceeded,
}

} // verus!
