//! Why a datagram could not be decoded.
use vstd::prelude::*;
use crate::address::SourceAddr;

verus! {

/// A decode failure. Each one ends the decoding of one datagram only.
#[derive(Debug, Clone, Copy, PartialEq, Eq, Structural)]
pub enum ParseError {
    /// The version field is not one of 1, 5, 9 or 10.
    UnsupportedVersion(u16),
    /// Fewer bytes remain than a field, record or count requires.
    Truncated,
    /// A set identifier in the reserved range.
    InvalidSetId(u16),
    /// A data set whose template was not registered for this address.
    UnknownTemplate(SourceAddr, u16),
    /// A set length that cannot hold its own header or contents, or a data
    /// set whose template has no width.
    InvalidLength,
    /// A NetFlow v9 or IPFIX datagram with more sets than a datagram may hold.
    TooManySets,
    /// An sFlow sample type other than flow or counter samples.
    UnsupportedSampleType(u32),
    /// An sFlow counter record type outside the six known kinds.
    UnsupportedCounterRecordType(u32),
    /// An sFlow flow record type outside the known kinds.
    UnsupportedFlowRecordType(u32),
}

} // verus!
