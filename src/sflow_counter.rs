//! sFlow counter samples and their records.
use vstd::prelude::*;
use crate::bytes::{fits, read_u32, u32_at};
use crate::error::ParseError;
use crate::sflow_counter_data::{
    SFlowCounterDataBaseVG, SFlowCounterDataEthernet, SFlowCounterDataGeneric,
    SFlowCounterDataProcessor, SFlowCounterDataTokenRing, SFlowCounterDataVLAN,
};

verus! {

/// A counter record, by kind.
#[derive(Debug, Clone, Copy)]
pub enum SFlowCounterRecord {
    Generic(SFlowCounterDataGeneric),
    Ethernet(SFlowCounterDataEthernet),
    TokenRing(SFlowCounterDataTokenRing),
    BaseVG(SFlowCounterDataBaseVG),
    VLAN(SFlowCounterDataVLAN),
    Processor(SFlowCounterDataProcessor),
}

/// Whether `t` is one of the six counter record types decoded.
pub open spec fn is_counter_record_type(t: u32) -> bool {
    t == 1 || t == 2 || t == 3 || t == 4 || t == 5 || t == 1001
}

/// Bytes that the body of a counter record of type `t` takes.
pub open spec fn counter_body_size(t: u32) -> int {
    if t == 1 {
        88
    } else if t == 2 {
        52
    } else if t == 3 {
        72
    } else if t == 4 {
        80
    } else if t == 5 || t == 1001 {
        28
    } else {
        0
    }
}

/// Where the counter record at `p` ends: its type and size words, then its
/// body.
pub open spec fn counter_record_end(s: Seq<u8>, p: int) -> int {
    p + 8 + counter_body_size(u32_at(s, p))
}

/// The counter record at `p` has a known type and lies within `s`.
pub open spec fn counter_record_ok(s: Seq<u8>, p: int) -> bool {
    &&& p + 8 <= s.len()
    &&& is_counter_record_type(u32_at(s, p))
    &&& counter_record_end(s, p) <= s.len()
}

/// `rec` is the counter record written at `p`.
pub open spec fn counter_record_at(s: Seq<u8>, p: int, rec: SFlowCounterRecord) -> bool {
    let t = u32_at(s, p);
    match rec {
        SFlowCounterRecord::Generic(d) => t == 1 && d.parsed_from(s, p + 8),
        SFlowCounterRecord::Ethernet(d) => t == 2 && d.parsed_from(s, p + 8),
        SFlowCounterRecord::TokenRing(d) => t == 3 && d.parsed_from(s, p + 8),
        SFlowCounterRecord::BaseVG(d) => t == 4 && d.parsed_from(s, p + 8),
        SFlowCounterRecord::VLAN(d) => t == 5 && d.parsed_from(s, p + 8),
        SFlowCounterRecord::Processor(d) => t == 1001 && d.parsed_from(s, p + 8),
    }
}

impl SFlowCounterRecord {
    /// Decodes the counter record at `pos`: type, size, then the body that
    /// the type calls for. Other types are refused rather than passed over
    /// by their declared size.
    pub fn parse_from_datagram(input: &[u8], pos: usize) -> (r: Result<(Self, usize), ParseError>)
        ensures
            match r {
                Ok((rec, end)) => counter_record_ok(input@, pos as int) && end == counter_record_end(
                    input@,
                    pos as int,
                ) && counter_record_at(input@, pos as int, rec),
                Err(e) => !counter_record_ok(input@, pos as int) && (if pos + 8 <= input@.len()
                    && !is_counter_record_type(u32_at(input@, pos as int)) {
                    e == ParseError::UnsupportedCounterRecordType(u32_at(input@, pos as int))
                } else {
                    e == ParseError::Truncated
                }),
            },
    {
        if !fits(input, pos, 8) {
            return Err(ParseError::Truncated);
        }
        let record_type = read_u32(input, pos);
        let body = pos + 8;
        if record_type == 1 {
            match SFlowCounterDataGeneric::parse_from_datagram(input, body) {
                Ok((d, e)) => Ok((Self::Generic(d), e)),
                Err(e) => Err(e),
            }
        } else if record_type == 2 {
            match SFlowCounterDataEthernet::parse_from_datagram(input, body) {
                Ok((d, e)) => Ok((Self::Ethernet(d), e)),
                Err(e) => Err(e),
            }
        } else if record_type == 3 {
            match SFlowCounterDataTokenRing::parse_from_datagram(input, body) {
                Ok((d, e)) => Ok((Self::TokenRing(d), e)),
                Err(e) => Err(e),
            }
        } else if record_type == 4 {
            match SFlowCounterDataBaseVG::parse_from_datagram(input, body) {
                Ok((d, e)) => Ok((Self::BaseVG(d), e)),
                Err(e) => Err(e),
            }
        } else if record_type == 5 {
            match SFlowCounterDataVLAN::parse_from_datagram(input, body) {
                Ok((d, e)) => Ok((Self::VLAN(d), e)),
                Err(e) => Err(e),
            }
        } else if record_type == 1001 {
            match SFlowCounterDataProcessor::parse_from_datagram(input, body) {
                Ok((d, e)) => Ok((Self::Processor(d), e)),
                Err(e) => Err(e),
            }
        } else {
            Err(ParseError::UnsupportedCounterRecordType(record_type))
        }
    }
}

/// Where the `k`-th counter record starts, the first at `first`.
pub open spec fn counter_record_offset(s: Seq<u8>, first: int, k: nat) -> int
    decreases k,
{
    if k == 0 {
        first
    } else {
        counter_record_end(s, counter_record_offset(s, first, (k - 1) as nat))
    }
}

/// The first `n` counter records from `first` are known and lie within `s`.
pub open spec fn counter_records_ok(s: Seq<u8>, first: int, n: nat) -> bool {
    forall|k: nat| k < n ==> counter_record_ok(s, #[trigger] counter_record_offset(s, first, k))
}

/// A counter sample: sequence number, source, and its records.
#[derive(Debug, Clone)]
pub struct SFlowCounterSample {
    pub seq: u32,
    pub src: u32,
    pub records_count: u32,
    pub records: Vec<SFlowCounterRecord>,
}

/// Where the counter sample whose body starts at `p` ends.
pub open spec fn counter_sample_end(s: Seq<u8>, p: int) -> int {
    counter_record_offset(s, p + 12, u32_at(s, p + 8) as nat)
}

/// The counter sample body at `p` lies within `s` and all its records are
/// known.
pub open spec fn counter_sample_ok(s: Seq<u8>, p: int) -> bool {
    p + 12 <= s.len() && counter_records_ok(s, p + 12, u32_at(s, p + 8) as nat)
}

/// `c` is the counter sample body written at `p`.
pub open spec fn counter_sample_at(s: Seq<u8>, p: int, c: SFlowCounterSample) -> bool {
    &&& c.seq == u32_at(s, p)
    &&& c.src == u32_at(s, p + 4)
    &&& c.records_count == u32_at(s, p + 8)
    &&& c.records@.len() == c.records_count
    &&& forall|k: int|
        0 <= k < c.records@.len() ==> counter_record_at(
            s,
            counter_record_offset(s, p + 12, k as nat),
            #[trigger] c.records@[k],
        )
}

impl SFlowCounterSample {
    /// Decodes the counter sample body at `pos`: sequence number, source,
    /// record count, then that many records.
    pub fn parse_from_datagram(input: &[u8], pos: usize) -> (r: Result<(Self, usize), ParseError>)
        ensures
            match r {
                Ok((c, end)) => counter_sample_ok(input@, pos as int) && end == counter_sample_end(
                    input@,
                    pos as int,
                ) && counter_sample_at(input@, pos as int, c),
                Err(e) => !counter_sample_ok(input@, pos as int) && (e == ParseError::Truncated
                    || e is UnsupportedCounterRecordType),
            },
    {
        if !fits(input, pos, 12) {
            return Err(ParseError::Truncated);
        }
        let seq = read_u32(input, pos);
        let src = read_u32(input, pos + 4);
        let records_count = read_u32(input, pos + 8);
        let ghost s = input@;
        let mut records: Vec<SFlowCounterRecord> = Vec::new();
        let mut cur = pos + 12;
        let mut k: u32 = 0;
        while k < records_count
            invariant
                s == input@,
                pos + 12 <= s.len(),
                records_count == u32_at(s, pos + 8),
                k <= records_count,
                cur == counter_record_offset(s, pos + 12, k as nat),
                records@.len() == k,
                forall|i: nat|
                    i < k ==> counter_record_ok(s, #[trigger] counter_record_offset(s, pos + 12, i)),
                forall|i: int|
                    0 <= i < k ==> counter_record_at(
                        s,
                        counter_record_offset(s, pos + 12, i as nat),
                        #[trigger] records@[i],
                    ),
            decreases records_count - k,
        {
            match SFlowCounterRecord::parse_from_datagram(input, cur) {
                Ok((rec, next)) => {
                    records.push(rec);
                    cur = next;
                },
                Err(e) => {
                    assert(!counter_record_ok(s, counter_record_offset(s, pos + 12, k as nat)));
                    return Err(e);
                },
            }
            k += 1;
        }
        Ok((Self { seq, src, records_count, records }, cur))
    }
}

} // verus!
