//! sFlow flow samples and their records.
use vstd::prelude::*;
use crate::bytes::{fits, read_bytes, read_u32, u32_at};
use crate::error::ParseError;

verus! {

/// A raw packet header record: the protocol of the header, the length of
/// the frame, the bytes stripped from it, and the header bytes.
#[derive(Debug, Clone)]
pub struct SFlowFlowRawPacketHeader {
    pub protocol: u32,
    pub frame_length: u32,
    pub stripped: u32,
    pub header_size: u32,
    pub header: Vec<u8>,
}

/// Where the raw packet header record body at `p` ends.
pub open spec fn raw_header_end(s: Seq<u8>, p: int) -> int {
    p + 16 + u32_at(s, p + 12)
}

impl SFlowFlowRawPacketHeader {
    /// This record is the body written at `p`.
    pub open spec fn parsed_from(&self, s: Seq<u8>, p: int) -> bool {
        &&& self.protocol == u32_at(s, p)
        &&& self.frame_length == u32_at(s, p + 4)
        &&& self.stripped == u32_at(s, p + 8)
        &&& self.header_size == u32_at(s, p + 12)
        &&& self.header@ == s.subrange(p + 16, raw_header_end(s, p))
    }

    /// Decodes the raw packet header record body at `pos`.
    pub fn parse_from_datagram(input: &[u8], pos: usize) -> (r: Result<(Self, usize), ParseError>)
        ensures
            match r {
                Ok((h, end)) => pos + 16 <= input@.len() && raw_header_end(input@, pos as int)
                    <= input@.len() && end == raw_header_end(input@, pos as int) && h.parsed_from(
                    input@,
                    pos as int,
                ),
                Err(e) => (pos + 16 > input@.len() || raw_header_end(input@, pos as int)
                    > input@.len()) && e == ParseError::Truncated,
            },
    {
        if !fits(input, pos, 16) {
            return Err(ParseError::Truncated);
        }
        let protocol = read_u32(input, pos);
        let frame_length = read_u32(input, pos + 4);
        let stripped = read_u32(input, pos + 8);
        let header_size = read_u32(input, pos + 12);
        if !fits(input, pos + 16, header_size as usize) {
            return Err(ParseError::Truncated);
        }
        let header = read_bytes(input, pos + 16, header_size as usize);
        Ok((Self { protocol, frame_length, stripped, header_size, header }, pos + 16 + header_size as usize))
    }
}

/// A flow record, by kind. Only raw packet headers are decoded; records of
/// the other kinds are recognised and passed over.
#[derive(Debug, Clone)]
pub enum SFlowFlowSampleRecord {
    Raw(SFlowFlowRawPacketHeader),
    Ethernet,
    IPv4,
    IPv6,
    ExtendedSwitch,
    ExtendedRouter,
    ExtendedGateway,
    ExtendedUserData,
    ExtendedUrlData,
    ExtendedMPLSData,
    ExtendedNATData,
    ExtendedMPLSTunnel,
    ExtendedMPLSVC,
    ExtendedMPLSFEC,
    ExtendedMPLSLVPFEC,
    ExtendedVLANTunnel,
}

/// The record type of each kind of flow record.
pub open spec fn flow_record_type_of(rec: SFlowFlowSampleRecord) -> u32 {
    match rec {
        SFlowFlowSampleRecord::Raw(_) => 1,
        SFlowFlowSampleRecord::Ethernet => 2,
        SFlowFlowSampleRecord::IPv4 => 3,
        SFlowFlowSampleRecord::IPv6 => 4,
        SFlowFlowSampleRecord::ExtendedSwitch => 1001,
        SFlowFlowSampleRecord::ExtendedRouter => 1002,
        SFlowFlowSampleRecord::ExtendedGateway => 1003,
        SFlowFlowSampleRecord::ExtendedUserData => 1004,
        SFlowFlowSampleRecord::ExtendedUrlData => 1005,
        SFlowFlowSampleRecord::ExtendedMPLSData => 1006,
        SFlowFlowSampleRecord::ExtendedNATData => 1007,
        SFlowFlowSampleRecord::ExtendedMPLSTunnel => 1008,
        SFlowFlowSampleRecord::ExtendedMPLSVC => 1009,
        SFlowFlowSampleRecord::ExtendedMPLSFEC => 1010,
        SFlowFlowSampleRecord::ExtendedMPLSLVPFEC => 1011,
        SFlowFlowSampleRecord::ExtendedVLANTunnel => 1012,
    }
}

/// Whether `t` is a flow record type that is recognised.
pub open spec fn is_flow_record_type(t: u32) -> bool {
    (1 <= t <= 4) || (1001 <= t <= 1012)
}

/// Where the flow record at `p` ends: a raw packet header ends after its
/// header bytes, other records after the size they declare.
pub open spec fn flow_record_end(s: Seq<u8>, p: int) -> int {
    if u32_at(s, p) == 1 {
        raw_header_end(s, p + 8)
    } else {
        p + 8 + u32_at(s, p + 4)
    }
}

/// The flow record at `p` has a recognised type and lies within `s`.
pub open spec fn flow_record_ok(s: Seq<u8>, p: int) -> bool {
    &&& p + 8 <= s.len()
    &&& is_flow_record_type(u32_at(s, p))
    &&& (u32_at(s, p) == 1 ==> p + 24 <= s.len())
    &&& flow_record_end(s, p) <= s.len()
}

/// `rec` is the flow record written at `p`.
pub open spec fn flow_record_at(s: Seq<u8>, p: int, rec: SFlowFlowSampleRecord) -> bool {
    &&& u32_at(s, p) == flow_record_type_of(rec)
    &&& (rec matches SFlowFlowSampleRecord::Raw(h) ==> h.parsed_from(s, p + 8))
}

impl SFlowFlowSampleRecord {
    /// Decodes the flow record at `pos`: type, size, then the body.
    pub fn parse_from_datagram(input: &[u8], pos: usize) -> (r: Result<(Self, usize), ParseError>)
        ensures
            match r {
                Ok((rec, end)) => flow_record_ok(input@, pos as int) && end == flow_record_end(
                    input@,
                    pos as int,
                ) && flow_record_at(input@, pos as int, rec),
                Err(e) => !flow_record_ok(input@, pos as int) && (if pos + 8 <= input@.len()
                    && !is_flow_record_type(u32_at(input@, pos as int)) {
                    e == ParseError::UnsupportedFlowRecordType(u32_at(input@, pos as int))
                } else {
                    e == ParseError::Truncated
                }),
            },
    {
        if !fits(input, pos, 8) {
            return Err(ParseError::Truncated);
        }
        let record_type = read_u32(input, pos);
        let record_size = read_u32(input, pos + 4);
        if record_type == 1 {
            return match SFlowFlowRawPacketHeader::parse_from_datagram(input, pos + 8) {
                Ok((h, end)) => Ok((Self::Raw(h), end)),
                Err(e) => Err(e),
            };
        }
        let rec = if record_type == 2 {
            Self::Ethernet
        } else if record_type == 3 {
            Self::IPv4
        } else if record_type == 4 {
            Self::IPv6
        } else if record_type == 1001 {
            Self::ExtendedSwitch
        } else if record_type == 1002 {
            Self::ExtendedRouter
        } else if record_type == 1003 {
            Self::ExtendedGateway
        } else if record_type == 1004 {
            Self::ExtendedUserData
        } else if record_type == 1005 {
            Self::ExtendedUrlData
        } else if record_type == 1006 {
            Self::ExtendedMPLSData
        } else if record_type == 1007 {
            Self::ExtendedNATData
        } else if record_type == 1008 {
            Self::ExtendedMPLSTunnel
        } else if record_type == 1009 {
            Self::ExtendedMPLSVC
        } else if record_type == 1010 {
            Self::ExtendedMPLSFEC
        } else if record_type == 1011 {
            Self::ExtendedMPLSLVPFEC
        } else if record_type == 1012 {
            Self::ExtendedVLANTunnel
        } else {
            return Err(ParseError::UnsupportedFlowRecordType(record_type));
        };
        if !fits(input, pos + 8, record_size as usize) {
            return Err(ParseError::Truncated);
        }
        Ok((rec, pos + 8 + record_size as usize))
    }
}

/// Where the `k`-th flow record starts, the first at `first`.
pub open spec fn flow_record_offset(s: Seq<u8>, first: int, k: nat) -> int
    decreases k,
{
    if k == 0 {
        first
    } else {
        flow_record_end(s, flow_record_offset(s, first, (k - 1) as nat))
    }
}

/// The first `n` flow records from `first` are recognised and lie within `s`.
pub open spec fn flow_records_ok(s: Seq<u8>, first: int, n: nat) -> bool {
    forall|k: nat| k < n ==> flow_record_ok(s, #[trigger] flow_record_offset(s, first, k))
}

/// A flow sample: its header fields and its records.
#[derive(Debug, Clone)]
pub struct SFlowFlowSample {
    pub seq: u32,
    pub src: u32,
    pub rate: u32,
    pub pool: u32,
    pub dropped: u32,
    pub input_if: u32,
    pub output_if: u32,
    pub record_count: u32,
    pub records: Vec<SFlowFlowSampleRecord>,
}

/// Where the flow sample whose body starts at `p` ends.
pub open spec fn flow_sample_end(s: Seq<u8>, p: int) -> int {
    flow_record_offset(s, p + 32, u32_at(s, p + 28) as nat)
}

/// The flow sample body at `p` lies within `s` and all its records are
/// recognised.
pub open spec fn flow_sample_ok(s: Seq<u8>, p: int) -> bool {
    p + 32 <= s.len() && flow_records_ok(s, p + 32, u32_at(s, p + 28) as nat)
}

/// `f` is the flow sample body written at `p`.
pub open spec fn flow_sample_at(s: Seq<u8>, p: int, f: SFlowFlowSample) -> bool {
    &&& f.seq == u32_at(s, p)
    &&& f.src == u32_at(s, p + 4)
    &&& f.rate == u32_at(s, p + 8)
    &&& f.pool == u32_at(s, p + 12)
    &&& f.dropped == u32_at(s, p + 16)
    &&& f.input_if == u32_at(s, p + 20)
    &&& f.output_if == u32_at(s, p + 24)
    &&& f.record_count == u32_at(s, p + 28)
    &&& f.records@.len() == f.record_count
    &&& forall|k: int|
        0 <= k < f.records@.len() ==> flow_record_at(
            s,
            flow_record_offset(s, p + 32, k as nat),
            #[trigger] f.records@[k],
        )
}

impl SFlowFlowSample {
    /// Decodes the flow sample body at `pos`: seven header fields, the
    /// record count, then that many records.
    pub fn parse_from_datagram(input: &[u8], pos: usize) -> (r: Result<(Self, usize), ParseError>)
        ensures
            match r {
                Ok((f, end)) => flow_sample_ok(input@, pos as int) && end == flow_sample_end(
                    input@,
                    pos as int,
                ) && flow_sample_at(input@, pos as int, f),
                Err(e) => !flow_sample_ok(input@, pos as int) && (e == ParseError::Truncated
                    || e is UnsupportedFlowRecordType),
            },
    {
        if !fits(input, pos, 32) {
            return Err(ParseError::Truncated);
        }
        let seq = read_u32(input, pos);
        let src = read_u32(input, pos + 4);
        let rate = read_u32(input, pos + 8);
        let pool = read_u32(input, pos + 12);
        let dropped = read_u32(input, pos + 16);
        let input_if = read_u32(input, pos + 20);
        let output_if = read_u32(input, pos + 24);
        let record_count = read_u32(input, pos + 28);
        let ghost s = input@;
        let mut records: Vec<SFlowFlowSampleRecord> = Vec::new();
        let mut cur = pos + 32;
        let mut k: u32 = 0;
        while k < record_count
            invariant
                s == input@,
                pos + 32 <= s.len(),
                record_count == u32_at(s, pos + 28),
                k <= record_count,
                cur == flow_record_offset(s, pos + 32, k as nat),
                records@.len() == k,
                forall|i: nat|
                    i < k ==> flow_record_ok(s, #[trigger] flow_record_offset(s, pos + 32, i)),
                forall|i: int|
                    0 <= i < k ==> flow_record_at(
                        s,
                        flow_record_offset(s, pos + 32, i as nat),
                        #[trigger] records@[i],
                    ),
            decreases record_count - k,
        {
            match SFlowFlowSampleRecord::parse_from_datagram(input, cur) {
                Ok((rec, next)) => {
                    records.push(rec);
                    cur = next;
                },
                Err(e) => {
                    assert(!flow_record_ok(s, flow_record_offset(s, pos + 32, k as nat)));
                    return Err(e);
                },
            }
            k += 1;
        }
        Ok((
            Self { seq, src, rate, pool, dropped, input_if, output_if, record_count, records },
            cur,
        ))
    }
}

} // verus!
