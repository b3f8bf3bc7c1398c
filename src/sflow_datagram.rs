//! sFlow datagrams: a header with the agent address, then samples.
use vstd::prelude::*;
use crate::bytes::{fits, read_u128, read_u32, u128_at, u32_at};
use crate::error::ParseError;
use crate::sflow_counter::{counter_sample_at, counter_sample_end, counter_sample_ok, SFlowCounterSample};
use crate::sflow_flow::{flow_sample_at, flow_sample_end, flow_sample_ok, SFlowFlowSample};

verus! {

/// The address of an sFlow agent: IPv4 as a 32-bit number, IPv6 as a
/// 128-bit number, first octet most significant.
#[derive(Debug, Clone, Copy, PartialEq, Eq, Structural)]
pub enum DatagramIPAddr {
    IPv4(u32),
    IPv6(u128),
}

/// Where the agent address at `p` ends: a 1 announces four address bytes,
/// anything else sixteen.
pub open spec fn agent_addr_end(s: Seq<u8>, p: int) -> int {
    if u32_at(s, p) == 1 {
        p + 8
    } else {
        p + 20
    }
}

/// The agent address written at `p`.
pub open spec fn agent_addr_at(s: Seq<u8>, p: int) -> DatagramIPAddr {
    if u32_at(s, p) == 1 {
        DatagramIPAddr::IPv4(u32_at(s, p + 4))
    } else {
        DatagramIPAddr::IPv6(u128_at(s, p + 4))
    }
}

impl DatagramIPAddr {
    /// Decodes the agent address at `pos`: its kind, then the address.
    pub fn from_datagram_bytes(input: &[u8], pos: usize) -> (r: Result<(Self, usize), ParseError>)
        ensures
            match r {
                Ok((a, end)) => pos + 4 <= input@.len() && agent_addr_end(input@, pos as int)
                    <= input@.len() && end == agent_addr_end(input@, pos as int) && a
                    == agent_addr_at(input@, pos as int),
                Err(e) => (pos + 4 > input@.len() || agent_addr_end(input@, pos as int)
                    > input@.len()) && e == ParseError::Truncated,
            },
    {
        if !fits(input, pos, 4) {
            return Err(ParseError::Truncated);
        }
        let kind = read_u32(input, pos);
        if kind == 1 {
            if !fits(input, pos, 8) {
                return Err(ParseError::Truncated);
            }
            Ok((DatagramIPAddr::IPv4(read_u32(input, pos + 4)), pos + 8))
        } else {
            if !fits(input, pos, 20) {
                return Err(ParseError::Truncated);
            }
            Ok((DatagramIPAddr::IPv6(read_u128(input, pos + 4)), pos + 20))
        }
    }
}

/// A sample, by type. Only flow and counter samples are decoded.
#[derive(Debug, Clone)]
pub enum SFlowSample {
    Flow(SFlowFlowSample),
    Counter(SFlowCounterSample),
    ExpFlow,
    ExpCounter,
}

/// Where the sample at `p` ends.
pub open spec fn sample_end(s: Seq<u8>, p: int) -> int {
    if u32_at(s, p) == 1 {
        flow_sample_end(s, p + 8)
    } else {
        counter_sample_end(s, p + 8)
    }
}

/// The sample at `p` is a flow or counter sample that decodes within `s`.
pub open spec fn sample_ok(s: Seq<u8>, p: int) -> bool {
    &&& p + 8 <= s.len()
    &&& (u32_at(s, p) == 1 || u32_at(s, p) == 2)
    &&& (u32_at(s, p) == 1 ==> flow_sample_ok(s, p + 8))
    &&& (u32_at(s, p) == 2 ==> counter_sample_ok(s, p + 8))
}

/// `x` is the sample written at `p`.
pub open spec fn sample_at(s: Seq<u8>, p: int, x: SFlowSample) -> bool {
    match x {
        SFlowSample::Flow(f) => u32_at(s, p) == 1 && flow_sample_at(s, p + 8, f),
        SFlowSample::Counter(c) => u32_at(s, p) == 2 && counter_sample_at(s, p + 8, c),
        _ => false,
    }
}

impl SFlowSample {
    /// Decodes the sample at `pos`: type and size, then a flow sample (type
    /// 1) or a counter sample (type 2). Other types are refused rather than
    /// passed over by their declared size.
    pub fn parse_from_datagram(input: &[u8], pos: usize) -> (r: Result<(Self, usize), ParseError>)
        ensures
            match r {
                Ok((x, end)) => sample_ok(input@, pos as int) && end == sample_end(
                    input@,
                    pos as int,
                ) && sample_at(input@, pos as int, x),
                Err(e) => !sample_ok(input@, pos as int) && (if pos + 8 <= input@.len() && !(
                u32_at(input@, pos as int) == 1 || u32_at(input@, pos as int) == 2) {
                    e == ParseError::UnsupportedSampleType(u32_at(input@, pos as int))
                } else {
                    e == ParseError::Truncated || e is UnsupportedCounterRecordType
                        || e is UnsupportedFlowRecordType
                }),
            },
    {
        if !fits(input, pos, 8) {
            return Err(ParseError::Truncated);
        }
        let sample_type = read_u32(input, pos);
        if sample_type == 1 {
            match SFlowFlowSample::parse_from_datagram(input, pos + 8) {
                Ok((f, end)) => Ok((SFlowSample::Flow(f), end)),
                Err(e) => Err(e),
            }
        } else if sample_type == 2 {
            match SFlowCounterSample::parse_from_datagram(input, pos + 8) {
                Ok((c, end)) => Ok((SFlowSample::Counter(c), end)),
                Err(e) => Err(e),
            }
        } else {
            Err(ParseError::UnsupportedSampleType(sample_type))
        }
    }
}

/// Where the `k`-th sample starts, the first at `first`.
pub open spec fn sample_offset(s: Seq<u8>, first: int, k: nat) -> int
    decreases k,
{
    if k == 0 {
        first
    } else {
        sample_end(s, sample_offset(s, first, (k - 1) as nat))
    }
}

/// An sFlow datagram.
#[derive(Debug, Clone)]
pub struct Datagram {
    pub sflow_version: u32,
    pub agent_addr: DatagramIPAddr,
    pub sub_agent_id: u32,
    pub seq_num: u32,
    pub uptime: u32,
    pub sample_record: Vec<SFlowSample>,
}

/// Where the samples of the datagram `s` start.
pub open spec fn first_sample(s: Seq<u8>) -> int {
    agent_addr_end(s, 4) + 16
}

/// The datagram `s` has a complete header and all of its samples decode.
pub open spec fn sflow_datagram_ok(s: Seq<u8>) -> bool {
    &&& 8 <= s.len()
    &&& first_sample(s) <= s.len()
    &&& forall|k: nat|
        k < u32_at(s, first_sample(s) - 4) ==> sample_ok(
            s,
            #[trigger] sample_offset(s, first_sample(s), k),
        )
}

/// `d` is the datagram `s`, which ends at `end`.
pub open spec fn sflow_datagram_at(s: Seq<u8>, d: Datagram, end: int) -> bool {
    let a = agent_addr_end(s, 4);
    let count = u32_at(s, a + 12);
    &&& d.sflow_version == u32_at(s, 0)
    &&& d.agent_addr == agent_addr_at(s, 4)
    &&& d.sub_agent_id == u32_at(s, a)
    &&& d.seq_num == u32_at(s, a + 4)
    &&& d.uptime == u32_at(s, a + 8)
    &&& d.sample_record@.len() == count
    &&& end == sample_offset(s, a + 16, count as nat)
    &&& forall|k: int|
        0 <= k < count ==> sample_at(
            s,
            sample_offset(s, a + 16, k as nat),
            #[trigger] d.sample_record@[k],
        )
}

/// Decodes the sFlow datagram `input`: version, agent address, sub-agent,
/// sequence number, uptime, sample count, then that many samples. Returns
/// the datagram and the offset just past its last sample.
pub fn parse_sflow_data(input: &[u8]) -> (r: Result<(Datagram, usize), ParseError>)
    ensures
        match r {
            Ok((d, end)) => sflow_datagram_ok(input@) && sflow_datagram_at(input@, d, end as int),
            Err(_) => !sflow_datagram_ok(input@),
        },
{
    if !fits(input, 0, 4) {
        return Err(ParseError::Truncated);
    }
    let sflow_version = read_u32(input, 0);
    let (agent_addr, a) = match DatagramIPAddr::from_datagram_bytes(input, 4) {
        Ok(p) => p,
        Err(e) => {
            return Err(e);
        },
    };
    if !fits(input, a, 16) {
        return Err(ParseError::Truncated);
    }
    let sub_agent_id = read_u32(input, a);
    let seq_num = read_u32(input, a + 4);
    let uptime = read_u32(input, a + 8);
    let count = read_u32(input, a + 12);
    let ghost s = input@;
    let mut sample_record: Vec<SFlowSample> = Vec::new();
    let mut cur = a + 16;
    let mut k: u32 = 0;
    while k < count
        invariant
            s == input@,
            a == agent_addr_end(s, 4),
            a + 16 <= s.len(),
            count == u32_at(s, a + 12),
            k <= count,
            cur == sample_offset(s, a + 16, k as nat),
            sample_record@.len() == k,
            forall|i: nat| i < k ==> sample_ok(s, #[trigger] sample_offset(s, a + 16, i)),
            forall|i: int|
                0 <= i < k ==> sample_at(
                    s,
                    sample_offset(s, a + 16, i as nat),
                    #[trigger] sample_record@[i],
                ),
        decreases count - k,
    {
        match SFlowSample::parse_from_datagram(input, cur) {
            Ok((x, next)) => {
                sample_record.push(x);
                cur = next;
            },
            Err(e) => {
                assert(!sample_ok(s, sample_offset(s, a + 16, k as nat)));
                return Err(e);
            },
        }
        k += 1;
    }
    Ok((Datagram { sflow_version, agent_addr, sub_agent_id, seq_num, uptime, sample_record }, cur))
}

} // verus!
