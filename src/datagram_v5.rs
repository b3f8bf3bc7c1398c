//! NetFlow v5 datagrams: a header and fixed 48-byte records.
use vstd::prelude::*;
use crate::bytes::{fits, read_u16, read_u32, read_u8, u16_at, u32_at, u8_at};
use crate::error::ParseError;

verus! {

/// A flow record of a NetFlow v5 datagram. Addresses are 32-bit numbers, first octet most significant.
#[derive(Debug, Clone, Copy)]
pub struct NetflowDatagramV5Record {
    pub src_ip: u32,
    pub dst_ip: u32,
    pub next_hop_ip: u32,
    pub snmp_in_if_idx: u16,
    pub snmp_out_if_idx: u16,
    pub flow_packets: u32,
    pub flow_octets: u32,
    pub start_sys_uptime: u32,
    pub end_sys_uptime: u32,
    pub src_port: u16,
    pub dst_port: u16,
    pub _pad0: u8,
    pub tcp_flags: u8,
    pub ip_protocol: u8,
    pub ip_tos: u8,
    pub src_asn: u16,
    pub dst_asn: u16,
    pub src_mask: u8,
    pub dst_mask: u8,
    pub _pad1: u16,
}

impl NetflowDatagramV5Record {
    /// This record is the one written in the 48 bytes at `pos`.
    pub open spec fn parsed_from(&self, s: Seq<u8>, pos: int) -> bool {
        &&& self.src_ip == u32_at(s, pos)
        &&& self.dst_ip == u32_at(s, pos + 4)
        &&& self.next_hop_ip == u32_at(s, pos + 8)
        &&& self.snmp_in_if_idx == u16_at(s, pos + 12)
        &&& self.snmp_out_if_idx == u16_at(s, pos + 14)
        &&& self.flow_packets == u32_at(s, pos + 16)
        &&& self.flow_octets == u32_at(s, pos + 20)
        &&& self.start_sys_uptime == u32_at(s, pos + 24)
        &&& self.end_sys_uptime == u32_at(s, pos + 28)
        &&& self.src_port == u16_at(s, pos + 32)
        &&& self.dst_port == u16_at(s, pos + 34)
        &&& self._pad0 == u8_at(s, pos + 36)
        &&& self.tcp_flags == u8_at(s, pos + 37)
        &&& self.ip_protocol == u8_at(s, pos + 38)
        &&& self.ip_tos == u8_at(s, pos + 39)
        &&& self.src_asn == u16_at(s, pos + 40)
        &&& self.dst_asn == u16_at(s, pos + 42)
        &&& self.src_mask == u8_at(s, pos + 44)
        &&& self.dst_mask == u8_at(s, pos + 45)
        &&& self._pad1 == u16_at(s, pos + 46)
    }

    /// Decodes the record at `pos`.
    pub fn parse_from_datagram(input: &[u8], pos: usize) -> (r: Result<(Self, usize), ParseError>)
        ensures
            match r {
                Ok((rec, end)) => pos + 48 <= input@.len() && end == pos + 48 && rec.parsed_from(
                    input@,
                    pos as int,
                ),
                Err(e) => pos + 48 > input@.len() && e == ParseError::Truncated,
            },
    {
        if !fits(input, pos, 48) {
            return Err(ParseError::Truncated);
        }
        let src_ip = read_u32(input, pos);
        let dst_ip = read_u32(input, pos + 4);
        let next_hop_ip = read_u32(input, pos + 8);
        let snmp_in_if_idx = read_u16(input, pos + 12);
        let snmp_out_if_idx = read_u16(input, pos + 14);
        let flow_packets = read_u32(input, pos + 16);
        let flow_octets = read_u32(input, pos + 20);
        let start_sys_uptime = read_u32(input, pos + 24);
        let end_sys_uptime = read_u32(input, pos + 28);
        let src_port = read_u16(input, pos + 32);
        let dst_port = read_u16(input, pos + 34);
        let _pad0 = read_u8(input, pos + 36);
        let tcp_flags = read_u8(input, pos + 37);
        let ip_protocol = read_u8(input, pos + 38);
        let ip_tos = read_u8(input, pos + 39);
        let src_asn = read_u16(input, pos + 40);
        let dst_asn = read_u16(input, pos + 42);
        let src_mask = read_u8(input, pos + 44);
        let dst_mask = read_u8(input, pos + 45);
        let _pad1 = read_u16(input, pos + 46);
        Ok((Self { src_ip, dst_ip, next_hop_ip, snmp_in_if_idx, snmp_out_if_idx, flow_packets, flow_octets, start_sys_uptime, end_sys_uptime, src_port, dst_port, _pad0, tcp_flags, ip_protocol, ip_tos, src_asn, dst_asn, src_mask, dst_mask, _pad1 }, pos + 48))
    }
}

fn parse_records(input: &[u8], pos: usize, count: usize) -> (r: Result<(Vec<NetflowDatagramV5Record>, usize), ParseError>)
    ensures
        match r {
            Ok((recs, end)) => pos + 48 * count <= input@.len() && end == pos + 48 * count
                && recs@.len() == count && forall|k: int|
                0 <= k < count ==> (#[trigger] recs@[k]).parsed_from(input@, pos + 48 * k),
            Err(e) => pos + 48 * count > input@.len() && e == ParseError::Truncated,
        },
{
    if !fits(input, pos, 0) {
        return Err(ParseError::Truncated);
    }
    let mut recs: Vec<NetflowDatagramV5Record> = Vec::new();
    let mut cur = pos;
    let mut k: usize = 0;
    while k < count
        invariant
            k <= count,
            cur == pos + 48 * k,
            cur <= input@.len(),
            recs@.len() == k,
            forall|i: int| 0 <= i < k ==> (#[trigger] recs@[i]).parsed_from(input@, pos + 48 * i),
        decreases count - k,
    {
        match NetflowDatagramV5Record::parse_from_datagram(input, cur) {
            Ok((rec, next)) => {
                recs.push(rec);
                cur = next;
            },
            Err(e) => {
                return Err(e);
            },
        }
        k += 1;
    }
    Ok((recs, cur))
}

/// A NetFlow v5 datagram.
#[derive(Debug, Clone)]
pub struct NetflowDatagramV5 {
    pub sys_uptime_ms: u32,
    pub unix_sec: u32,
    pub unix_nsec: u32,
    pub flow_seqnum: u32,
    pub engine_type: u8,
    pub engine_id: u8,
    pub sampling_interval: u16,
    pub flow_records: Vec<NetflowDatagramV5Record>,
}

/// What decoding a v5 datagram whose header (after the version) starts at `pos` gives.
pub open spec fn v5_datagram_result(input: Seq<u8>, pos: int, r: Result<(NetflowDatagramV5, usize), ParseError>) -> bool {
    &&& pos + 22 > input.len() ==> r == Err::<(NetflowDatagramV5, usize), ParseError>(ParseError::Truncated)
    &&& pos + 22 <= input.len() ==> {
        let s = input;
        let count = u16_at(s, pos) as int;
        match r {
            Ok((dg, end)) => {
                &&& end == pos + 22 + 48 * count
                &&& end <= s.len()
                &&& dg.sys_uptime_ms == u32_at(s, pos + 2)
                &&& dg.unix_sec == u32_at(s, pos + 6)
                &&& dg.unix_nsec == u32_at(s, pos + 10)
                &&& dg.flow_seqnum == u32_at(s, pos + 14)
                &&& dg.engine_type == u8_at(s, pos + 18)
                &&& dg.engine_id == u8_at(s, pos + 19)
                &&& dg.sampling_interval == u16_at(s, pos + 20)
                &&& dg.flow_records@.len() == count
                &&& forall|k: int|
                    0 <= k < count ==> (#[trigger] dg.flow_records@[k]).parsed_from(
                        s,
                        pos + 22 + 48 * k,
                    )
            },
            Err(e) => e == ParseError::Truncated && pos + 22 + 48 * count > s.len(),
        }
    }
}

impl NetflowDatagramV5 {
    /// Decodes a v5 datagram whose header (after the version) starts at
    /// `pos`: a record count and the header fields, then exactly that many
    /// records.
    pub fn parse_from_datagram(input: &[u8], pos: usize) -> (r: Result<(Self, usize), ParseError>)
        ensures
            v5_datagram_result(input@, pos as int, r),
    {
        if !fits(input, pos, 22) {
            return Err(ParseError::Truncated);
        }
        let count = read_u16(input, pos);
        let sys_uptime_ms = read_u32(input, pos + 2);
        let unix_sec = read_u32(input, pos + 6);
        let unix_nsec = read_u32(input, pos + 10);
        let flow_seqnum = read_u32(input, pos + 14);
        let engine_type = read_u8(input, pos + 18);
        let engine_id = read_u8(input, pos + 19);
        let sampling_interval = read_u16(input, pos + 20);
        match parse_records(input, pos + 22, count as usize) {
            Ok((flow_records, end)) => Ok((
                Self {
                    sys_uptime_ms,
                    unix_sec,
                    unix_nsec,
                    flow_seqnum,
                    engine_type,
                    engine_id,
                    sampling_interval,
                    flow_records,
                },
                end,
            )),
            Err(e) => Err(e),
        }
    }

    /// An iterator over the records, first to last.
    pub fn into_iter(&self) -> (r: NetflowDatagramV5Iter<'_>)
        ensures
            r.n == 0,
            r.res_set == &self.flow_records,
    {
        NetflowDatagramV5Iter { res_set: &self.flow_records, n: 0 }
    }
}

/// Walks the records of a v5 datagram.
pub struct NetflowDatagramV5Iter<'a> {
    pub res_set: &'a Vec<NetflowDatagramV5Record>,
    pub n: usize,
}

impl<'a> NetflowDatagramV5Iter<'a> {
    /// The next record, or `None` once all have been returned.
    pub fn next(&mut self) -> (r: Option<&'a NetflowDatagramV5Record>)
        ensures
            final(self).res_set == old(self).res_set,
            old(self).n < old(self).res_set@.len() ==> r == Some(&old(self).res_set@[old(self).n as int])
                && final(self).n == old(self).n + 1,
            old(self).n >= old(self).res_set@.len() ==> r is None && final(self).n == old(self).n,
    {
        if self.n < self.res_set.len() {
            let r = &self.res_set[self.n];
            self.n = self.n + 1;
            Some(r)
        } else {
            None
        }
    }
}

} // verus!
