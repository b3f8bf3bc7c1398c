//! IPFIX datagrams: a header, then a sequence of sets.
use vstd::prelude::*;
use crate::address::SourceAddr;
use crate::bytes::{fits, read_u16, read_u32, u16_at, u32_at};
use crate::datagram_ipfix_data::{
    ipfix_data_set_result, NetflowDatagramIPFIXDataFlowSet, NetflowDatagramIPFIXSourceTemplateType,
};
use crate::datagram_ipfix_template::{
    ipfix_descriptor_offset, ipfix_descriptor_size, ipfix_options_template_set_result,
    ipfix_template_set_result, NetflowDatagramIPFIXOptionsTemplateSet, NetflowDatagramIPFIXTemplateSet,
};
use crate::error::ParseError;
use crate::datagram_v9::MAX_FLOW_SETS;
use crate::netflow_parser::NetflowParser;

verus! {

/// The three kinds of sets of an IPFIX datagram.
#[derive(Debug, Clone)]
pub enum NetflowDatagramIPFIXFlowSet {
    /// Records decoded against a template from this or an earlier datagram
    Data(NetflowDatagramIPFIXDataFlowSet),
    /// A template for this and later datagrams from the same source
    Template(NetflowDatagramIPFIXTemplateSet),
    /// An options template for this and later datagrams from the same source
    TemplateOption(NetflowDatagramIPFIXOptionsTemplateSet),
}

/// Where the set at `start` ends: after the descriptors of a template set,
/// after the padding of an options template set, else `length` bytes after
/// `start`.
pub open spec fn ipfix_set_end(s: Seq<u8>, start: int) -> int {
    let id = u16_at(s, start);
    if id == 2 {
        ipfix_descriptor_offset(s, start + 8, u16_at(s, start + 6) as nat)
    } else if id == 3 {
        let len = u16_at(s, start + 2) as int;
        let sl = u16_at(s, start + 6) as int;
        let ol = u16_at(s, start + 8) as int;
        ipfix_descriptor_offset(s, start + 10 + 4 * (sl / 4), (ol / 4) as nat) + len - (10 + sl
            + ol)
    } else {
        start + u16_at(s, start + 2)
    }
}

/// Where the `k`-th set starts, the first at `first`.
pub open spec fn ipfix_set_offset(s: Seq<u8>, first: int, k: nat) -> int
    decreases k,
{
    if k == 0 {
        first
    } else {
        ipfix_set_end(s, ipfix_set_offset(s, first, (k - 1) as nat))
    }
}

/// What decoding the set at `start` from `addr` gives, with the decoder's
/// templates `before` and `after` the call.
pub open spec fn ipfix_flow_set_result(
    s: Seq<u8>,
    start: int,
    addr: SourceAddr,
    before: NetflowParser,
    after: NetflowParser,
    r: Result<(NetflowDatagramIPFIXFlowSet, usize), ParseError>,
) -> bool {
    if start + 2 > s.len() {
        r == Err::<(NetflowDatagramIPFIXFlowSet, usize), ParseError>(ParseError::Truncated)
            && after == before
    } else {
        let id = u16_at(s, start);
        if id == 2 {
            match r {
                Ok((NetflowDatagramIPFIXFlowSet::Template(set), end)) => {
                    &&& ipfix_template_set_result(s, start, Ok((set, end)))
                    &&& after.ipfix_templates() == before.ipfix_templates().insert(
                        (addr, set.template_id),
                        set@,
                    )
                    &&& after.ipfix_options_templates() == before.ipfix_options_templates()
                    &&& after.v9_templates() == before.v9_templates()
                    &&& after.v9_options_templates() == before.v9_options_templates()
                },
                Ok(_) => false,
                Err(e) => ipfix_template_set_result(s, start, Err(e)) && after == before,
            }
        } else if id == 3 {
            match r {
                Ok((NetflowDatagramIPFIXFlowSet::TemplateOption(set), end)) => {
                    &&& ipfix_options_template_set_result(s, start, Ok((set, end)))
                    &&& after.ipfix_options_templates() == before.ipfix_options_templates().insert(
                        (addr, set.template_id),
                        set@,
                    )
                    &&& after.ipfix_templates() == before.ipfix_templates()
                    &&& after.v9_templates() == before.v9_templates()
                    &&& after.v9_options_templates() == before.v9_options_templates()
                },
                Ok(_) => false,
                Err(e) => ipfix_options_template_set_result(s, start, Err(e)) && after == before,
            }
        } else if id < 256 {
            r == Err::<(NetflowDatagramIPFIXFlowSet, usize), ParseError>(
                ParseError::InvalidSetId(id),
            ) && after == before
        } else {
            &&& after == before
            &&& match r {
                Ok((NetflowDatagramIPFIXFlowSet::Data(set), end)) => ipfix_data_set_result(
                    s,
                    start,
                    addr,
                    before,
                    Ok((set, end)),
                ),
                Ok(_) => false,
                Err(e) => ipfix_data_set_result(s, start, addr, before, Err(e)),
            }
        }
    }
}

/// The key of the template an IPFIX data set was decoded against.
pub open spec fn ipfix_source_key(t: NetflowDatagramIPFIXSourceTemplateType) -> (SourceAddr, u16) {
    match t {
        NetflowDatagramIPFIXSourceTemplateType::Regular(k) => k,
        NetflowDatagramIPFIXSourceTemplateType::Option(k) => k,
    }
}

/// `fs` is the set written at `start` in a datagram from `addr`.
pub open spec fn ipfix_flow_set_at(
    s: Seq<u8>,
    start: int,
    addr: SourceAddr,
    fs: NetflowDatagramIPFIXFlowSet,
) -> bool {
    let id = u16_at(s, start);
    let end = ipfix_set_end(s, start) as usize;
    match fs {
        NetflowDatagramIPFIXFlowSet::Template(t) => id == 2 && ipfix_template_set_result(
            s,
            start,
            Ok((t, end)),
        ),
        NetflowDatagramIPFIXFlowSet::TemplateOption(t) => id == 3
            && ipfix_options_template_set_result(s, start, Ok((t, end))),
        NetflowDatagramIPFIXFlowSet::Data(d) => id >= 256 && d.length == u16_at(s, start + 2)
            && ipfix_source_key(d.source_template) == (addr, id),
    }
}

proof fn lemma_descriptor_offset_ge(s: Seq<u8>, p: int, j: nat)
    ensures
        ipfix_descriptor_offset(s, p, j) >= p,
    decreases j,
{
    if j > 0 {
        lemma_descriptor_offset_ge(s, p, (j - 1) as nat);
    }
}

impl NetflowDatagramIPFIXFlowSet {
    /// Decodes the set at `start`, by its identifier: 2 is a template set,
    /// 3 an options template set, 0, 1 and 4 to 255 are invalid, and the
    /// rest are data sets. The template of a template set is registered for
    /// `addr`.
    pub fn parse_from_datagram(
        input: &[u8],
        start: usize,
        addr: &SourceAddr,
        parser: &mut NetflowParser,
    ) -> (r: Result<(Self, usize), ParseError>)
        requires
            old(parser).wf(),
        ensures
            final(parser).wf(),
            ipfix_flow_set_result(input@, start as int, *addr, *old(parser), *final(parser), r),
    {
        if !fits(input, start, 2) {
            return Err(ParseError::Truncated);
        }
        let id = read_u16(input, start);
        if id == 2 {
            let (set, end) = match NetflowDatagramIPFIXTemplateSet::parse_from_datagram(input, start) {
                Ok(p) => p,
                Err(e) => {
                    return Err(e);
                },
            };
            parser.register_netflow_ipfix_template(&set, addr);
            Ok((Self::Template(set), end))
        } else if id == 3 {
            let (set, end) = match NetflowDatagramIPFIXOptionsTemplateSet::parse_from_datagram(
                input,
                start,
            ) {
                Ok(p) => p,
                Err(e) => {
                    return Err(e);
                },
            };
            parser.register_netflow_ipfix_options_template(&set, addr);
            Ok((Self::TemplateOption(set), end))
        } else if id < 256 {
            Err(ParseError::InvalidSetId(id))
        } else {
            match NetflowDatagramIPFIXDataFlowSet::parse_from_datagram(input, start, addr, parser) {
                Ok((set, end)) => Ok((Self::Data(set), end)),
                Err(e) => Err(e),
            }
        }
    }
}

/// An IPFIX datagram: its header and its sets.
#[derive(Debug, Clone)]
pub struct NetflowDatagramIPFIX {
    pub unix_sec: u32,
    pub package_sequence: u32,
    pub observation_domain_id: u32,
    pub flow_records: Vec<NetflowDatagramIPFIXFlowSet>,
}

/// What decoding an IPFIX datagram whose header (after the version) starts
/// at `pos` gives, when it succeeds.
pub open spec fn ipfix_datagram_decoded(
    s: Seq<u8>,
    pos: int,
    addr: SourceAddr,
    dg: NetflowDatagramIPFIX,
    end: int,
) -> bool {
    &&& pos + 14 <= s.len()
    &&& end == s.len()
    &&& dg.unix_sec == u32_at(s, pos + 2)
    &&& dg.package_sequence == u32_at(s, pos + 6)
    &&& dg.observation_domain_id == u32_at(s, pos + 10)
    &&& ipfix_set_offset(s, pos + 14, dg.flow_records@.len() as nat) == s.len()
    &&& forall|k: int|
        0 <= k < dg.flow_records@.len() ==> ipfix_flow_set_at(
            s,
            ipfix_set_offset(s, pos + 14, k as nat),
            addr,
            #[trigger] dg.flow_records@[k],
        )
}

/// The sets `sets` were decoded one after another from `first`, from
/// `addr`, the decoder's templates going through `states`: set `k` took the
/// templates from `states[k]` to `states[k + 1]`.
pub open spec fn ipfix_sets_trace(
    s: Seq<u8>,
    first: int,
    addr: SourceAddr,
    states: Seq<NetflowParser>,
    sets: Seq<NetflowDatagramIPFIXFlowSet>,
) -> bool {
    &&& states.len() == sets.len() + 1
    &&& forall|k: int|
        0 <= k < sets.len() ==> ipfix_flow_set_result(
            s,
            ipfix_set_offset(s, first, k as nat),
            addr,
            states[k],
            states[k + 1],
            Ok((#[trigger] sets[k], ipfix_set_offset(s, first, (k + 1) as nat) as usize)),
        )
}

/// What decoding an IPFIX datagram whose header (after the version) starts
/// at `pos` gives, with the decoder's templates `before` and `after` the
/// call: each set in turn, until the input ends or a set fails.
pub open spec fn ipfix_datagram_result(
    s: Seq<u8>,
    pos: int,
    addr: SourceAddr,
    before: NetflowParser,
    after: NetflowParser,
    r: Result<(NetflowDatagramIPFIX, usize), ParseError>,
) -> bool {
    if pos + 14 > s.len() {
        r == Err::<(NetflowDatagramIPFIX, usize), ParseError>(ParseError::Truncated) && after
            == before
    } else {
        match r {
            Ok((dg, end)) => {
                &&& ipfix_datagram_decoded(s, pos, addr, dg, end as int)
                &&& dg.flow_records@.len() <= MAX_FLOW_SETS
                &&& exists|states: Seq<NetflowParser>|
                    #[trigger] ipfix_sets_trace(s, pos + 14, addr, states, dg.flow_records@)
                        && states[0] == before && states.last() == after
            },
            Err(e) => exists|states: Seq<NetflowParser>, sets: Seq<NetflowDatagramIPFIXFlowSet>|
                #[trigger] ipfix_sets_trace(s, pos + 14, addr, states, sets) && states[0] == before
                    && ipfix_set_offset(s, pos + 14, sets.len()) < s.len() && if sets.len() < MAX_FLOW_SETS {
                    ipfix_flow_set_result(s, ipfix_set_offset(s, pos + 14, sets.len()), addr, states.last(), after, Err(e))
                } else {
                    sets.len() == MAX_FLOW_SETS && e == ParseError::TooManySets && after
                        == states.last()
                },
        }
    }
}

impl NetflowDatagramIPFIX {
    /// Decodes an IPFIX datagram whose header (after the version) starts at
    /// `pos`; its sets run to the end of `input`.
    pub fn parse_from_datagram(
        input: &[u8],
        pos: usize,
        addr: &SourceAddr,
        parser: &mut NetflowParser,
    ) -> (r: Result<(Self, usize), ParseError>)
        requires
            old(parser).wf(),
        ensures
            final(parser).wf(),
            ipfix_datagram_result(input@, pos as int, *addr, *old(parser), *final(parser), r),
    {
        if !fits(input, pos, 14) {
            return Err(ParseError::Truncated);
        }
        let unix_sec = read_u32(input, pos + 2);
        let package_sequence = read_u32(input, pos + 6);
        let observation_domain_id = read_u32(input, pos + 10);
        let mut flow_records: Vec<NetflowDatagramIPFIXFlowSet> = Vec::new();
        let mut cur = pos + 14;
        let len = input.len();
        let ghost s = input@;
        let ghost states: Seq<NetflowParser> = seq![*parser];
        while cur < len
            invariant
                s == input@,
                ipfix_sets_trace(s, pos + 14, *addr, states, flow_records@),
                flow_records@.len() <= MAX_FLOW_SETS,
                states[0] == *old(parser),
                states.last() == *parser,
                len == s.len(),
                pos + 14 <= cur <= len,
                parser.wf(),
                cur == ipfix_set_offset(s, pos + 14, flow_records@.len() as nat),
                forall|k: int|
                    0 <= k < flow_records@.len() ==> ipfix_flow_set_at(
                        s,
                        ipfix_set_offset(s, pos + 14, k as nat),
                        *addr,
                        #[trigger] flow_records@[k],
                    ),
            decreases len - cur,
        {
            if flow_records.len() >= MAX_FLOW_SETS {
                return Err(ParseError::TooManySets);
            }
            let (set, next) = match NetflowDatagramIPFIXFlowSet::parse_from_datagram(
                input,
                cur,
                addr,
                parser,
            ) {
                Ok(p) => p,
                Err(e) => {
                    assert(ipfix_sets_trace(s, pos + 14, *addr, states, flow_records@));
                    return Err(e);
                },
            };
            proof {
                let sets0 = flow_records@;
                let states0 = states;
                states = states.push(*parser);
                assert forall|k: int| 0 <= k < sets0.len() + 1 implies ipfix_flow_set_result(
                    s,
                    ipfix_set_offset(s, pos + 14, k as nat),
                    *addr,
                    states[k],
                    states[k + 1],
                    Ok((#[trigger] sets0.push(set)[k], ipfix_set_offset(s, pos + 14, (k + 1) as nat) as usize)),
                ) by {
                    if k < sets0.len() {
                        assert(sets0.push(set)[k] == sets0[k]);
                        assert(states[k] == states0[k]);
                        assert(states[k + 1] == states0[k + 1]);
                    } else {
                        assert(sets0.push(set)[k] == set);
                    }
                }
            }
            proof {
                let id = u16_at(s, cur as int);
                if id == 2 {
                    let count = u16_at(s, cur + 6) as nat;
                    lemma_descriptor_offset_ge(s, cur + 8, count);
                    if count > 0 {
                        let q = ipfix_descriptor_offset(s, cur + 8, (count - 1) as nat);
                        assert(q + ipfix_descriptor_size(s, q) <= s.len());
                    }
                } else if id == 3 {
                    let sl = u16_at(s, cur + 6) as int;
                    let ol = u16_at(s, cur + 8) as int;
                    lemma_descriptor_offset_ge(s, cur + 10 + 4 * (sl / 4), (ol / 4) as nat);
                }
            }
            flow_records.push(set);
            cur = next;
        }
        Ok((Self { unix_sec, package_sequence, observation_domain_id, flow_records }, cur))
    }
}

} // verus!
