//! NetFlow v9 datagrams: a header, then a sequence of sets.
use vstd::prelude::*;
use crate::address::SourceAddr;
use crate::bytes::{fits, read_u16, read_u32, u16_at, u32_at};
use crate::datagram_v9_data::{
    v9_data_set_result, NetflowDatagramDataFlowSet, NetflowDatagramSourceTemplateType,
};
use crate::datagram_v9_template::{
    v9_options_template_set_result, v9_template_set_result, NetflowDatagramOptionsTemplateSet,
    NetflowDatagramTemplateSet,
};
use crate::error::ParseError;
use crate::netflow_parser::{v9_register_all, v9_register_all_options, NetflowParser};

verus! {

/// The most sets that a NetFlow v9 or IPFIX datagram may hold; a datagram
/// with more is refused, as a guard against malformed input.
pub const MAX_FLOW_SETS: usize = 30;

/// The three kinds of sets of a NetFlow v9 datagram.
#[derive(Debug, Clone)]
pub enum NetflowDatagramV9FlowSet {
    /// Records decoded against a template from this or an earlier datagram
    Data(NetflowDatagramDataFlowSet),
    /// Templates for this and later datagrams from the same source
    Template(NetflowDatagramTemplateSet),
    /// Options templates for this and later datagrams from the same source
    TemplateOption(NetflowDatagramOptionsTemplateSet),
}

/// What decoding the set at `start` from `addr` gives, with the decoder's
/// templates `before` and `after` the call.
pub open spec fn v9_flow_set_result(
    s: Seq<u8>,
    start: int,
    addr: SourceAddr,
    before: NetflowParser,
    after: NetflowParser,
    r: Result<(NetflowDatagramV9FlowSet, usize), ParseError>,
) -> bool {
    if start + 2 > s.len() {
        r == Err::<(NetflowDatagramV9FlowSet, usize), ParseError>(ParseError::Truncated)
            && after == before
    } else {
        let id = u16_at(s, start);
        if id == 0 {
            match r {
                Ok((NetflowDatagramV9FlowSet::Template(set), end)) => {
                    &&& v9_template_set_result(s, start, Ok((set, end)))
                    &&& after.v9_templates() == v9_register_all(
                        before.v9_templates(),
                        addr,
                        set,
                        set.template_ids@.len() as nat,
                    )
                    &&& after.v9_options_templates() == before.v9_options_templates()
                },
                Ok(_) => false,
                Err(e) => v9_template_set_result(s, start, Err(e)) && after == before,
            }
        } else if id == 1 {
            match r {
                Ok((NetflowDatagramV9FlowSet::TemplateOption(set), end)) => {
                    &&& v9_options_template_set_result(s, start, Ok((set, end)))
                    &&& after.v9_options_templates() == v9_register_all_options(
                        before.v9_options_templates(),
                        addr,
                        set,
                        set.template_ids@.len() as nat,
                    )
                    &&& after.v9_templates() == before.v9_templates()
                },
                Ok(_) => false,
                Err(e) => v9_options_template_set_result(s, start, Err(e)) && after == before,
            }
        } else if id < 256 {
            r == Err::<(NetflowDatagramV9FlowSet, usize), ParseError>(ParseError::InvalidSetId(id))
                && after == before
        } else {
            &&& after == before
            &&& match r {
                Ok((NetflowDatagramV9FlowSet::Data(set), end)) => v9_data_set_result(
                    s,
                    start,
                    addr,
                    before,
                    Ok((set, end)),
                ),
                Ok(_) => false,
                Err(e) => v9_data_set_result(s, start, addr, before, Err(e)),
            }
        }
    }
}

/// The key of the template a data set was decoded against.
pub open spec fn source_key(t: NetflowDatagramSourceTemplateType) -> (SourceAddr, u16) {
    match t {
        NetflowDatagramSourceTemplateType::Regular(k) => k,
        NetflowDatagramSourceTemplateType::Option(k) => k,
    }
}

/// `fs` is the set written at `start` in a datagram from `addr`: its kind
/// agrees with the set identifier, and it spans the set's length.
pub open spec fn v9_flow_set_at(s: Seq<u8>, start: int, addr: SourceAddr, fs: NetflowDatagramV9FlowSet) -> bool {
    let id = u16_at(s, start);
    let end = start + u16_at(s, start + 2);
    match fs {
        NetflowDatagramV9FlowSet::Template(t) => id == 0 && t.parsed_from(s, start, end),
        NetflowDatagramV9FlowSet::TemplateOption(t) => id == 1 && t.parsed_from(s, start),
        NetflowDatagramV9FlowSet::Data(d) => id >= 256 && d.length == u16_at(s, start + 2)
            && source_key(d.source_template) == (addr, id),
    }
}

/// Where the `k`-th set starts, the first at `first`: each set's length
/// counts from its own start.
pub open spec fn set_offset(s: Seq<u8>, first: int, k: nat) -> int
    decreases k,
{
    if k == 0 {
        first
    } else {
        let q = set_offset(s, first, (k - 1) as nat);
        q + u16_at(s, q + 2)
    }
}

impl NetflowDatagramV9FlowSet {
    /// Decodes the set at `start`, by its identifier: 0 is a template set,
    /// 1 an options template set, 2 to 255 are invalid, and the rest are
    /// data sets. The templates of a template set are registered for `addr`.
    pub fn parse_from_datagram(
        input: &[u8],
        start: usize,
        addr: &SourceAddr,
        parser: &mut NetflowParser,
    ) -> (r: Result<(Self, usize), ParseError>)
        requires
            old(parser).wf(),
        ensures
            final(parser).wf(),
            v9_flow_set_result(input@, start as int, *addr, *old(parser), *final(parser), r),
    {
        if !fits(input, start, 2) {
            return Err(ParseError::Truncated);
        }
        let id = read_u16(input, start);
        if id == 0 {
            let (set, end) = match NetflowDatagramTemplateSet::parse_from_datagram(input, start) {
                Ok(p) => p,
                Err(e) => {
                    return Err(e);
                },
            };
            parser.register_netflow_template(&set, addr);
            Ok((Self::Template(set), end))
        } else if id == 1 {
            let (set, end) = match NetflowDatagramOptionsTemplateSet::parse_from_datagram(
                input,
                start,
            ) {
                Ok(p) => p,
                Err(e) => {
                    return Err(e);
                },
            };
            parser.register_netflow_options_template(&set, addr);
            Ok((Self::TemplateOption(set), end))
        } else if id < 256 {
            Err(ParseError::InvalidSetId(id))
        } else {
            match NetflowDatagramDataFlowSet::parse_from_datagram(input, start, addr, parser) {
                Ok((set, end)) => Ok((Self::Data(set), end)),
                Err(e) => Err(e),
            }
        }
    }
}

/// A NetFlow v9 datagram: its header and its sets.
#[derive(Debug, Clone)]
pub struct NetflowDatagramV9 {
    pub sys_uptime_ms: u32,
    pub unix_sec: u32,
    pub package_sequence: u32,
    pub source_id: u32,
    pub flow_records: Vec<NetflowDatagramV9FlowSet>,
}

/// What decoding a v9 datagram whose header (after the version) starts at
/// `pos` gives, when it succeeds.
pub open spec fn v9_datagram_decoded(
    s: Seq<u8>,
    pos: int,
    addr: SourceAddr,
    dg: NetflowDatagramV9,
    end: int,
) -> bool {
    &&& pos + 18 <= s.len()
    &&& end == s.len()
    &&& dg.sys_uptime_ms == u32_at(s, pos + 2)
    &&& dg.unix_sec == u32_at(s, pos + 6)
    &&& dg.package_sequence == u32_at(s, pos + 10)
    &&& dg.source_id == u32_at(s, pos + 14)
    &&& set_offset(s, pos + 18, dg.flow_records@.len() as nat) == s.len()
    &&& forall|k: int|
        0 <= k < dg.flow_records@.len() ==> v9_flow_set_at(
            s,
            set_offset(s, pos + 18, k as nat),
            addr,
            #[trigger] dg.flow_records@[k],
        )
}

/// The sets `sets` were decoded one after another from `first`, from
/// `addr`, the decoder's templates going through `states`: set `k` took the
/// templates from `states[k]` to `states[k + 1]`.
pub open spec fn v9_sets_trace(
    s: Seq<u8>,
    first: int,
    addr: SourceAddr,
    states: Seq<NetflowParser>,
    sets: Seq<NetflowDatagramV9FlowSet>,
) -> bool {
    &&& states.len() == sets.len() + 1
    &&& forall|k: int|
        0 <= k < sets.len() ==> v9_flow_set_result(
            s,
            set_offset(s, first, k as nat),
            addr,
            states[k],
            states[k + 1],
            Ok((#[trigger] sets[k], set_offset(s, first, (k + 1) as nat) as usize)),
        )
}

/// What decoding a v9 datagram whose header (after the version) starts at
/// `pos` gives, with the decoder's templates `before` and `after` the call:
/// each set in turn, until the input ends or a set fails.
pub open spec fn v9_datagram_result(
    s: Seq<u8>,
    pos: int,
    addr: SourceAddr,
    before: NetflowParser,
    after: NetflowParser,
    r: Result<(NetflowDatagramV9, usize), ParseError>,
) -> bool {
    if pos + 18 > s.len() {
        r == Err::<(NetflowDatagramV9, usize), ParseError>(ParseError::Truncated) && after == before
    } else {
        match r {
            Ok((dg, end)) => {
                &&& v9_datagram_decoded(s, pos, addr, dg, end as int)
                &&& dg.flow_records@.len() <= MAX_FLOW_SETS
                &&& exists|states: Seq<NetflowParser>|
                    #[trigger] v9_sets_trace(s, pos + 18, addr, states, dg.flow_records@)
                        && states[0] == before && states.last() == after
            },
            Err(e) => exists|states: Seq<NetflowParser>, sets: Seq<NetflowDatagramV9FlowSet>|
                #[trigger] v9_sets_trace(s, pos + 18, addr, states, sets) && states[0] == before
                    && set_offset(s, pos + 18, sets.len()) < s.len() && if sets.len() < MAX_FLOW_SETS {
                    v9_flow_set_result(s, set_offset(s, pos + 18, sets.len()), addr, states.last(), after, Err(e))
                } else {
                    sets.len() == MAX_FLOW_SETS && e == ParseError::TooManySets && after
                        == states.last()
                },
        }
    }
}

impl NetflowDatagramV9 {
    /// Decodes a v9 datagram whose header (after the version) starts at
    /// `pos`; its sets run to the end of `input`.
    pub fn parse_from_datagram(
        input: &[u8],
        pos: usize,
        addr: &SourceAddr,
        parser: &mut NetflowParser,
    ) -> (r: Result<(Self, usize), ParseError>)
        requires
            old(parser).wf(),
        ensures
            final(parser).wf(),
            v9_datagram_result(input@, pos as int, *addr, *old(parser), *final(parser), r),
    {
        if !fits(input, pos, 18) {
            return Err(ParseError::Truncated);
        }
        let sys_uptime_ms = read_u32(input, pos + 2);
        let unix_sec = read_u32(input, pos + 6);
        let package_sequence = read_u32(input, pos + 10);
        let source_id = read_u32(input, pos + 14);
        let mut flow_records: Vec<NetflowDatagramV9FlowSet> = Vec::new();
        let mut cur = pos + 18;
        let len = input.len();
        let ghost s = input@;
        let ghost states: Seq<NetflowParser> = seq![*parser];
        while cur < len
            invariant
                s == input@,
                v9_sets_trace(s, pos + 18, *addr, states, flow_records@),
                flow_records@.len() <= MAX_FLOW_SETS,
                states[0] == *old(parser),
                states.last() == *parser,
                len == s.len(),
                pos + 18 <= cur <= len,
                parser.wf(),
                cur == set_offset(s, pos + 18, flow_records@.len() as nat),
                forall|k: int|
                    0 <= k < flow_records@.len() ==> v9_flow_set_at(
                        s,
                        set_offset(s, pos + 18, k as nat),
                        *addr,
                        #[trigger] flow_records@[k],
                    ),
            decreases len - cur,
        {
            if flow_records.len() >= MAX_FLOW_SETS {
                return Err(ParseError::TooManySets);
            }
            let (set, next) = match NetflowDatagramV9FlowSet::parse_from_datagram(
                input,
                cur,
                addr,
                parser,
            ) {
                Ok(p) => p,
                Err(e) => {
                    assert(v9_sets_trace(s, pos + 18, *addr, states, flow_records@));
                    return Err(e);
                },
            };
            proof {
                let sets0 = flow_records@;
                let states0 = states;
                states = states.push(*parser);
                assert forall|k: int| 0 <= k < sets0.len() + 1 implies v9_flow_set_result(
                    s,
                    set_offset(s, pos + 18, k as nat),
                    *addr,
                    states[k],
                    states[k + 1],
                    Ok((#[trigger] sets0.push(set)[k], set_offset(s, pos + 18, (k + 1) as nat) as usize)),
                ) by {
                    if k < sets0.len() {
                        assert(sets0.push(set)[k] == sets0[k]);
                        assert(states[k] == states0[k]);
                        assert(states[k + 1] == states0[k + 1]);
                    } else {
                        assert(sets0.push(set)[k] == set);
                    }
                }
            }
            flow_records.push(set);
            cur = next;
        }
        Ok((Self { sys_uptime_ms, unix_sec, package_sequence, source_id, flow_records }, cur))
    }
}

} // verus!
