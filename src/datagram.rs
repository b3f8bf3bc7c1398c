//! Dispatch on the NetFlow version, and reading of datagram headers alone.
use vstd::prelude::*;
use crate::address::SourceAddr;
use crate::bytes::{fits, read_u16, read_u32, read_u8, u16_at, u32_at, u8_at};
use crate::datagram_ipfix::{ipfix_datagram_result, NetflowDatagramIPFIX};
use crate::datagram_v1::{v1_datagram_result, NetflowDatagramV1};
use crate::datagram_v5::{v5_datagram_result, NetflowDatagramV5};
use crate::datagram_v9::{v9_datagram_result, NetflowDatagramV9};
use crate::error::ParseError;
use crate::netflow_parser::NetflowParser;

verus! {

/// A decoded datagram, by NetFlow version.
#[derive(Debug, Clone)]
pub enum NetflowDatagramData {
    DatagramV1(NetflowDatagramV1),
    DatagramV5(NetflowDatagramV5),
    DatagramV9(NetflowDatagramV9),
    DatagramIPFIX(NetflowDatagramIPFIX),
}

/// What decoding the datagram `s` from `addr` gives, with the decoder's
/// templates `before` and `after` the call.
pub open spec fn netflow_data_result(
    s: Seq<u8>,
    addr: SourceAddr,
    before: NetflowParser,
    after: NetflowParser,
    r: Result<(NetflowDatagramData, usize), ParseError>,
) -> bool {
    if s.len() < 2 {
        r == Err::<(NetflowDatagramData, usize), ParseError>(ParseError::Truncated) && after
            == before
    } else {
        let v = u16_at(s, 0);
        if v == 1 {
            &&& after == before
            &&& match r {
                Ok((NetflowDatagramData::DatagramV1(d), e)) => v1_datagram_result(s, 2, Ok((d, e))),
                Ok(_) => false,
                Err(e) => v1_datagram_result(s, 2, Err(e)),
            }
        } else if v == 5 {
            &&& after == before
            &&& match r {
                Ok((NetflowDatagramData::DatagramV5(d), e)) => v5_datagram_result(s, 2, Ok((d, e))),
                Ok(_) => false,
                Err(e) => v5_datagram_result(s, 2, Err(e)),
            }
        } else if v == 9 {
            match r {
                Ok((NetflowDatagramData::DatagramV9(d), e)) => v9_datagram_result(
                    s,
                    2,
                    addr,
                    before,
                    after,
                    Ok((d, e)),
                ),
                Ok(_) => false,
                Err(e) => v9_datagram_result(s, 2, addr, before, after, Err(e)),
            }
        } else if v == 10 {
            match r {
                Ok((NetflowDatagramData::DatagramIPFIX(d), e)) => ipfix_datagram_result(
                    s,
                    2,
                    addr,
                    before,
                    after,
                    Ok((d, e)),
                ),
                Ok(_) => false,
                Err(e) => ipfix_datagram_result(s, 2, addr, before, after, Err(e)),
            }
        } else {
            r == Err::<(NetflowDatagramData, usize), ParseError>(ParseError::UnsupportedVersion(v))
                && after == before
        }
    }
}

/// Decodes the NetFlow datagram `input` that came from `addr`, by the
/// version in its first two bytes: 1, 5, 9 or 10 (IPFIX). Templates of v9
/// and IPFIX datagrams are registered in `parser` for `addr`, and data sets
/// are decoded against the templates registered there for `addr`.
pub fn parse_netflow_data(input: &[u8], addr: &SourceAddr, parser: &mut NetflowParser) -> (r: Result<
    (NetflowDatagramData, usize),
    ParseError,
>)
    requires
        old(parser).wf(),
    ensures
        final(parser).wf(),
        netflow_data_result(input@, *addr, *old(parser), *final(parser), r),
{
    if !fits(input, 0, 2) {
        return Err(ParseError::Truncated);
    }
    let version = read_u16(input, 0);
    if version == 1 {
        match NetflowDatagramV1::parse_from_datagram(input, 2) {
            Ok((d, e)) => Ok((NetflowDatagramData::DatagramV1(d), e)),
            Err(e) => Err(e),
        }
    } else if version == 5 {
        match NetflowDatagramV5::parse_from_datagram(input, 2) {
            Ok((d, e)) => Ok((NetflowDatagramData::DatagramV5(d), e)),
            Err(e) => Err(e),
        }
    } else if version == 9 {
        match NetflowDatagramV9::parse_from_datagram(input, 2, addr, parser) {
            Ok((d, e)) => Ok((NetflowDatagramData::DatagramV9(d), e)),
            Err(e) => Err(e),
        }
    } else if version == 10 {
        match NetflowDatagramIPFIX::parse_from_datagram(input, 2, addr, parser) {
            Ok((d, e)) => Ok((NetflowDatagramData::DatagramIPFIX(d), e)),
            Err(e) => Err(e),
        }
    } else {
        Err(ParseError::UnsupportedVersion(version))
    }
}

/// The header of a NetFlow v1 datagram.
#[derive(Debug, Clone, Copy, PartialEq, Eq, Structural)]
pub struct NetflowV1PeekData {
    pub flow_count: u16,
    pub sys_uptime: u32,
    pub unix_secs: u32,
    pub unix_nsecs: u32,
}

/// The header of a NetFlow v5 datagram.
#[derive(Debug, Clone, Copy, PartialEq, Eq, Structural)]
pub struct NetflowV5PeekData {
    pub flow_count: u16,
    pub sys_uptime: u32,
    pub unix_secs: u32,
    pub unix_nsecs: u32,
    pub total_flows: u32,
    pub engine_type: u8,
    pub engine_id: u8,
    pub sampling_interval: u16,
}

/// The header of a NetFlow v9 datagram.
#[derive(Debug, Clone, Copy, PartialEq, Eq, Structural)]
pub struct NetflowV9PeekData {
    pub flow_set_count: u16,
    pub sys_uptime: u32,
    pub unix_secs: u32,
    pub package_sequence_num: u32,
    pub source_id: u32,
}

/// A datagram header, by NetFlow version. IPFIX headers are recognised but
/// not read.
#[derive(Debug, Clone, Copy, PartialEq, Eq, Structural)]
pub enum NetflowPeekResult {
    V1(NetflowV1PeekData),
    V5(NetflowV5PeekData),
    V9(NetflowV9PeekData),
    V10,
}

/// What reading the header of the datagram `s` gives.
pub open spec fn peek_result(s: Seq<u8>) -> Result<NetflowPeekResult, ParseError> {
    if s.len() < 2 {
        Err(ParseError::Truncated)
    } else {
        let v = u16_at(s, 0);
        if v == 1 {
            if s.len() < 16 {
                Err(ParseError::Truncated)
            } else {
                Ok(
                    NetflowPeekResult::V1(
                        NetflowV1PeekData {
                            flow_count: u16_at(s, 2),
                            sys_uptime: u32_at(s, 4),
                            unix_secs: u32_at(s, 8),
                            unix_nsecs: u32_at(s, 12),
                        },
                    ),
                )
            }
        } else if v == 5 {
            if s.len() < 24 {
                Err(ParseError::Truncated)
            } else {
                Ok(
                    NetflowPeekResult::V5(
                        NetflowV5PeekData {
                            flow_count: u16_at(s, 2),
                            sys_uptime: u32_at(s, 4),
                            unix_secs: u32_at(s, 8),
                            unix_nsecs: u32_at(s, 12),
                            total_flows: u32_at(s, 16),
                            engine_type: u8_at(s, 20),
                            engine_id: u8_at(s, 21),
                            sampling_interval: u16_at(s, 22),
                        },
                    ),
                )
            }
        } else if v == 9 {
            if s.len() < 20 {
                Err(ParseError::Truncated)
            } else {
                Ok(
                    NetflowPeekResult::V9(
                        NetflowV9PeekData {
                            flow_set_count: u16_at(s, 2),
                            sys_uptime: u32_at(s, 4),
                            unix_secs: u32_at(s, 8),
                            package_sequence_num: u32_at(s, 12),
                            source_id: u32_at(s, 16),
                        },
                    ),
                )
            }
        } else if v == 10 {
            Ok(NetflowPeekResult::V10)
        } else {
            Err(ParseError::UnsupportedVersion(v))
        }
    }
}

/// Reads the header of a NetFlow datagram without its records, for
/// instance to order datagrams by sequence number before decoding them.
pub fn peek_netflow_basic_info(input: &[u8]) -> (r: Result<NetflowPeekResult, ParseError>)
    ensures
        r == peek_result(input@),
{
    if !fits(input, 0, 2) {
        return Err(ParseError::Truncated);
    }
    let version = read_u16(input, 0);
    if version == 1 {
        if !fits(input, 0, 16) {
            return Err(ParseError::Truncated);
        }
        Ok(
            NetflowPeekResult::V1(
                NetflowV1PeekData {
                    flow_count: read_u16(input, 2),
                    sys_uptime: read_u32(input, 4),
                    unix_secs: read_u32(input, 8),
                    unix_nsecs: read_u32(input, 12),
                },
            ),
        )
    } else if version == 5 {
        if !fits(input, 0, 24) {
            return Err(ParseError::Truncated);
        }
        Ok(
            NetflowPeekResult::V5(
                NetflowV5PeekData {
                    flow_count: read_u16(input, 2),
                    sys_uptime: read_u32(input, 4),
                    unix_secs: read_u32(input, 8),
                    unix_nsecs: read_u32(input, 12),
                    total_flows: read_u32(input, 16),
                    engine_type: read_u8(input, 20),
                    engine_id: read_u8(input, 21),
                    sampling_interval: read_u16(input, 22),
                },
            ),
        )
    } else if version == 9 {
        if !fits(input, 0, 20) {
            return Err(ParseError::Truncated);
        }
        Ok(
            NetflowPeekResult::V9(
                NetflowV9PeekData {
                    flow_set_count: read_u16(input, 2),
                    sys_uptime: read_u32(input, 4),
                    unix_secs: read_u32(input, 8),
                    package_sequence_num: read_u32(input, 12),
                    source_id: read_u32(input, 16),
                },
            ),
        )
    } else if version == 10 {
        Ok(NetflowPeekResult::V10)
    } else {
        Err(ParseError::UnsupportedVersion(version))
    }
}

impl NetflowParser {
    /// Decodes the NetFlow datagram `input` that came from `addr`; see
    /// `parse_netflow_data`.
    pub fn parse(&mut self, input: &[u8], addr: &SourceAddr) -> (r: Result<
        (NetflowDatagramData, usize),
        ParseError,
    >)
        requires
            old(self).wf(),
        ensures
            final(self).wf(),
            netflow_data_result(input@, *addr, *old(self), *final(self), r),
    {
        parse_netflow_data(input, addr, self)
    }

    /// Reads the header of a NetFlow datagram; see `peek_netflow_basic_info`.
    pub fn peek_netflow_basic_info(input: &[u8]) -> (r: Result<NetflowPeekResult, ParseError>)
        ensures
            r == peek_result(input@),
    {
        peek_netflow_basic_info(input)
    }
}

} // verus!
