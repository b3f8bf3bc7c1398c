//! The table of known NetFlow v9 field types.
use vstd::prelude::*;

verus! {

/// How a data field should be decoded.
#[derive(Debug, Clone, Copy, PartialEq, Eq, Structural)]
pub enum NetflowV9TypeHandlingMode {
    /// A 1, 2, 3, 4 or 8-byte unsigned number
    Number,
    /// IPv4 address
    IPv4,
    /// IPv6 address
    IPv6,
    /// 6-byte MAC address
    MAC,
    /// String
    String,
}

/// Which scope an options template field describes.
#[derive(Debug, Clone, Copy, PartialEq, Eq, Structural)]
pub enum NetflowV9ScopeType {
    System,
    Interface,
    LineCard,
    NetFlowCache,
    Template,
}

/// The scope type that a numeric scope field type stands for.
pub open spec fn v9_scope_type(v: u16) -> Option<NetflowV9ScopeType> {
    if v == 1 {
        Some(NetflowV9ScopeType::System)
    } else if v == 2 {
        Some(NetflowV9ScopeType::Interface)
    } else if v == 3 {
        Some(NetflowV9ScopeType::LineCard)
    } else if v == 4 {
        Some(NetflowV9ScopeType::NetFlowCache)
    } else if v == 5 {
        Some(NetflowV9ScopeType::Template)
    } else {
        None
    }
}

impl NetflowV9ScopeType {
    /// Resolves a numeric scope field type; unknown values give `Err(())`.
    pub fn try_from(v: u16) -> (r: Result<Self, ()>)
        ensures
            match v9_scope_type(v) {
                Some(t) => r == Ok::<Self, ()>(t),
                None => r == Err::<Self, ()>(()),
            },
    {
        match v {
            1 => Ok(Self::System),
            2 => Ok(Self::Interface),
            3 => Ok(Self::LineCard),
            4 => Ok(Self::NetFlowCache),
            5 => Ok(Self::Template),
            _ => Err(()),
        }
    }
}

/// How values of a field type are decoded; `None` for a type outside the table.
pub open spec fn v9_type_mode(id: u16) -> Option<NetflowV9TypeHandlingMode> {
    if id == 8 || id == 12 || id == 15 || id == 18 {
        Some(NetflowV9TypeHandlingMode::IPv4)
    } else if (27 <= id <= 28) || (62 <= id <= 63) {
        Some(NetflowV9TypeHandlingMode::IPv6)
    } else if (56 <= id <= 57) || (80 <= id <= 81) {
        Some(NetflowV9TypeHandlingMode::MAC)
    } else if (82 <= id <= 84) || id == 94 || id == 96 {
        Some(NetflowV9TypeHandlingMode::String)
    } else if (1 <= id <= 7) || (9 <= id <= 11) || (13 <= id <= 14) || (16 <= id <= 17) ||
        (19 <= id <= 26) || (29 <= id <= 42) || (44 <= id <= 50) || (52 <= id <= 55) ||
        (58 <= id <= 61) || id == 64 || (70 <= id <= 79) || (85 <= id <= 86) ||
        (88 <= id <= 93) || id == 95 || (98 <= id <= 99) || (102 <= id <= 104) {
        Some(NetflowV9TypeHandlingMode::Number)
    } else {
        None
    }
}

/// How values of a field type are decoded; `None` for a type outside the table.
pub fn v9_type_mode_of(id: u16) -> (r: Option<NetflowV9TypeHandlingMode>)
    ensures
        r == v9_type_mode(id),
{
    if id == 8 || id == 12 || id == 15 || id == 18 {
        Some(NetflowV9TypeHandlingMode::IPv4)
    } else if (27 <= id && id <= 28) || (62 <= id && id <= 63) {
        Some(NetflowV9TypeHandlingMode::IPv6)
    } else if (56 <= id && id <= 57) || (80 <= id && id <= 81) {
        Some(NetflowV9TypeHandlingMode::MAC)
    } else if (82 <= id && id <= 84) || id == 94 || id == 96 {
        Some(NetflowV9TypeHandlingMode::String)
    } else if (1 <= id && id <= 7) || (9 <= id && id <= 11) || (13 <= id && id <= 14) ||
        (16 <= id && id <= 17) || (19 <= id && id <= 26) || (29 <= id && id <= 42) ||
        (44 <= id && id <= 50) || (52 <= id && id <= 55) || (58 <= id && id <= 61) ||
        id == 64 || (70 <= id && id <= 79) || (85 <= id && id <= 86) ||
        (88 <= id && id <= 93) || id == 95 || (98 <= id && id <= 99) ||
        (102 <= id && id <= 104) {
        Some(NetflowV9TypeHandlingMode::Number)
    } else {
        None
    }
}

/// Description of a known field type: its name, a human description, how
/// its values are decoded, and its numeric identifier.
#[derive(Debug, Clone, Copy)]
pub struct NetflowTypeInfo {
    pub name: &'static str,
    pub description: &'static str,
    pub mode: NetflowV9TypeHandlingMode,
    pub type_id: u16,
}

/// Looks a field type up in the table of known types.
pub fn netflow_v9_type_info(id: u16) -> (r: Option<NetflowTypeInfo>)
    ensures
        match r {
            Some(i) => v9_type_mode(id) == Some(i.mode) && i.type_id == id,
            None => v9_type_mode(id) is None,
        },
{
    match v9_type_mode_of(id) {
        Some(mode) => Some(NetflowTypeInfo { name: v9_type_name(id), description: v9_type_description(id), mode, type_id: id }),
        None => None,
    }
}

/// The canonical name of a field type.
pub fn v9_type_name(id: u16) -> (r: &'static str)
    ensures
        v9_type_mode(id) is None ==> r@ == "UNKNOWN"@,
{
    match id {
        1 => "IN_BYTES",
        2 => "IN_PKTS",
        3 => "FLOWS",
        4 => "PROTOCOL",
        5 => "SRC_TOS",
        6 => "TCP_FLAGS",
        7 => "L4_SRC_PORT",
        8 => "IPV4_SRC_ADDR",
        9 => "SRC_MASK",
        10 => "INPUT_SNMP",
        11 => "L4_DST_PORT",
        12 => "IPV4_DST_ADDR",
        13 => "DST_MASK",
        14 => "OUTPUT_SNMP",
        15 => "IPV4_NEXT_HOP",
        16 => "SRC_AS",
        17 => "DST_AS",
        18 => "BGP_IPV4_NEXT_HOP",
        19 => "MUL_DST_PKTS",
        20 => "MUL_DST_BYTES",
        21 => "LAST_SWITCHED",
        22 => "FIRST_SWITCHED",
        23 => "OUT_BYTES",
        24 => "OUT_PKTS",
        25 => "MIN_PKT_LNGTH",
        26 => "MAX_PKT_LNGTH",
        27 => "IPV6_SRC_ADDR",
        28 => "IPV6_DST_ADDR",
        29 => "IPV6_SRC_MASK",
        30 => "IPV6_DST_MASK",
        31 => "IPV6_FLOW_LABEL",
        32 => "ICMP_TYPE",
        33 => "MUL_IGMP_TYPE",
        34 => "SAMPLING_INTERVAL",
        35 => "SAMPLING_ALGORITHM",
        36 => "FLOW_ACTIVE_TIMEOUT",
        37 => "FLOW_INACTIVE_TIMEOUT",
        38 => "ENGINE_TYPE",
        39 => "ENGINE_ID",
        40 => "TOTAL_BYTES_EXP",
        41 => "TOTAL_PKTS_EXP",
        42 => "TOTAL_FLOWS_EXP",
        44 => "IPV4_SRC_PREFIX",
        45 => "IPV4_DST_PREFIX",
        46 => "MPLS_TOP_LABEL_TYPE",
        47 => "MPLS_TOP_LABEL_IP_ADDR",
        48 => "FLOW_SAMPLER_ID",
        49 => "FLOW_SAMPLER_MODE",
        50 => "FLOW_SAMPLER_RANDOM_INTERVAL",
        52 => "MIN_TTL",
        53 => "MAX_TTL",
        54 => "IPV4_IDENT",
        55 => "DST_TOS",
        56 => "IN_SRC_MAC",
        57 => "OUT_DST_MAC",
        58 => "SRC_VLAN",
        59 => "DST_VLAN",
        60 => "IP_PROTOCOL_VERSION",
        61 => "DIRECTION",
        62 => "IPV6_NEXT_HOP",
        63 => "BPG_IPV6_NEXT_HOP",
        64 => "IPV6_OPTION_HEADERS",
        70 => "MPLS_LABEL_1",
        71 => "MPLS_LABEL_2",
        72 => "MPLS_LABEL_3",
        73 => "MPLS_LABEL_4",
        74 => "MPLS_LABEL_5",
        75 => "MPLS_LABEL_6",
        76 => "MPLS_LABEL_7",
        77 => "MPLS_LABEL_8",
        78 => "MPLS_LABEL_9",
        79 => "MPLS_LABEL_10",
        80 => "IN_DST_MAC",
        81 => "OUT_SRC_MAC",
        82 => "IF_NAME",
        83 => "IF_DESC",
        84 => "SAMPLER_NAME",
        85 => "IN_PERMANENT_BYTES",
        86 => "IN_PERMANENT_PKTS",
        88 => "FRAGMENT_OFFSET",
        89 => "FORWARDING STATUS",
        90 => "MPLS PAL RD",
        91 => "MPLS PREFIX LEN",
        92 => "SRC TRAFFIC INDEX",
        93 => "DST TRAFFIC INDEX",
        94 => "APPLICATION DESCRIPTION",
        95 => "APPLICATION TAG",
        96 => "APPLICATION NAME",
        98 => "postipDiffServCodePoint",
        99 => "replication factor",
        102 => "layer2packetSectionOffset",
        103 => "layer2packetSectionSize",
        104 => "layer2packetSectionData",
        _ => "UNKNOWN",
    }
}

/// A human description of a field type.
pub fn v9_type_description(id: u16) -> (r: &'static str)
    ensures
        v9_type_mode(id) is None ==> r@ == "UNKNOWN"@,
{
    match id {
        1 => "Incoming counter with length N x 8 bits for number of bytes associated with an IP Flow.",
        2 => "Incoming counter with length N x 8 bits for the number of packets associated with an IP Flow",
        3 => "Number of flows that were aggregated; default for N is 4",
        4 => "IP protocol byte",
        5 => "Type of Service byte setting when entering incoming interface",
        6 => "Cumulative of all the TCP flags seen for this flow",
        7 => "TCP/UDP source port number i.e.: FTP, Telnet, or equivalent",
        8 => "IPv4 source address",
        9 => "The number of contiguous bits in the source address subnet mask i.e.: the submask in slash notation",
        10 => "Input interface index; default for N is 2 but higher values could be used",
        11 => "TCP/UDP destination port number i.e.: FTP, Telnet, or equivalent",
        12 => "IPv4 destination address",
        13 => "The number of contiguous bits in the destination address subnet mask i.e.: the submask in slash notation",
        14 => "Output interface index; default for N is 2 but higher values could be used",
        15 => "IPv4 address of next-hop router",
        16 => "Source BGP autonomous system number where N could be 2 or 4",
        17 => "Destination BGP autonomous system number where N could be 2 or 4",
        18 => "Next-hop router's IP in the BGP domain",
        19 => "IP multicast outgoing packet counter with length N x 8 bits for packets associated with the IP Flow",
        20 => "IP multicast outgoing byte counter with length N x 8 bits for bytes associated with the IP Flow",
        21 => "System uptime at which the last packet of this flow was switched",
        22 => "System uptime at which the first packet of this flow was switched",
        23 => "Outgoing counter with length N x 8 bits for the number of bytes associated with an IP Flow",
        24 => "Outgoing counter with length N x 8 bits for the number of packets associated with an IP Flow.",
        25 => "Minimum IP packet length on incoming packets of the flow",
        26 => "Maximum IP packet length on incoming packets of the flow",
        27 => "IPv6 Source Address",
        28 => "IPv6 Destination Address",
        29 => "Length of the IPv6 source mask in contiguous bits",
        30 => "Length of the IPv6 destination mask in contiguous bits",
        31 => "IPv6 flow label as per RFC 2460 definition",
        32 => "Internet Control Message Protocol (ICMP) packet type; reported as ((ICMP Type*256) + ICMP code)",
        33 => "Internet Group Management Protocol (IGMP) packet type",
        34 => "When using sampled NetFlow, the rate at which packets are sampled i.e.: a value of 100 indicates that one of every 100 packets is sampled",
        35 => "The type of algorithm used for sampled NetFlow: 0x01 Deterministic Sampling ,0x02 Random Sampling",
        36 => "Timeout value (in seconds) for active flow entries in the NetFlow cache",
        37 => "Timeout value (in seconds) for inactive flow entries in the NetFlow cache",
        38 => "Type of flow switching engine: RP = 0, VIP/Linecard = 1",
        39 => "ID number of the flow switching engine",
        40 => "Counter with length N x 8 bits for bytes for the number of bytes exported by the Observation Domain",
        41 => "Counter with length N x 8 bits for bytes for the number of packets exported by the Observation Domain",
        42 => "Counter with length N x 8 bits for bytes for the number of flows exported by the Observation Domain",
        44 => "IPv4 source address prefix (specific for Catalyst architecture)",
        45 => "IPv4 destination address prefix (specific for Catalyst architecture)",
        46 => "MPLS Top Label Type: 0x00 UNKNOWN 0x01 TE-MIDPT 0x02 ATOM 0x03 VPN 0x04 BGP 0x05 LDP",
        47 => "Forwarding Equivalent Class corresponding to the MPLS Top Label",
        48 => "Identifier shown in 'show flow-sampler'",
        49 => "The type of algorithm used for sampling data: 0x02 random sampling. Use in connection with FLOW_SAMPLER_MODE",
        50 => "Packet interval at which to sample. Use in connection with FLOW_SAMPLER_MODE",
        52 => "Minimum TTL on incoming packets of the flow",
        53 => "Maximum TTL on incoming packets of the flow",
        54 => "The IP v4 identification field",
        55 => "Type of Service byte setting when exiting outgoing interface",
        56 => "Incoming source MAC address",
        57 => "Outgoing destination MAC address",
        58 => "Virtual LAN identifier associated with ingress interface",
        59 => "Virtual LAN identifier associated with egress interface",
        60 => "Internet Protocol Version Set to 4 for IPv4, set to 6 for IPv6. If not present in the template, then version 4 is assumed.",
        61 => "Flow direction: 0 - ingress flow, 1 - egress flow",
        62 => "IPv6 address of the next-hop router",
        63 => "Next-hop router in the BGP domain",
        64 => "Bit-encoded field identifying IPv6 option headers found in the flow",
        70 => "MPLS label at position 1 in the stack. This comprises 20 bits of MPLS label, 3 EXP (experimental) bits and 1 S (end-of-stack) bit.",
        71 => "MPLS label at position 2 in the stack. This comprises 20 bits of MPLS label, 3 EXP (experimental) bits and 1 S (end-of-stack) bit.",
        72 => "MPLS label at position 3 in the stack. This comprises 20 bits of MPLS label, 3 EXP (experimental) bits and 1 S (end-of-stack) bit.",
        73 => "MPLS label at position 4 in the stack. This comprises 20 bits of MPLS label, 3 EXP (experimental) bits and 1 S (end-of-stack) bit.",
        74 => "MPLS label at position 5 in the stack. This comprises 20 bits of MPLS label, 3 EXP (experimental) bits and 1 S (end-of-stack) bit.",
        75 => "MPLS label at position 6 in the stack. This comprises 20 bits of MPLS label, 3 EXP (experimental) bits and 1 S (end-of-stack) bit.",
        76 => "MPLS label at position 7 in the stack. This comprises 20 bits of MPLS label, 3 EXP (experimental) bits and 1 S (end-of-stack) bit.",
        77 => "MPLS label at position 8 in the stack. This comprises 20 bits of MPLS label, 3 EXP (experimental) bits and 1 S (end-of-stack) bit.",
        78 => "MPLS label at position 9 in the stack. This comprises 20 bits of MPLS label, 3 EXP (experimental) bits and 1 S (end-of-stack) bit.",
        79 => "MPLS label at position 10 in the stack. This comprises 20 bits of MPLS label, 3 EXP (experimental) bits and 1 S (end-of-stack) bit.",
        80 => "Incoming destination MAC address",
        81 => "Outgoing source MAC address",
        82 => "Shortened interface name i.e.: 'FE1/0'",
        83 => "Full interface name i.e.: 'FastEthernet 1/0'",
        84 => "Name of the flow sampler",
        85 => "Running byte counter for a permanent flow",
        86 => "Running packet counter for a permanent flow",
        88 => "The fragment-offset value from fragmented IP packets",
        89 => "Forwarding status is encoded on 1 byte with the 2 left bits giving the status and the 6 remaining bits giving the reason code. Status is either unknown (00), Forwarded (10), Dropped (10) or Consumed (11). Below is the list of forwarding status values with their means. Unknown • 0 Forwarded • Unknown 64 • Forwarded Fragmented 65 • Forwarded not Fragmented 66 Dropped • Unknown 128, • Drop ACL Deny 129, • Drop ACL drop 130, • Drop Unroutable 131, • Drop Adjacency 132, • Drop Fragmentation & DF set 133, • Drop Bad header checksum 134, • Drop Bad total Length 135, • Drop Bad Header Length 136, • Drop bad TTL 137, • Drop Policer 138, • Drop WRED 139, • Drop RPF 140, • Drop For us 141, • Drop Bad output interface 142, • Drop Hardware 143, Consumed • Unknown 192, • Terminate Punt Adjacency 193, • Terminate Incomplete Adjacency 194, • Terminate For us 195",
        90 => "MPLS PAL Route Distinguisher.",
        91 => "Number of consecutive bits in the MPLS prefix length.",
        92 => "BGP Policy Accounting Source Traffic Index",
        93 => "BGP Policy Accounting Destination Traffic Index",
        94 => "Application description.",
        95 => "8 bits of engine ID, followed by n bits of classification.",
        96 => "Name associated with a classification.",
        98 => "The value of a Differentiated Services Code Point (DSCP) encoded in the Differentiated Services Field, after modification.",
        99 => "Multicast replication factor.",
        102 => "Layer 2 packet section offset. Potentially a generic offset.",
        103 => "Layer 2 packet section size. Potentially a generic size.",
        104 => "Layer 2 packet section data.",
        _ => "UNKNOWN",
    }
}

} // verus!
