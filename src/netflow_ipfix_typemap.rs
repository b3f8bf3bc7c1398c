//! The table of known IPFIX information elements.
use vstd::prelude::*;

verus! {

/// How a data field should be decoded.
#[derive(Debug, Clone, Copy, PartialEq, Eq, Structural)]
pub enum NetflowIPFIXTypeHandlingMode {
    /// 1, 2, 3, 4 or 8-byte unsigned number
    Number,
    /// IPv4 address
    IPv4,
    /// IPv6 address
    IPv6,
    /// 6-byte MAC address
    MAC,
    /// String
    String,
    /// 1, 2, 3, 4 or 8-byte signed number
    SignedNumber,
    /// Single or double-precision floating point number
    Float,
    /// Arbitrary array of bytes
    OctetArray,
    /// Boolean value
    Boolean,
    /// 32-bit count of seconds since the unix epoch
    DateTimeSeconds,
    /// 64-bit count of milliseconds since the unix epoch
    DateTimeMillis,
    /// Seconds and fraction, two 32-bit integers
    DateTimeMicros,
    /// Seconds and fraction, two 32-bit integers
    DateTimeNanos,
}

/// Which scope an options template field describes.
#[derive(Debug, Clone, Copy, PartialEq, Eq, Structural)]
pub enum NetflowIPFIXScopeType {
    System,
    Interface,
    LineCard,
    NetFlowCache,
    Template,
}

/// The scope type that a numeric scope field type stands for.
pub open spec fn ipfix_scope_type(v: u16) -> Option<NetflowIPFIXScopeType> {
    if v == 1 {
        Some(NetflowIPFIXScopeType::System)
    } else if v == 2 {
        Some(NetflowIPFIXScopeType::Interface)
    } else if v == 3 {
        Some(NetflowIPFIXScopeType::LineCard)
    } else if v == 4 {
        Some(NetflowIPFIXScopeType::NetFlowCache)
    } else if v == 5 {
        Some(NetflowIPFIXScopeType::Template)
    } else {
        None
    }
}

impl NetflowIPFIXScopeType {
    /// Resolves a numeric scope field type; unknown values give `Err(())`.
    pub fn try_from(v: u16) -> (r: Result<Self, ()>)
        ensures
            match ipfix_scope_type(v) {
                Some(t) => r == Ok::<Self, ()>(t),
                None => r == Err::<Self, ()>(()),
            },
    {
        match v {
            1 => Ok(Self::System),
            2 => Ok(Self::Interface),
            3 => Ok(Self::LineCard),
            4 => Ok(Self::NetFlowCache),
            5 => Ok(Self::Template),
            _ => Err(()),
        }
    }
}

/// How values of a field type are decoded; `None` for a type outside the table.
pub open spec fn ipfix_type_mode(id: u16) -> Option<NetflowIPFIXTypeHandlingMode> {
    if id == 8 || id == 12 || id == 15 || id == 18 || id == 130 || id == 211 ||
        (225 <= id <= 226) || id == 366 || id == 403 || id == 432 || id == 438 {
        Some(NetflowIPFIXTypeHandlingMode::IPv4)
    } else if (27 <= id <= 28) || (62 <= id <= 63) || id == 131 || id == 140 || (169 <= id <= 170) ||
        id == 212 || (281 <= id <= 282) || id == 404 {
        Some(NetflowIPFIXTypeHandlingMode::IPv6)
    } else if (56 <= id <= 57) || (80 <= id <= 81) || id == 365 || id == 367 || (414 <= id <= 415) {
        Some(NetflowIPFIXTypeHandlingMode::MAC)
    } else if (82 <= id <= 84) || id == 94 || id == 96 || id == 147 || id == 236 || id == 247 ||
        id == 284 || (288 <= id <= 290) || id == 300 || id == 335 || (340 <= id <= 341) ||
        id == 348 || id == 350 || (371 <= id <= 374) || (450 <= id <= 456) ||
        (459 <= id <= 462) || (468 <= id <= 470) {
        Some(NetflowIPFIXTypeHandlingMode::String)
    } else if id == 434 {
        Some(NetflowIPFIXTypeHandlingMode::SignedNumber)
    } else if id == 311 || (320 <= id <= 321) || (336 <= id <= 338) {
        Some(NetflowIPFIXTypeHandlingMode::Float)
    } else if id == 210 || id == 262 || id == 266 || (274 <= id <= 275) || (291 <= id <= 293) ||
        (313 <= id <= 317) || id == 347 || id == 349 || id == 411 || (435 <= id <= 437) ||
        (443 <= id <= 445) || id == 449 || (464 <= id <= 465) || id == 482 ||
        (484 <= id <= 491) {
        Some(NetflowIPFIXTypeHandlingMode::OctetArray)
    } else if id == 276 || id == 333 || (388 <= id <= 389) {
        Some(NetflowIPFIXTypeHandlingMode::Boolean)
    } else if (150 <= id <= 151) || (260 <= id <= 261) || (264 <= id <= 265) || id == 322 {
        Some(NetflowIPFIXTypeHandlingMode::DateTimeSeconds)
    } else if (152 <= id <= 153) || id == 160 || id == 258 || id == 269 || id == 272 || id == 323 ||
        (359 <= id <= 360) {
        Some(NetflowIPFIXTypeHandlingMode::DateTimeMillis)
    } else if (154 <= id <= 155) || id == 268 || id == 271 || id == 324 {
        Some(NetflowIPFIXTypeHandlingMode::DateTimeMicros)
    } else if (156 <= id <= 157) || id == 270 || id == 273 || id == 325 {
        Some(NetflowIPFIXTypeHandlingMode::DateTimeNanos)
    } else if (1 <= id <= 7) || (9 <= id <= 11) || (13 <= id <= 14) || (16 <= id <= 17) ||
        (19 <= id <= 26) || (29 <= id <= 42) || (44 <= id <= 50) || (52 <= id <= 55) ||
        (58 <= id <= 61) || id == 64 || (70 <= id <= 79) || (85 <= id <= 86) ||
        (88 <= id <= 93) || id == 95 || (98 <= id <= 99) || (102 <= id <= 104) ||
        (128 <= id <= 129) || (132 <= id <= 139) || (141 <= id <= 146) || (148 <= id <= 149) ||
        (158 <= id <= 159) || (161 <= id <= 168) || (171 <= id <= 209) || (213 <= id <= 224) ||
        (227 <= id <= 235) || (237 <= id <= 246) || (248 <= id <= 257) || id == 259 ||
        id == 263 || id == 267 || (277 <= id <= 280) || id == 283 || (285 <= id <= 287) ||
        (294 <= id <= 299) || (301 <= id <= 310) || id == 312 || (318 <= id <= 319) ||
        (326 <= id <= 332) || id == 334 || id == 339 || (342 <= id <= 346) ||
        (351 <= id <= 358) || (361 <= id <= 364) || (368 <= id <= 370) || (375 <= id <= 387) ||
        (390 <= id <= 402) || (405 <= id <= 410) || (412 <= id <= 413) || (416 <= id <= 431) ||
        id == 433 || (439 <= id <= 442) || (446 <= id <= 448) || (457 <= id <= 458) ||
        id == 463 || (466 <= id <= 467) || (471 <= id <= 481) || id == 483 {
        Some(NetflowIPFIXTypeHandlingMode::Number)
    } else {
        None
    }
}

/// How values of a field type are decoded; `None` for a type outside the table.
pub fn ipfix_type_mode_of(id: u16) -> (r: Option<NetflowIPFIXTypeHandlingMode>)
    ensures
        r == ipfix_type_mode(id),
{
    if id == 8 || id == 12 || id == 15 || id == 18 || id == 130 || id == 211 ||
        (225 <= id && id <= 226) || id == 366 || id == 403 || id == 432 || id == 438 {
        Some(NetflowIPFIXTypeHandlingMode::IPv4)
    } else if (27 <= id && id <= 28) || (62 <= id && id <= 63) || id == 131 || id == 140 ||
        (169 <= id && id <= 170) || id == 212 || (281 <= id && id <= 282) || id == 404 {
        Some(NetflowIPFIXTypeHandlingMode::IPv6)
    } else if (56 <= id && id <= 57) || (80 <= id && id <= 81) || id == 365 || id == 367 ||
        (414 <= id && id <= 415) {
        Some(NetflowIPFIXTypeHandlingMode::MAC)
    } else if (82 <= id && id <= 84) || id == 94 || id == 96 || id == 147 || id == 236 ||
        id == 247 || id == 284 || (288 <= id && id <= 290) || id == 300 || id == 335 ||
        (340 <= id && id <= 341) || id == 348 || id == 350 || (371 <= id && id <= 374) ||
        (450 <= id && id <= 456) || (459 <= id && id <= 462) || (468 <= id && id <= 470) {
        Some(NetflowIPFIXTypeHandlingMode::String)
    } else if id == 434 {
        Some(NetflowIPFIXTypeHandlingMode::SignedNumber)
    } else if id == 311 || (320 <= id && id <= 321) || (336 <= id && id <= 338) {
        Some(NetflowIPFIXTypeHandlingMode::Float)
    } else if id == 210 || id == 262 || id == 266 || (274 <= id && id <= 275) ||
        (291 <= id && id <= 293) || (313 <= id && id <= 317) || id == 347 || id == 349 ||
        id == 411 || (435 <= id && id <= 437) || (443 <= id && id <= 445) || id == 449 ||
        (464 <= id && id <= 465) || id == 482 || (484 <= id && id <= 491) {
        Some(NetflowIPFIXTypeHandlingMode::OctetArray)
    } else if id == 276 || id == 333 || (388 <= id && id <= 389) {
        Some(NetflowIPFIXTypeHandlingMode::Boolean)
    } else if (150 <= id && id <= 151) || (260 <= id && id <= 261) || (264 <= id && id <= 265) ||
        id == 322 {
        Some(NetflowIPFIXTypeHandlingMode::DateTimeSeconds)
    } else if (152 <= id && id <= 153) || id == 160 || id == 258 || id == 269 || id == 272 ||
        id == 323 || (359 <= id && id <= 360) {
        Some(NetflowIPFIXTypeHandlingMode::DateTimeMillis)
    } else if (154 <= id && id <= 155) || id == 268 || id == 271 || id == 324 {
        Some(NetflowIPFIXTypeHandlingMode::DateTimeMicros)
    } else if (156 <= id && id <= 157) || id == 270 || id == 273 || id == 325 {
        Some(NetflowIPFIXTypeHandlingMode::DateTimeNanos)
    } else if (1 <= id && id <= 7) || (9 <= id && id <= 11) || (13 <= id && id <= 14) ||
        (16 <= id && id <= 17) || (19 <= id && id <= 26) || (29 <= id && id <= 42) ||
        (44 <= id && id <= 50) || (52 <= id && id <= 55) || (58 <= id && id <= 61) ||
        id == 64 || (70 <= id && id <= 79) || (85 <= id && id <= 86) ||
        (88 <= id && id <= 93) || id == 95 || (98 <= id && id <= 99) ||
        (102 <= id && id <= 104) || (128 <= id && id <= 129) || (132 <= id && id <= 139) ||
        (141 <= id && id <= 146) || (148 <= id && id <= 149) || (158 <= id && id <= 159) ||
        (161 <= id && id <= 168) || (171 <= id && id <= 209) || (213 <= id && id <= 224) ||
        (227 <= id && id <= 235) || (237 <= id && id <= 246) || (248 <= id && id <= 257) ||
        id == 259 || id == 263 || id == 267 || (277 <= id && id <= 280) || id == 283 ||
        (285 <= id && id <= 287) || (294 <= id && id <= 299) || (301 <= id && id <= 310) ||
        id == 312 || (318 <= id && id <= 319) || (326 <= id && id <= 332) || id == 334 ||
        id == 339 || (342 <= id && id <= 346) || (351 <= id && id <= 358) ||
        (361 <= id && id <= 364) || (368 <= id && id <= 370) || (375 <= id && id <= 387) ||
        (390 <= id && id <= 402) || (405 <= id && id <= 410) || (412 <= id && id <= 413) ||
        (416 <= id && id <= 431) || id == 433 || (439 <= id && id <= 442) ||
        (446 <= id && id <= 448) || (457 <= id && id <= 458) || id == 463 ||
        (466 <= id && id <= 467) || (471 <= id && id <= 481) || id == 483 {
        Some(NetflowIPFIXTypeHandlingMode::Number)
    } else {
        None
    }
}

/// Description of a known field type: its name, a human description, how
/// its values are decoded, and its numeric identifier.
#[derive(Debug, Clone, Copy)]
pub struct NetflowIPFIXTypeInfo {
    pub name: &'static str,
    pub description: &'static str,
    pub mode: NetflowIPFIXTypeHandlingMode,
    pub type_id: u16,
}

/// Looks a field type up in the table of known types.
pub fn netflow_ipfix_type_info(id: u16) -> (r: Option<NetflowIPFIXTypeInfo>)
    ensures
        match r {
            Some(i) => ipfix_type_mode(id) == Some(i.mode) && i.type_id == id,
            None => ipfix_type_mode(id) is None,
        },
{
    match ipfix_type_mode_of(id) {
        Some(mode) => Some(NetflowIPFIXTypeInfo { name: ipfix_type_name(id), description: ipfix_type_description(id), mode, type_id: id }),
        None => None,
    }
}

/// The canonical name of a field type.
pub fn ipfix_type_name(id: u16) -> (r: &'static str)
    ensures
        ipfix_type_mode(id) is None ==> r@ == "UNKNOWN"@,
{
    match id {
        1 => "IN_BYTES",
        2 => "IN_PKTS",
        3 => "FLOWS",
        4 => "PROTOCOL",
        5 => "SRC_TOS",
        6 => "TCP_FLAGS",
        7 => "L4_SRC_PORT",
        8 => "IPV4_SRC_ADDR",
        9 => "SRC_MASK",
        10 => "INPUT_SNMP",
        11 => "L4_DST_PORT",
        12 => "IPV4_DST_ADDR",
        13 => "DST_MASK",
        14 => "OUTPUT_SNMP",
        15 => "IPV4_NEXT_HOP",
        16 => "SRC_AS",
        17 => "DST_AS",
        18 => "BGP_IPV4_NEXT_HOP",
        19 => "MUL_DST_PKTS",
        20 => "MUL_DST_BYTES",
        21 => "LAST_SWITCHED",
        22 => "FIRST_SWITCHED",
        23 => "OUT_BYTES",
        24 => "OUT_PKTS",
        25 => "MIN_PKT_LNGTH",
        26 => "MAX_PKT_LNGTH",
        27 => "IPV6_SRC_ADDR",
        28 => "IPV6_DST_ADDR",
        29 => "IPV6_SRC_MASK",
        30 => "IPV6_DST_MASK",
        31 => "IPV6_FLOW_LABEL",
        32 => "ICMP_TYPE",
        33 => "MUL_IGMP_TYPE",
        34 => "SAMPLING_INTERVAL",
        35 => "SAMPLING_ALGORITHM",
        36 => "FLOW_ACTIVE_TIMEOUT",
        37 => "FLOW_INACTIVE_TIMEOUT",
        38 => "ENGINE_TYPE",
        39 => "ENGINE_ID",
        40 => "TOTAL_BYTES_EXP",
        41 => "TOTAL_PKTS_EXP",
        42 => "TOTAL_FLOWS_EXP",
        44 => "IPV4_SRC_PREFIX",
        45 => "IPV4_DST_PREFIX",
        46 => "MPLS_TOP_LABEL_TYPE",
        47 => "MPLS_TOP_LABEL_IP_ADDR",
        48 => "FLOW_SAMPLER_ID",
        49 => "FLOW_SAMPLER_MODE",
        50 => "FLOW_SAMPLER_RANDOM_INTERVAL",
        52 => "MIN_TTL",
        53 => "MAX_TTL",
        54 => "IPV4_IDENT",
        55 => "DST_TOS",
        56 => "IN_SRC_MAC",
        57 => "OUT_DST_MAC",
        58 => "SRC_VLAN",
        59 => "DST_VLAN",
        60 => "IP_PROTOCOL_VERSION",
        61 => "DIRECTION",
        62 => "IPV6_NEXT_HOP",
        63 => "BPG_IPV6_NEXT_HOP",
        64 => "IPV6_OPTION_HEADERS",
        70 => "MPLS_LABEL_1",
        71 => "MPLS_LABEL_2",
        72 => "MPLS_LABEL_3",
        73 => "MPLS_LABEL_4",
        74 => "MPLS_LABEL_5",
        75 => "MPLS_LABEL_6",
        76 => "MPLS_LABEL_7",
        77 => "MPLS_LABEL_8",
        78 => "MPLS_LABEL_9",
        79 => "MPLS_LABEL_10",
        80 => "IN_DST_MAC",
        81 => "OUT_SRC_MAC",
        82 => "IF_NAME",
        83 => "IF_DESC",
        84 => "SAMPLER_NAME",
        85 => "IN_PERMANENT_BYTES",
        86 => "IN_PERMANENT_PKTS",
        88 => "FRAGMENT_OFFSET",
        89 => "FORWARDING STATUS",
        90 => "MPLS PAL RD",
        91 => "MPLS PREFIX LEN",
        92 => "SRC TRAFFIC INDEX",
        93 => "DST TRAFFIC INDEX",
        94 => "APPLICATION DESCRIPTION",
        95 => "APPLICATION TAG",
        96 => "APPLICATION NAME",
        98 => "postipDiffServCodePoint",
        99 => "replication factor",
        102 => "layer2packetSectionOffset",
        103 => "layer2packetSectionSize",
        104 => "layer2packetSectionData",
        128 => "bgpNextAdjacentAsNumber",
        129 => "bgpPrevAdjacentAsNumber",
        130 => "exporterIPv4Address",
        131 => "exporterIPv6Address",
        132 => "droppedOctetDeltaCount",
        133 => "droppedPacketDeltaCount",
        134 => "droppedOctetTotalCount",
        135 => "droppedPacketTotalCount",
        136 => "flowEndReason",
        137 => "commonPropertiesId",
        138 => "observationPointId",
        139 => "icmpTypeCodeIPv6",
        140 => "mplsTopLabelIPv6Address",
        141 => "lineCardId",
        142 => "portId",
        143 => "meteringProcessId",
        144 => "exportingProcessId",
        145 => "templateId",
        146 => "wlanChannelId",
        147 => "wlanSSID",
        148 => "flowId",
        149 => "observationDomainId",
        150 => "flowStartSeconds",
        151 => "flowEndSeconds",
        152 => "flowStartMilliseconds",
        153 => "flowEndMilliseconds",
        154 => "flowStartMicroseconds",
        155 => "flowEndMicroseconds",
        156 => "flowStartNanoseconds",
        157 => "flowEndNanoseconds",
        158 => "flowStartDeltaMicroseconds",
        159 => "flowEndDeltaMicroseconds",
        160 => "systemInitTimeMilliseconds",
        161 => "flowDurationMilliseconds",
        162 => "flowDurationMicroseconds",
        163 => "observedFlowTotalCount",
        164 => "ignoredPacketTotalCount",
        165 => "ignoredOctetTotalCount",
        166 => "notSentFlowTotalCount",
        167 => "notSentPacketTotalCount",
        168 => "notSentOctetTotalCount",
        169 => "destinationIPv6Prefix",
        170 => "sourceIPv6Prefix",
        171 => "postOctetTotalCount",
        172 => "postPacketTotalCount",
        173 => "flowKeyIndicator",
        174 => "postMCastPacketTotalCount",
        175 => "postMCastOctetTotalCount",
        176 => "icmpTypeIPv4",
        177 => "icmpCodeIPv4",
        178 => "icmpTypeIPv6",
        179 => "icmpCodeIPv6",
        180 => "udpSourcePort",
        181 => "udpDestinationPort",
        182 => "tcpSourcePort",
        183 => "tcpDestinationPort",
        184 => "tcpSequenceNumber",
        185 => "tcpAcknowledgementNumber",
        186 => "tcpWindowSize",
        187 => "tcpUrgentPointer",
        188 => "tcpHeaderLength",
        189 => "ipHeaderLength",
        190 => "totalLengthIPv4",
        191 => "payloadLengthIPv6",
        192 => "ipTTL",
        193 => "nextHeaderIPv6",
        194 => "mplsPayloadLength",
        195 => "ipDiffServCodePoint",
        196 => "ipPrecedence",
        197 => "fragmentFlags",
        198 => "octetDeltaSumOfSquares",
        199 => "octetTotalSumOfSquares",
        200 => "mplsTopLabelTTL",
        201 => "mplsLabelStackLength",
        202 => "mplsLabelStackDepth",
        203 => "mplsTopLabelExp",
        204 => "ipPayloadLength",
        205 => "udpMessageLength",
        206 => "isMulticast",
        207 => "ipv4IHL",
        208 => "ipv4Options",
        209 => "tcpOptions",
        210 => "paddingOctets",
        211 => "collectorIPv4Address",
        212 => "collectorIPv6Address",
        213 => "exportInterface",
        214 => "exportProtocolVersion",
        215 => "exportTransportProtocol",
        216 => "collectorTransportPort",
        217 => "exporterTransportPort",
        218 => "tcpSynTotalCount",
        219 => "tcpFinTotalCount",
        220 => "tcpRstTotalCount",
        221 => "tcpPshTotalCount",
        222 => "tcpAckTotalCount",
        223 => "tcpUrgTotalCount",
        224 => "ipTotalLength",
        225 => "postNATSourceIPv4Address",
        226 => "postNATDestinationIPv4Address",
        227 => "postNAPTSourceTransportPort",
        228 => "postNAPTDestinationTransportPort",
        229 => "natOriginatingAddressRealm",
        230 => "natEvent",
        231 => "initiatorOctets",
        232 => "responderOctets",
        233 => "firewallEvent",
        234 => "ingressVRFID",
        235 => "egressVRFID",
        236 => "VRFname",
        237 => "postMplsTopLabelExp",
        238 => "tcpWindowScale",
        239 => "biflowDirection",
        240 => "ethernetHeaderLength",
        241 => "ethernetPayloadLength",
        242 => "ethernetTotalLength",
        243 => "dot1qVlanId",
        244 => "dot1qPriority",
        245 => "dot1qCustomerVlanId",
        246 => "dot1qCustomerPriority",
        247 => "metroEvcId",
        248 => "metroEvcType",
        249 => "pseudoWireId",
        250 => "pseudoWireType",
        251 => "pseudoWireControlWord",
        252 => "ingressPhysicalInterface",
        253 => "egressPhysicalInterface",
        254 => "postDot1qVlanId",
        255 => "postDot1qCustomerVlanId",
        256 => "ethernetType",
        257 => "postIpPrecedence",
        258 => "collectionTimeMilliseconds",
        259 => "exportSctpStreamId",
        260 => "maxExportSeconds",
        261 => "maxFlowEndSeconds",
        262 => "messageMD5Checksum",
        263 => "messageScope",
        264 => "minExportSeconds",
        265 => "minFlowStartSeconds",
        266 => "opaqueOctets",
        267 => "sessionScope",
        268 => "maxFlowEndMicroseconds",
        269 => "maxFlowEndMilliseconds",
        270 => "maxFlowEndNanoseconds",
        271 => "minFlowStartMicroseconds",
        272 => "minFlowStartMilliseconds",
        273 => "minFlowStartNanoseconds",
        274 => "collectorCertificate",
        275 => "exporterCertificate",
        276 => "dataRecordsReliability",
        277 => "observationPointType",
        278 => "newConnectionDeltaCount",
        279 => "connectionSumDurationSeconds",
        280 => "connectionTransactionId",
        281 => "postNATSourceIPv6Address",
        282 => "postNATDestinationIPv6Address",
        283 => "natPoolId",
        284 => "natPoolName",
        285 => "anonymizationFlags",
        286 => "anonymizationTechnique",
        287 => "informationElementIndex",
        288 => "p2pTechnology",
        289 => "tunnelTechnology",
        290 => "encryptedTechnology",
        291 => "basicList",
        292 => "subTemplateList",
        293 => "subTemplateMultiList",
        294 => "bgpValidityState",
        295 => "IPSecSPI",
        296 => "greKey",
        297 => "natType",
        298 => "initiatorPackets",
        299 => "responderPackets",
        300 => "observationDomainName",
        301 => "selectionSequenceId",
        302 => "selectorId",
        303 => "informationElementId",
        304 => "selectorAlgorithm",
        305 => "samplingPacketInterval",
        306 => "samplingPacketSpace",
        307 => "samplingTimeInterval",
        308 => "samplingTimeSpace",
        309 => "samplingSize",
        310 => "samplingPopulation",
        311 => "samplingProbability",
        312 => "dataLinkFrameSize",
        313 => "ipHeaderPacketSection",
        314 => "ipPayloadPacketSection",
        315 => "dataLinkFrameSection",
        316 => "mplsLabelStackSection",
        317 => "mplsPayloadPacketSection",
        318 => "selectorIdTotalPktsObserved",
        319 => "selectorIdTotalPktsSelected",
        320 => "absoluteError",
        321 => "relativeError",
        322 => "observationTimeSeconds",
        323 => "observationTimeMilliseconds",
        324 => "observationTimeMicroseconds",
        325 => "observationTimeNanoseconds",
        326 => "digestHashValue",
        327 => "hashIPPayloadOffset",
        328 => "hashIPPayloadSize",
        329 => "hashOutputRangeMin",
        330 => "hashOutputRangeMax",
        331 => "hashSelectedRangeMin",
        332 => "hashSelectedRangeMax",
        333 => "hashDigestOutput",
        334 => "hashInitialiserValue",
        335 => "selectorName",
        336 => "upperCILimit",
        337 => "lowerCILimit",
        338 => "confidenceLevel",
        339 => "informationElementDataType",
        340 => "informationElementDescription",
        341 => "informationElementName",
        342 => "informationElementRangeBegin",
        343 => "informationElementRangeEnd",
        344 => "informationElementSemantics",
        345 => "informationElementUnits",
        346 => "privateEnterpriseNumber",
        347 => "virtualStationInterfaceId",
        348 => "virtualStationInterfaceName",
        349 => "virtualStationUUID",
        350 => "virtualStationName",
        351 => "layer2SegmentId",
        352 => "layer2OctetDeltaCount",
        353 => "layer2OctetTotalCount",
        354 => "ingressUnicastPacketTotalCount",
        355 => "ingressMulticastPacketTotalCount",
        356 => "ingressBroadcastPacketTotalCount",
        357 => "egressUnicastPacketTotalCount",
        358 => "egressBroadcastPacketTotalCount",
        359 => "monitoringIntervalStartMilliSeconds",
        360 => "monitoringIntervalEndMilliSeconds",
        361 => "portRangeStart",
        362 => "portRangeEnd",
        363 => "portRangeStepSize",
        364 => "portRangeNumPorts",
        365 => "staMacAddress",
        366 => "staIPv4Address",
        367 => "wtpMacAddress",
        368 => "ingressInterfaceType",
        369 => "egressInterfaceType",
        370 => "rtpSequenceNumber",
        371 => "userName",
        372 => "applicationCategoryName",
        373 => "applicationSubCategoryName",
        374 => "applicationGroupName",
        375 => "originalFlowsPresent",
        376 => "originalFlowsInitiated",
        377 => "originalFlowsCompleted",
        378 => "distinctCountOfSourceIPAddress",
        379 => "distinctCountOfDestinationIPAddress",
        380 => "distinctCountOfSourceIPv4Address",
        381 => "distinctCountOfDestinationIPv4Address",
        382 => "distinctCountOfSourceIPv6Address",
        383 => "distinctCountOfDestinationIPv6Address",
        384 => "valueDistributionMethod",
        385 => "rfc3550JitterMilliseconds",
        386 => "rfc3550JitterMicroseconds",
        387 => "rfc3550JitterNanoseconds",
        388 => "dot1qDEI",
        389 => "dot1qCustomerDEI",
        390 => "flowSelectorAlgorithm",
        391 => "flowSelectedOctetDeltaCount",
        392 => "flowSelectedPacketDeltaCount",
        393 => "flowSelectedFlowDeltaCount",
        394 => "selectorIDTotalFlowsObserved",
        395 => "selectorIDTotalFlowsSelected",
        396 => "samplingFlowInterval",
        397 => "samplingFlowSpacing",
        398 => "flowSamplingTimeInterval",
        399 => "flowSamplingTimeSpacing",
        400 => "hashFlowDomain",
        401 => "transportOctetDeltaCount",
        402 => "transportPacketDeltaCount",
        403 => "originalExporterIPv4Address",
        404 => "originalExporterIPv6Address",
        405 => "originalObservationDomainId",
        406 => "intermediateProcessId",
        407 => "ignoredDataRecordTotalCount",
        408 => "dataLinkFrameType",
        409 => "sectionOffset",
        410 => "sectionExportedOctets",
        411 => "dot1qServiceInstanceTag",
        412 => "dot1qServiceInstanceId",
        413 => "dot1qServiceInstancePriority",
        414 => "dot1qCustomerSourceMacAddress",
        415 => "dot1qCustomerDestinationMacAddress",
        416 => "layer2OctetDeltaCount",
        417 => "postLayer2OctetDeltaCount",
        418 => "postMCastLayer2OctetDeltaCount",
        419 => "layer2OctetTotalCount",
        420 => "postLayer2OctetTotalCount",
        421 => "postMCastLayer2OctetTotalCount",
        422 => "minimumLayer2TotalLength",
        423 => "maximumLayer2TotalLength",
        424 => "droppedLayer2OctetDeltaCount",
        425 => "droppedLayer2OctetTotalCount",
        426 => "ignoredLayer2OctetTotalCount",
        427 => "notSentLayer2OctetTotalCount",
        428 => "layer2OctetDeltaSumOfSquares",
        429 => "layer2OctetTotalSumOfSquares",
        430 => "layer2FrameDeltaCount",
        431 => "layer2FrameTotalCount",
        432 => "pseudoWireDestinationIPv4Address",
        433 => "ignoredLayer2FrameTotalCount",
        434 => "mibObjectValueInteger",
        435 => "mibObjectValueOctetString",
        436 => "mibObjectValueOID",
        437 => "mibObjectValueBits",
        438 => "mibObjectValueIPAddress",
        439 => "mibObjectValueCounter",
        440 => "mibObjectValueGauge",
        441 => "mibObjectValueTimeTicks",
        442 => "mibObjectValueUnsigned",
        443 => "mibObjectValueTable",
        444 => "mibObjectValueRow",
        445 => "mibObjectIdentifier",
        446 => "mibSubIdentifier",
        447 => "mibIndexIndicator",
        448 => "mibCaptureTimeSemantics",
        449 => "mibContextEngineID",
        450 => "mibContextName",
        451 => "mibObjectName",
        452 => "mibObjectDescription",
        453 => "mibObjectSyntax",
        454 => "mibModuleName",
        455 => "mobileIMSI",
        456 => "mobileMSISDN",
        457 => "httpStatusCode",
        458 => "sourceTransportPortsLimit",
        459 => "httpRequestMethod",
        460 => "httpRequestHost",
        461 => "httpRequestTarget",
        462 => "httpMessageVersion",
        463 => "natInstanceID",
        464 => "internalAddressRealm",
        465 => "externalAddressRealm",
        466 => "natQuotaExceededEvent",
        467 => "natThresholdEvent",
        468 => "httpUserAgent",
        469 => "httpContentType",
        470 => "httpReasonPhrase",
        471 => "maxSessionEntries",
        472 => "maxBIBEntries",
        473 => "maxEntriesPerUser",
        474 => "maxSubscribers",
        475 => "maxFragmentsPendingReassembly",
        476 => "addressPoolHighThreshold",
        477 => "addressPoolLowThreshold",
        478 => "addressPortMappingHighThreshold",
        479 => "addressPortMappingLowThreshold",
        480 => "addressPortMappingPerUserHighThreshold",
        481 => "globalAddressMappingHighThreshold",
        482 => "vpnIdentifier",
        483 => "bgpCommunity",
        484 => "bgpSourceCommunityList",
        485 => "bgpDestinationCommunityList",
        486 => "bgpExtendedCommunity",
        487 => "bgpSourceExtendedCommunityList",
        488 => "bgpDestinationExtendedCommunityList",
        489 => "bgpLargeCommunity",
        490 => "bgpSourceLargeCommunityList",
        491 => "bgpDestinationLargeCommunityList",
        _ => "UNKNOWN",
    }
}

/// A human description of a field type.
pub fn ipfix_type_description(id: u16) -> (r: &'static str)
    ensures
        ipfix_type_mode(id) is None ==> r@ == "UNKNOWN"@,
{
    match id {
        1 => "Incoming counter with length N x 8 bits for number of bytes associated with an IP Flow.",
        2 => "Incoming counter with length N x 8 bits for the number of packets associated with an IP Flow",
        3 => "Number of flows that were aggregated; default for N is 4",
        4 => "IP protocol byte",
        5 => "Type of Service byte setting when entering incoming interface",
        6 => "Cumulative of all the TCP flags seen for this flow",
        7 => "TCP/UDP source port number i.e.: FTP, Telnet, or equivalent",
        8 => "IPv4 source address",
        9 => "The number of contiguous bits in the source address subnet mask i.e.: the submask in slash notation",
        10 => "Input interface index; default for N is 2 but higher values could be used",
        11 => "TCP/UDP destination port number i.e.: FTP, Telnet, or equivalent",
        12 => "IPv4 destination address",
        13 => "The number of contiguous bits in the destination address subnet mask i.e.: the submask in slash notation",
        14 => "Output interface index; default for N is 2 but higher values could be used",
        15 => "IPv4 address of next-hop router",
        16 => "Source BGP autonomous system number where N could be 2 or 4",
        17 => "Destination BGP autonomous system number where N could be 2 or 4",
        18 => "Next-hop router's IP in the BGP domain",
        19 => "IP multicast outgoing packet counter with length N x 8 bits for packets associated with the IP Flow",
        20 => "IP multicast outgoing byte counter with length N x 8 bits for bytes associated with the IP Flow",
        21 => "System uptime at which the last packet of this flow was switched",
        22 => "System uptime at which the first packet of this flow was switched",
        23 => "Outgoing counter with length N x 8 bits for the number of bytes associated with an IP Flow",
        24 => "Outgoing counter with length N x 8 bits for the number of packets associated with an IP Flow.",
        25 => "Minimum IP packet length on incoming packets of the flow",
        26 => "Maximum IP packet length on incoming packets of the flow",
        27 => "IPv6 Source Address",
        28 => "IPv6 Destination Address",
        29 => "Length of the IPv6 source mask in contiguous bits",
        30 => "Length of the IPv6 destination mask in contiguous bits",
        31 => "IPv6 flow label as per RFC 2460 definition",
        32 => "Internet Control Message Protocol (ICMP) packet type; reported as ((ICMP Type*256) + ICMP code)",
        33 => "Internet Group Management Protocol (IGMP) packet type",
        34 => "When using sampled NetFlow, the rate at which packets are sampled i.e.: a value of 100 indicates that one of every 100 packets is sampled",
        35 => "The type of algorithm used for sampled NetFlow: 0x01 Deterministic Sampling ,0x02 Random Sampling",
        36 => "Timeout value (in seconds) for active flow entries in the NetFlow cache",
        37 => "Timeout value (in seconds) for inactive flow entries in the NetFlow cache",
        38 => "Type of flow switching engine: RP = 0, VIP/Linecard = 1",
        39 => "ID number of the flow switching engine",
        40 => "Counter with length N x 8 bits for bytes for the number of bytes exported by the Observation Domain",
        41 => "Counter with length N x 8 bits for bytes for the number of packets exported by the Observation Domain",
        42 => "Counter with length N x 8 bits for bytes for the number of flows exported by the Observation Domain",
        44 => "IPv4 source address prefix (specific for Catalyst architecture)",
        45 => "IPv4 destination address prefix (specific for Catalyst architecture)",
        46 => "MPLS Top Label Type: 0x00 UNKNOWN 0x01 TE-MIDPT 0x02 ATOM 0x03 VPN 0x04 BGP 0x05 LDP",
        47 => "Forwarding Equivalent Class corresponding to the MPLS Top Label",
        48 => "Identifier shown in 'show flow-sampler'",
        49 => "The type of algorithm used for sampling data: 0x02 random sampling. Use in connection with FLOW_SAMPLER_MODE",
        50 => "Packet interval at which to sample. Use in connection with FLOW_SAMPLER_MODE",
        52 => "Minimum TTL on incoming packets of the flow",
        53 => "Maximum TTL on incoming packets of the flow",
        54 => "The IP v4 identification field",
        55 => "Type of Service byte setting when exiting outgoing interface",
        56 => "Incoming source MAC address",
        57 => "Outgoing destination MAC address",
        58 => "Virtual LAN identifier associated with ingress interface",
        59 => "Virtual LAN identifier associated with egress interface",
        60 => "Internet Protocol Version Set to 4 for IPv4, set to 6 for IPv6. If not present in the template, then version 4 is assumed.",
        61 => "Flow direction: 0 - ingress flow, 1 - egress flow",
        62 => "IPv6 address of the next-hop router",
        63 => "Next-hop router in the BGP domain",
        64 => "Bit-encoded field identifying IPv6 option headers found in the flow",
        70 => "MPLS label at position 1 in the stack. This comprises 20 bits of MPLS label, 3 EXP (experimental) bits and 1 S (end-of-stack) bit.",
        71 => "MPLS label at position 2 in the stack. This comprises 20 bits of MPLS label, 3 EXP (experimental) bits and 1 S (end-of-stack) bit.",
        72 => "MPLS label at position 3 in the stack. This comprises 20 bits of MPLS label, 3 EXP (experimental) bits and 1 S (end-of-stack) bit.",
        73 => "MPLS label at position 4 in the stack. This comprises 20 bits of MPLS label, 3 EXP (experimental) bits and 1 S (end-of-stack) bit.",
        74 => "MPLS label at position 5 in the stack. This comprises 20 bits of MPLS label, 3 EXP (experimental) bits and 1 S (end-of-stack) bit.",
        75 => "MPLS label at position 6 in the stack. This comprises 20 bits of MPLS label, 3 EXP (experimental) bits and 1 S (end-of-stack) bit.",
        76 => "MPLS label at position 7 in the stack. This comprises 20 bits of MPLS label, 3 EXP (experimental) bits and 1 S (end-of-stack) bit.",
        77 => "MPLS label at position 8 in the stack. This comprises 20 bits of MPLS label, 3 EXP (experimental) bits and 1 S (end-of-stack) bit.",
        78 => "MPLS label at position 9 in the stack. This comprises 20 bits of MPLS label, 3 EXP (experimental) bits and 1 S (end-of-stack) bit.",
        79 => "MPLS label at position 10 in the stack. This comprises 20 bits of MPLS label, 3 EXP (experimental) bits and 1 S (end-of-stack) bit.",
        80 => "Incoming destination MAC address",
        81 => "Outgoing source MAC address",
        82 => "Shortened interface name i.e.: 'FE1/0'",
        83 => "Full interface name i.e.: 'FastEthernet 1/0'",
        84 => "Name of the flow sampler",
        85 => "Running byte counter for a permanent flow",
        86 => "Running packet counter for a permanent flow",
        88 => "The fragment-offset value from fragmented IP packets",
        89 => "Forwarding status is encoded on 1 byte with the 2 left bits giving the status and the 6 remaining bits giving the reason code. Status is either unknown (00), Forwarded (10), Dropped (10) or Consumed (11). Below is the list of forwarding status values with their means. Unknown • 0 Forwarded • Unknown 64 • Forwarded Fragmented 65 • Forwarded not Fragmented 66 Dropped • Unknown 128, • Drop ACL Deny 129, • Drop ACL drop 130, • Drop Unroutable 131, • Drop Adjacency 132, • Drop Fragmentation & DF set 133, • Drop Bad header checksum 134, • Drop Bad total Length 135, • Drop Bad Header Length 136, • Drop bad TTL 137, • Drop Policer 138, • Drop WRED 139, • Drop RPF 140, • Drop For us 141, • Drop Bad output interface 142, • Drop Hardware 143, Consumed • Unknown 192, • Terminate Punt Adjacency 193, • Terminate Incomplete Adjacency 194, • Terminate For us 195",
        90 => "MPLS PAL Route Distinguisher.",
        91 => "Number of consecutive bits in the MPLS prefix length.",
        92 => "BGP Policy Accounting Source Traffic Index",
        93 => "BGP Policy Accounting Destination Traffic Index",
        94 => "Application description.",
        95 => "8 bits of engine ID, followed by n bits of classification.",
        96 => "Name associated with a classification.",
        98 => "The value of a Differentiated Services Code Point (DSCP) encoded in the Differentiated Services Field, after modification.",
        99 => "Multicast replication factor.",
        102 => "Layer 2 packet section offset. Potentially a generic offset.",
        103 => "Layer 2 packet section size. Potentially a generic size.",
        104 => "Layer 2 packet section data.",
        128 => "",
        129 => "",
        130 => "",
        131 => "",
        132 => "",
        133 => "",
        134 => "",
        135 => "",
        136 => "",
        137 => "",
        138 => "",
        139 => "",
        140 => "",
        141 => "",
        142 => "",
        143 => "",
        144 => "",
        145 => "",
        146 => "",
        147 => "",
        148 => "",
        149 => "",
        150 => "",
        151 => "",
        152 => "",
        153 => "",
        154 => "",
        155 => "",
        156 => "",
        157 => "",
        158 => "",
        159 => "",
        160 => "",
        161 => "",
        162 => "",
        163 => "",
        164 => "",
        165 => "",
        166 => "",
        167 => "",
        168 => "",
        169 => "",
        170 => "",
        171 => "",
        172 => "",
        173 => "",
        174 => "",
        175 => "",
        176 => "",
        177 => "",
        178 => "",
        179 => "",
        180 => "",
        181 => "",
        182 => "",
        183 => "",
        184 => "",
        185 => "",
        186 => "",
        187 => "",
        188 => "",
        189 => "",
        190 => "",
        191 => "",
        192 => "",
        193 => "",
        194 => "",
        195 => "",
        196 => "",
        197 => "",
        198 => "",
        199 => "",
        200 => "",
        201 => "",
        202 => "",
        203 => "",
        204 => "",
        205 => "",
        206 => "",
        207 => "",
        208 => "",
        209 => "",
        210 => "",
        211 => "",
        212 => "",
        213 => "",
        214 => "",
        215 => "",
        216 => "",
        217 => "",
        218 => "",
        219 => "",
        220 => "",
        221 => "",
        222 => "",
        223 => "",
        224 => "",
        225 => "",
        226 => "",
        227 => "",
        228 => "",
        229 => "",
        230 => "",
        231 => "",
        232 => "",
        233 => "",
        234 => "",
        235 => "",
        236 => "",
        237 => "",
        238 => "",
        239 => "",
        240 => "",
        241 => "",
        242 => "",
        243 => "",
        244 => "",
        245 => "",
        246 => "",
        247 => "",
        248 => "",
        249 => "",
        250 => "",
        251 => "",
        252 => "",
        253 => "",
        254 => "",
        255 => "",
        256 => "",
        257 => "",
        258 => "",
        259 => "",
        260 => "",
        261 => "",
        262 => "",
        263 => "",
        264 => "",
        265 => "",
        266 => "",
        267 => "",
        268 => "",
        269 => "",
        270 => "",
        271 => "",
        272 => "",
        273 => "",
        274 => "",
        275 => "",
        276 => "",
        277 => "",
        278 => "",
        279 => "",
        280 => "",
        281 => "",
        282 => "",
        283 => "",
        284 => "",
        285 => "",
        286 => "",
        287 => "",
        288 => "",
        289 => "",
        290 => "",
        291 => "",
        292 => "",
        293 => "",
        294 => "",
        295 => "",
        296 => "",
        297 => "",
        298 => "",
        299 => "",
        300 => "",
        301 => "",
        302 => "",
        303 => "",
        304 => "",
        305 => "",
        306 => "",
        307 => "",
        308 => "",
        309 => "",
        310 => "",
        311 => "",
        312 => "",
        313 => "",
        314 => "",
        315 => "",
        316 => "",
        317 => "",
        318 => "",
        319 => "",
        320 => "",
        321 => "",
        322 => "",
        323 => "",
        324 => "",
        325 => "",
        326 => "",
        327 => "",
        328 => "",
        329 => "",
        330 => "",
        331 => "",
        332 => "",
        333 => "",
        334 => "",
        335 => "",
        336 => "",
        337 => "",
        338 => "",
        339 => "",
        340 => "",
        341 => "",
        342 => "",
        343 => "",
        344 => "",
        345 => "",
        346 => "",
        347 => "",
        348 => "",
        349 => "",
        350 => "",
        351 => "",
        352 => "",
        353 => "",
        354 => "",
        355 => "",
        356 => "",
        357 => "",
        358 => "",
        359 => "",
        360 => "",
        361 => "",
        362 => "",
        363 => "",
        364 => "",
        365 => "",
        366 => "",
        367 => "",
        368 => "",
        369 => "",
        370 => "",
        371 => "",
        372 => "",
        373 => "",
        374 => "",
        375 => "",
        376 => "",
        377 => "",
        378 => "",
        379 => "",
        380 => "",
        381 => "",
        382 => "",
        383 => "",
        384 => "",
        385 => "",
        386 => "",
        387 => "",
        388 => "",
        389 => "",
        390 => "",
        391 => "",
        392 => "",
        393 => "",
        394 => "",
        395 => "",
        396 => "",
        397 => "",
        398 => "",
        399 => "",
        400 => "",
        401 => "",
        402 => "",
        403 => "",
        404 => "",
        405 => "",
        406 => "",
        407 => "",
        408 => "",
        409 => "",
        410 => "",
        411 => "",
        412 => "",
        413 => "",
        414 => "",
        415 => "",
        416 => "",
        417 => "",
        418 => "",
        419 => "",
        420 => "",
        421 => "",
        422 => "",
        423 => "",
        424 => "",
        425 => "",
        426 => "",
        427 => "",
        428 => "",
        429 => "",
        430 => "",
        431 => "",
        432 => "",
        433 => "",
        434 => "",
        435 => "",
        436 => "",
        437 => "",
        438 => "",
        439 => "",
        440 => "",
        441 => "",
        442 => "",
        443 => "",
        444 => "",
        445 => "",
        446 => "",
        447 => "",
        448 => "",
        449 => "",
        450 => "",
        451 => "",
        452 => "",
        453 => "",
        454 => "",
        455 => "",
        456 => "",
        457 => "",
        458 => "",
        459 => "",
        460 => "",
        461 => "",
        462 => "",
        463 => "",
        464 => "",
        465 => "",
        466 => "",
        467 => "",
        468 => "",
        469 => "",
        470 => "",
        471 => "",
        472 => "",
        473 => "",
        474 => "",
        475 => "",
        476 => "",
        477 => "",
        478 => "",
        479 => "",
        480 => "",
        481 => "",
        482 => "",
        483 => "",
        484 => "",
        485 => "",
        486 => "",
        487 => "",
        488 => "",
        489 => "",
        490 => "",
        491 => "",
        _ => "UNKNOWN",
    }
}

} // verus!
