use multiflow::address::{IpAddress, SourceAddr};
use multiflow::datagram::{parse_netflow_data, peek_netflow_basic_info, NetflowDatagramData, NetflowPeekResult};
use multiflow::datagram_ipfix::NetflowDatagramIPFIXFlowSet;
use multiflow::datagram_ipfix_data::{NetflowDatagramIPFIXRecordsType, NetflowIPFIXDataField, NetflowIPFIXDataValue};
use multiflow::datagram_ipfix_template::NetflowDatagramIPFIXTemplateField;
use multiflow::datagram_v9::NetflowDatagramV9FlowSet;
use multiflow::datagram_v9_data::{NetflowDatagramRecordsType, NetflowV9DataField, NetflowV9DataValue};
use multiflow::datagram_v9_template::{NetflowDatagramTemplate, NetflowDatagramTemplateField, NetflowDatagramTemplateSet};
use multiflow::error::ParseError;
use multiflow::netflow_ipfix_typemap::netflow_ipfix_type_info;
use multiflow::netflow_parser::NetflowParser;
use multiflow::netflow_v9_typemap::{netflow_v9_type_info, NetflowV9ScopeType};

fn addr(a: u8, b: u8, c: u8, d: u8, port: u16) -> SourceAddr {
    SourceAddr { ip: IpAddress::V4(u32::from_be_bytes([a, b, c, d])), port }
}

fn v9_header(out: &mut Vec<u8>) {
    out.extend_from_slice(&9u16.to_be_bytes());
    out.extend_from_slice(&1u16.to_be_bytes());
    out.extend_from_slice(&1000u32.to_be_bytes());
    out.extend_from_slice(&1_600_000_000u32.to_be_bytes());
    out.extend_from_slice(&7u32.to_be_bytes());
    out.extend_from_slice(&42u32.to_be_bytes());
}

fn ipfix_header(out: &mut Vec<u8>) {
    out.extend_from_slice(&10u16.to_be_bytes());
    out.extend_from_slice(&0u16.to_be_bytes());
    out.extend_from_slice(&1_600_000_000u32.to_be_bytes());
    out.extend_from_slice(&3u32.to_be_bytes());
    out.extend_from_slice(&99u32.to_be_bytes());
}

/// A v9 template set holding one template of (type, length) fields.
fn v9_template_set(out: &mut Vec<u8>, id: u16, fields: &[(u16, u16)]) {
    out.extend_from_slice(&0u16.to_be_bytes());
    out.extend_from_slice(&(8 + 4 * fields.len() as u16).to_be_bytes());
    out.extend_from_slice(&id.to_be_bytes());
    out.extend_from_slice(&(fields.len() as u16).to_be_bytes());
    for (t, l) in fields {
        out.extend_from_slice(&t.to_be_bytes());
        out.extend_from_slice(&l.to_be_bytes());
    }
}

fn data_set(out: &mut Vec<u8>, id: u16, body: &[u8]) {
    out.extend_from_slice(&id.to_be_bytes());
    out.extend_from_slice(&(4 + body.len() as u16).to_be_bytes());
    out.extend_from_slice(body);
}

fn template_packet() -> Vec<u8> {
    let mut p = Vec::new();
    v9_header(&mut p);
    v9_template_set(&mut p, 256, &[(8, 4), (1, 4)]);
    p
}

fn data_packet() -> Vec<u8> {
    let mut p = Vec::new();
    v9_header(&mut p);
    data_set(&mut p, 256, &[192, 168, 1, 1, 0, 0, 0x03, 0xE8]);
    p
}

fn v9_records(d: &NetflowDatagramData, set: usize) -> Vec<Vec<NetflowV9DataField>> {
    match d {
        NetflowDatagramData::DatagramV9(v9) => match &v9.flow_records[set] {
            NetflowDatagramV9FlowSet::Data(ds) => match &ds.records {
                NetflowDatagramRecordsType::Regular(r) => r.clone(),
                NetflowDatagramRecordsType::Option(r) => r.clone(),
            },
            _ => panic!("not a data set"),
        },
        _ => panic!("not a v9 datagram"),
    }
}

fn v5_record_bytes(src: [u8; 4], dst: [u8; 4], packets: u32, octets: u32) -> Vec<u8> {
    let mut r = Vec::new();
    r.extend_from_slice(&src);
    r.extend_from_slice(&dst);
    r.extend_from_slice(&[10, 0, 0, 254]);
    r.extend_from_slice(&3u16.to_be_bytes());
    r.extend_from_slice(&4u16.to_be_bytes());
    r.extend_from_slice(&packets.to_be_bytes());
    r.extend_from_slice(&octets.to_be_bytes());
    r.extend_from_slice(&100u32.to_be_bytes());
    r.extend_from_slice(&200u32.to_be_bytes());
    r.extend_from_slice(&443u16.to_be_bytes());
    r.extend_from_slice(&51000u16.to_be_bytes());
    r.extend_from_slice(&[0, 0x1B, 6, 0]);
    r.extend_from_slice(&65001u16.to_be_bytes());
    r.extend_from_slice(&65002u16.to_be_bytes());
    r.extend_from_slice(&[24, 16, 0, 0]);
    assert_eq!(r.len(), 48);
    r
}

#[test]
fn netflow_v5_single_record() {
    let mut p = Vec::new();
    p.extend_from_slice(&5u16.to_be_bytes());
    p.extend_from_slice(&1u16.to_be_bytes());
    p.extend_from_slice(&1000u32.to_be_bytes());
    p.extend_from_slice(&1_600_000_000u32.to_be_bytes());
    p.extend_from_slice(&5u32.to_be_bytes());
    p.extend_from_slice(&77u32.to_be_bytes());
    p.extend_from_slice(&[1, 2]);
    p.extend_from_slice(&100u16.to_be_bytes());
    p.extend_from_slice(&v5_record_bytes([10, 0, 0, 1], [10, 0, 0, 2], 5, 500));
    let mut parser = NetflowParser::new();
    let (d, end) = parse_netflow_data(&p, &addr(1, 2, 3, 4, 2055), &mut parser).unwrap();
    assert_eq!(end, p.len());
    match d {
        NetflowDatagramData::DatagramV5(v5) => {
            assert_eq!(v5.flow_records.len(), 1);
            let r = &v5.flow_records[0];
            assert_eq!(r.src_ip, u32::from_be_bytes([10, 0, 0, 1]));
            assert_eq!(r.dst_ip, u32::from_be_bytes([10, 0, 0, 2]));
            assert_eq!(r.flow_packets, 5);
            assert_eq!(r.flow_octets, 500);
            assert_eq!(r.src_port, 443);
            assert_eq!(r.dst_port, 51000);
            assert_eq!(r.tcp_flags, 0x1B);
            assert_eq!(r.ip_protocol, 6);
            assert_eq!(r.src_asn, 65001);
            assert_eq!(r.dst_asn, 65002);
            assert_eq!(r.src_mask, 24);
            assert_eq!(r.dst_mask, 16);
            assert_eq!(v5.flow_seqnum, 77);
            assert_eq!(v5.engine_type, 1);
            assert_eq!(v5.engine_id, 2);
            assert_eq!(v5.sampling_interval, 100);
            let mut it = v5.into_iter();
            assert_eq!(it.next().unwrap().flow_octets, 500);
            assert!(it.next().is_none());
        }
        _ => panic!("not a v5 datagram"),
    }
}

#[test]
fn netflow_v5_truncated_record() {
    let mut p = Vec::new();
    p.extend_from_slice(&5u16.to_be_bytes());
    p.extend_from_slice(&2u16.to_be_bytes());
    p.extend_from_slice(&[0; 20]);
    p.extend_from_slice(&v5_record_bytes([10, 0, 0, 1], [10, 0, 0, 2], 5, 500));
    let mut parser = NetflowParser::new();
    let r = parse_netflow_data(&p, &addr(1, 2, 3, 4, 2055), &mut parser);
    assert_eq!(r.err(), Some(ParseError::Truncated));
}

#[test]
fn netflow_v1_record() {
    let mut p = Vec::new();
    p.extend_from_slice(&1u16.to_be_bytes());
    p.extend_from_slice(&1u16.to_be_bytes());
    p.extend_from_slice(&[0; 12]);
    let mut r = vec![10, 1, 1, 1, 10, 1, 1, 2, 10, 1, 1, 3];
    r.extend_from_slice(&[0, 1, 0, 2]);
    r.extend_from_slice(&9u32.to_be_bytes());
    r.extend_from_slice(&900u32.to_be_bytes());
    r.extend_from_slice(&[0; 8]);
    r.extend_from_slice(&80u16.to_be_bytes());
    r.extend_from_slice(&8080u16.to_be_bytes());
    r.extend_from_slice(&[0, 17, 0, 0]);
    r.extend_from_slice(&[0; 8]);
    p.extend_from_slice(&r);
    let mut parser = NetflowParser::new();
    let (d, end) = parse_netflow_data(&p, &addr(1, 2, 3, 4, 2055), &mut parser).unwrap();
    assert_eq!(end, p.len());
    match d {
        NetflowDatagramData::DatagramV1(v1) => {
            assert_eq!(v1.flow_records.len(), 1);
            assert_eq!(v1.flow_records[0].next_hop_ip, u32::from_be_bytes([10, 1, 1, 3]));
            assert_eq!(v1.flow_records[0].flow_packets, 9);
            assert_eq!(v1.flow_records[0].flow_octets, 900);
            assert_eq!(v1.flow_records[0].dst_port, 8080);
            assert_eq!(v1.flow_records[0].ip_protocol, 17);
        }
        _ => panic!("not a v1 datagram"),
    }
}

#[test]
fn netflow_v9_template_then_data() {
    let a = addr(1, 2, 3, 4, 2055);
    let mut parser = NetflowParser::new();
    let (first, _) = parse_netflow_data(&template_packet(), &a, &mut parser).unwrap();
    match first {
        NetflowDatagramData::DatagramV9(v9) => {
            assert_eq!(v9.source_id, 42);
            assert!(matches!(v9.flow_records[0], NetflowDatagramV9FlowSet::Template(_)));
        }
        _ => panic!("not a v9 datagram"),
    }
    let (d, end) = parse_netflow_data(&data_packet(), &a, &mut parser).unwrap();
    assert_eq!(end, data_packet().len());
    let recs = v9_records(&d, 0);
    assert_eq!(recs.len(), 1);
    assert_eq!(recs[0].len(), 2);
    assert_eq!(recs[0][0].name, "IPV4_SRC_ADDR");
    assert!(matches!(recs[0][0].value, NetflowV9DataValue::IPv4(v) if v == u32::from_be_bytes([192, 168, 1, 1])));
    assert_eq!(recs[0][1].name, "IN_BYTES");
    assert!(matches!(recs[0][1].value, NetflowV9DataValue::Number(1000)));
}

#[test]
fn netflow_v9_data_without_template() {
    let a = addr(1, 2, 3, 4, 2055);
    let mut parser = NetflowParser::new();
    let r = parse_netflow_data(&data_packet(), &a, &mut parser);
    assert_eq!(r.err(), Some(ParseError::UnknownTemplate(a, 256)));
}

#[test]
fn template_scoped_by_address() {
    let a = addr(1, 2, 3, 4, 2055);
    let b = addr(5, 6, 7, 8, 2055);
    let mut parser = NetflowParser::new();
    parse_netflow_data(&template_packet(), &a, &mut parser).unwrap();
    assert!(parser.v9_template(&a, 256).is_some());
    assert!(parser.v9_template(&b, 256).is_none());
    let r = parse_netflow_data(&data_packet(), &b, &mut parser);
    assert_eq!(r.err(), Some(ParseError::UnknownTemplate(b, 256)));
    let other_port = addr(1, 2, 3, 4, 2056);
    let r = parse_netflow_data(&data_packet(), &other_port, &mut parser);
    assert_eq!(r.err(), Some(ParseError::UnknownTemplate(other_port, 256)));
}

#[test]
fn template_overwrite_uses_latest() {
    let a = addr(1, 2, 3, 4, 2055);
    let mut parser = NetflowParser::new();
    parse_netflow_data(&template_packet(), &a, &mut parser).unwrap();
    let mut second = Vec::new();
    v9_header(&mut second);
    v9_template_set(&mut second, 256, &[(1, 8)]);
    parse_netflow_data(&second, &a, &mut parser).unwrap();
    let t: &NetflowDatagramTemplate = parser.v9_template(&a, 256).unwrap();
    assert_eq!(t.field_count, 1);
    assert_eq!(t.total_field_length(), 8);
    let (d, _) = parse_netflow_data(&data_packet(), &a, &mut parser).unwrap();
    let recs = v9_records(&d, 0);
    assert_eq!(recs.len(), 1);
    assert_eq!(recs[0].len(), 1);
    assert!(matches!(recs[0][0].value, NetflowV9DataValue::Number(0xC0A8_0101_0000_03E8)));
}

#[test]
fn data_set_padding_is_skipped() {
    let a = addr(1, 2, 3, 4, 2055);
    let mut parser = NetflowParser::new();
    parse_netflow_data(&template_packet(), &a, &mut parser).unwrap();
    let mut p = Vec::new();
    v9_header(&mut p);
    // two records of width 8, then three bytes of padding: L = 4 + 16 + 3 = 23
    data_set(&mut p, 256, &[1, 1, 1, 1, 0, 0, 0, 1, 2, 2, 2, 2, 0, 0, 0, 2, 0, 0, 0]);
    data_set(&mut p, 256, &[3, 3, 3, 3, 0, 0, 0, 3]);
    let (d, end) = parse_netflow_data(&p, &a, &mut parser).unwrap();
    assert_eq!(end, p.len());
    let first = v9_records(&d, 0);
    assert_eq!(first.len(), 2);
    assert!(matches!(first[1][1].value, NetflowV9DataValue::Number(2)));
    let second = v9_records(&d, 1);
    assert_eq!(second.len(), 1);
    assert!(matches!(second[0][0].value, NetflowV9DataValue::IPv4(v) if v == 0x0303_0303));
}

#[test]
fn v9_invalid_set_id() {
    let mut p = Vec::new();
    v9_header(&mut p);
    data_set(&mut p, 7, &[0, 0, 0, 0]);
    let mut parser = NetflowParser::new();
    let r = parse_netflow_data(&p, &addr(1, 2, 3, 4, 1), &mut parser);
    assert_eq!(r.err(), Some(ParseError::InvalidSetId(7)));
}

#[test]
fn v9_template_set_too_short() {
    let mut p = Vec::new();
    v9_header(&mut p);
    p.extend_from_slice(&[0, 0, 0, 2]);
    let mut parser = NetflowParser::new();
    let r = parse_netflow_data(&p, &addr(1, 2, 3, 4, 1), &mut parser);
    assert_eq!(r.err(), Some(ParseError::InvalidLength));
}

#[test]
fn unsupported_version() {
    let mut parser = NetflowParser::new();
    let r = parse_netflow_data(&[0, 7, 0, 0], &addr(1, 2, 3, 4, 1), &mut parser);
    assert_eq!(r.err(), Some(ParseError::UnsupportedVersion(7)));
    assert_eq!(peek_netflow_basic_info(&[0, 7]).err(), Some(ParseError::UnsupportedVersion(7)));
}

#[test]
fn empty_input_is_truncated() {
    let mut parser = NetflowParser::new();
    let r = parse_netflow_data(&[], &addr(1, 2, 3, 4, 1), &mut parser);
    assert_eq!(r.err(), Some(ParseError::Truncated));
}

#[test]
fn peek_v9_header() {
    let r = NetflowParser::peek_netflow_basic_info(&template_packet()).unwrap();
    match r {
        NetflowPeekResult::V9(h) => {
            assert_eq!(h.flow_set_count, 1);
            assert_eq!(h.sys_uptime, 1000);
            assert_eq!(h.unix_secs, 1_600_000_000);
            assert_eq!(h.package_sequence_num, 7);
            assert_eq!(h.source_id, 42);
        }
        _ => panic!("not a v9 header"),
    }
    assert_eq!(peek_netflow_basic_info(&[0, 10]), Ok(NetflowPeekResult::V10));
    assert_eq!(peek_netflow_basic_info(&[0, 9, 0]).err(), Some(ParseError::Truncated));
}

fn v9_field(type_id: u16, length: u16) -> NetflowDatagramTemplateField {
    NetflowDatagramTemplateField { field_type: netflow_v9_type_info(type_id), field_type_id: type_id, field_length: length }
}

#[test]
fn number_widths_round_trip() {
    let bytes = [0x81, 0x02, 0x03, 0x04, 0x05, 0x06, 0x07, 0x08, 0xFF];
    let expected: [(u16, u64); 5] = [
        (1, 0x81),
        (2, 0x8102),
        (3, 0x81_0203),
        (4, 0x8102_0304),
        (8, 0x8102_0304_0506_0708),
    ];
    for (w, v) in expected {
        let (d, end) = NetflowV9DataField::parse_from_datagram(&bytes, 0, &v9_field(1, w)).unwrap();
        assert_eq!(end, w as usize);
        assert!(matches!(d.value, NetflowV9DataValue::Number(x) if x == v));
    }
    let (d, end) = NetflowV9DataField::parse_from_datagram(&bytes, 0, &v9_field(1, 5)).unwrap();
    assert_eq!(end, 5);
    assert!(matches!(d.value, NetflowV9DataValue::Unknown(ref b) if b == &vec![0x81, 2, 3, 4, 5]));
    let r = NetflowV9DataField::parse_from_datagram(&bytes, 2, &v9_field(1, 8));
    assert_eq!(r.err(), Some(ParseError::Truncated));
}

#[test]
fn v9_unknown_type_is_raw() {
    let f = v9_field(500, 3);
    assert!(f.field_type.is_none());
    let (d, end) = NetflowV9DataField::parse_from_datagram(&[9, 8, 7, 6], 0, &f).unwrap();
    assert_eq!(end, 3);
    assert_eq!(d.name, "UNKNOWN");
    assert_eq!(d.type_id, 0);
    assert!(matches!(d.value, NetflowV9DataValue::Unknown(ref b) if b == &vec![9, 8, 7]));
}

#[test]
fn mac_field_rendering() {
    let bytes = [0x00, 0x1A, 0x2b, 0xC3, 0x0d, 0xFF];
    let (d, end) = NetflowV9DataField::parse_from_datagram(&bytes, 0, &v9_field(56, 6)).unwrap();
    assert_eq!(end, 6);
    assert_eq!(d.name, "IN_SRC_MAC");
    assert!(matches!(d.value, NetflowV9DataValue::MAC(ref s) if s == "00:1A:2B:C3:0D:FF"));
}

#[test]
fn string_field_lossy() {
    let (d, end) = NetflowV9DataField::parse_from_datagram(b"eth0", 0, &v9_field(82, 4)).unwrap();
    assert_eq!(end, 4);
    assert!(matches!(d.value, NetflowV9DataValue::String(ref s) if s == "eth0"));
    let (d, _) = NetflowV9DataField::parse_from_datagram(&[b'a', 0xFF, b'b'], 0, &v9_field(82, 3)).unwrap();
    assert!(matches!(d.value, NetflowV9DataValue::String(ref s) if s == "a\u{FFFD}b"));
}

#[test]
fn ipv6_field() {
    let mut bytes = vec![0x20, 0x01, 0x0d, 0xb8];
    bytes.extend_from_slice(&[0; 11]);
    bytes.push(1);
    let (d, end) = NetflowV9DataField::parse_from_datagram(&bytes, 0, &v9_field(27, 16)).unwrap();
    assert_eq!(end, 16);
    assert!(matches!(d.value, NetflowV9DataValue::IPv6(v) if v == 0x2001_0db8_0000_0000_0000_0000_0000_0001));
}

#[test]
fn v9_options_template_and_data() {
    let a = addr(9, 9, 9, 9, 2055);
    let mut p = Vec::new();
    v9_header(&mut p);
    // options template set: id 1, length 4 + 6 + 4 + 4 + 2 padding = 20
    p.extend_from_slice(&[0, 1, 0, 20]);
    p.extend_from_slice(&[1, 44, 0, 4, 0, 4]);
    p.extend_from_slice(&[0, 2, 0, 4]);
    p.extend_from_slice(&[0, 34, 0, 4]);
    p.extend_from_slice(&[0, 0]);
    data_set(&mut p, 300, &[0, 0, 0, 100]);
    let mut parser = NetflowParser::new();
    let (d, end) = parse_netflow_data(&p, &a, &mut parser).unwrap();
    assert_eq!(end, p.len());
    match &d {
        NetflowDatagramData::DatagramV9(v9) => match &v9.flow_records[0] {
            NetflowDatagramV9FlowSet::TemplateOption(o) => {
                assert_eq!(o.template_ids, vec![300]);
                assert!(matches!(o.scope_fields_vec[0][0].field_type, Some(NetflowV9ScopeType::Interface)));
            }
            _ => panic!("not an options template set"),
        },
        _ => panic!("not a v9 datagram"),
    }
    let recs = v9_records(&d, 1);
    assert_eq!(recs.len(), 1);
    assert_eq!(recs[0][0].name, "SAMPLING_INTERVAL");
    assert!(matches!(recs[0][0].value, NetflowV9DataValue::Number(100)));
    assert_eq!(parser.v9_options_template(&a, 300).unwrap().total_field_length(), 4);
}

fn ipfix_field(type_id: u16, length: u16) -> NetflowDatagramIPFIXTemplateField {
    NetflowDatagramIPFIXTemplateField {
        field_type: netflow_ipfix_type_info(type_id),
        field_type_id: type_id,
        field_length: length,
        field_enterprise_id: None,
    }
}

#[test]
fn ipfix_variable_length_field() {
    let input = [5, b'h', b'e', b'l', b'l', b'o', 0xAA];
    let (d, end) = NetflowIPFIXDataField::parse_from_datagram(&input, 0, &ipfix_field(82, 0xFFFF)).unwrap();
    assert_eq!(end, 6);
    assert_eq!(d.name, "IF_NAME");
    assert!(matches!(d.value, NetflowIPFIXDataValue::Unknown(ref b) if b == &b"hello".to_vec()));
    let mut long = vec![255, 0x01, 0x00];
    long.extend_from_slice(&[7; 256]);
    let (d, end) = NetflowIPFIXDataField::parse_from_datagram(&long, 0, &ipfix_field(82, 0xFFFF)).unwrap();
    assert_eq!(end, 259);
    assert!(matches!(d.value, NetflowIPFIXDataValue::Unknown(ref b) if b.len() == 256));
    let r = NetflowIPFIXDataField::parse_from_datagram(&[5, 1, 2], 0, &ipfix_field(82, 0xFFFF));
    assert_eq!(r.err(), Some(ParseError::Truncated));
}

#[test]
fn ipfix_enterprise_field_passthrough() {
    let desc = [0x80, 0x01, 0x00, 0x03, 0x00, 0x00, 0x12, 0x34];
    let (f, end) = NetflowDatagramIPFIXTemplateField::parse_from_datagram(&desc, 0).unwrap();
    assert_eq!(end, 8);
    assert!(f.field_type.is_none());
    assert_eq!(f.field_enterprise_id, Some(0x1234));
    let (d, end) = NetflowIPFIXDataField::parse_from_datagram(&[1, 2, 3, 4], 0, &f).unwrap();
    assert_eq!(end, 3);
    assert_eq!(d.name, "UNKNOWN");
    assert!(matches!(d.value, NetflowIPFIXDataValue::Unknown(ref b) if b == &vec![1, 2, 3]));
}

#[test]
fn ipfix_typed_values() {
    let (d, _) = NetflowIPFIXDataField::parse_from_datagram(&[0xFF, 0xFE], 0, &ipfix_field(434, 2)).unwrap();
    assert!(matches!(d.value, NetflowIPFIXDataValue::SignedNumber(-2)));
    let (d, _) = NetflowIPFIXDataField::parse_from_datagram(&[0x80, 0, 0], 0, &ipfix_field(434, 3)).unwrap();
    assert!(matches!(d.value, NetflowIPFIXDataValue::SignedNumber(-0x80_0000)));
    let (d, _) = NetflowIPFIXDataField::parse_from_datagram(&[0x7F], 0, &ipfix_field(434, 1)).unwrap();
    assert!(matches!(d.value, NetflowIPFIXDataValue::SignedNumber(127)));
    let (d, end) = NetflowIPFIXDataField::parse_from_datagram(&[1], 0, &ipfix_field(276, 1)).unwrap();
    assert_eq!(end, 1);
    assert!(matches!(d.value, NetflowIPFIXDataValue::Boolean(true)));
    let (d, _) = NetflowIPFIXDataField::parse_from_datagram(&[2], 0, &ipfix_field(276, 1)).unwrap();
    assert!(matches!(d.value, NetflowIPFIXDataValue::Boolean(false)));
    let bits = 1.5f32.to_bits().to_be_bytes();
    let (d, _) = NetflowIPFIXDataField::parse_from_datagram(&bits, 0, &ipfix_field(320, 4)).unwrap();
    assert!(matches!(d.value, NetflowIPFIXDataValue::FloatSingle(b) if f32::from_bits(b) == 1.5));
    let bits = 2.25f64.to_bits().to_be_bytes();
    let (d, _) = NetflowIPFIXDataField::parse_from_datagram(&bits, 0, &ipfix_field(320, 8)).unwrap();
    assert!(matches!(d.value, NetflowIPFIXDataValue::FloatDouble(b) if f64::from_bits(b) == 2.25));
    let ts = [0, 0, 0, 10, 0, 0, 0, 20];
    let (d, end) = NetflowIPFIXDataField::parse_from_datagram(&ts, 0, &ipfix_field(154, 8)).unwrap();
    assert_eq!(end, 8);
    assert!(matches!(d.value, NetflowIPFIXDataValue::DateTimeMicros(10, 20)));
    let (d, _) = NetflowIPFIXDataField::parse_from_datagram(&ts, 0, &ipfix_field(152, 8)).unwrap();
    assert!(matches!(d.value, NetflowIPFIXDataValue::DateTimeMillis(0x0000_000A_0000_0014)));
    let (d, _) = NetflowIPFIXDataField::parse_from_datagram(&ts, 0, &ipfix_field(150, 4)).unwrap();
    assert!(matches!(d.value, NetflowIPFIXDataValue::DateTimeSeconds(10)));
}

#[test]
fn ipfix_template_then_data() {
    let a = addr(10, 0, 0, 9, 4739);
    let mut p = Vec::new();
    ipfix_header(&mut p);
    // template set: id 2, length 4 + 4 + 3 * 4 = 20
    p.extend_from_slice(&[0, 2, 0, 20, 1, 0, 0, 3]);
    p.extend_from_slice(&[0, 8, 0, 4]);
    p.extend_from_slice(&[0, 82, 0xFF, 0xFF]);
    p.extend_from_slice(&[0, 2, 0, 4]);
    // data set: one record, 4 + 5 + 4 = 13 bytes, width 4 + 65535 + 4, so no record fits the count
    let mut q = Vec::new();
    ipfix_header(&mut q);
    q.extend_from_slice(&[1, 0, 0, 17, 192, 0, 2, 1, 4, b'e', b't', b'h', b'0', 0, 0, 0, 9]);
    let mut parser = NetflowParser::new();
    let (d, end) = parse_netflow_data(&p, &a, &mut parser).unwrap();
    assert_eq!(end, p.len());
    assert!(matches!(d, NetflowDatagramData::DatagramIPFIX(_)));
    assert_eq!(parser.ipfix_template(&a, 256).unwrap().total_field_length(), 65543);
    let (d, end) = parse_netflow_data(&q, &a, &mut parser).unwrap();
    assert_eq!(end, q.len());
    match d {
        NetflowDatagramData::DatagramIPFIX(x) => {
            assert_eq!(x.observation_domain_id, 99);
            match &x.flow_records[0] {
                NetflowDatagramIPFIXFlowSet::Data(ds) => {
                    assert_eq!(ds.length, 17);
                    match &ds.records {
                        NetflowDatagramIPFIXRecordsType::Regular(r) => assert_eq!(r.len(), 0),
                        _ => panic!("not regular records"),
                    }
                }
                _ => panic!("not a data set"),
            }
        }
        _ => panic!("not an IPFIX datagram"),
    }
}

#[test]
fn ipfix_fixed_template_data() {
    let a = addr(10, 0, 0, 9, 4739);
    let mut p = Vec::new();
    ipfix_header(&mut p);
    p.extend_from_slice(&[0, 2, 0, 16, 1, 1, 0, 2]);
    p.extend_from_slice(&[0, 8, 0, 4]);
    p.extend_from_slice(&[0, 2, 0, 4]);
    p.extend_from_slice(&[1, 1, 0, 13, 192, 0, 2, 1, 0, 0, 0, 9, 0]);
    let mut parser = NetflowParser::new();
    let (d, end) = parse_netflow_data(&p, &a, &mut parser).unwrap();
    assert_eq!(end, p.len());
    match d {
        NetflowDatagramData::DatagramIPFIX(x) => {
            assert_eq!(x.flow_records.len(), 2);
            match &x.flow_records[1] {
                NetflowDatagramIPFIXFlowSet::Data(ds) => match &ds.records {
                    NetflowDatagramIPFIXRecordsType::Regular(r) => {
                        assert_eq!(r.len(), 1);
                        assert!(matches!(r[0][0].value, NetflowIPFIXDataValue::IPv4(0xC000_0201)));
                        assert!(matches!(r[0][1].value, NetflowIPFIXDataValue::Number(9)));
                    }
                    _ => panic!("not regular records"),
                },
                _ => panic!("not a data set"),
            }
        }
        _ => panic!("not an IPFIX datagram"),
    }
    let other = addr(10, 0, 0, 10, 4739);
    let mut q = Vec::new();
    ipfix_header(&mut q);
    q.extend_from_slice(&[1, 1, 0, 12, 192, 0, 2, 1, 0, 0, 0, 9]);
    let r = parse_netflow_data(&q, &other, &mut parser);
    assert_eq!(r.err(), Some(ParseError::UnknownTemplate(other, 257)));
}

#[test]
fn ipfix_invalid_set_id() {
    let mut p = Vec::new();
    ipfix_header(&mut p);
    p.extend_from_slice(&[0, 0, 0, 4]);
    let mut parser = NetflowParser::new();
    let r = parse_netflow_data(&p, &addr(1, 1, 1, 1, 1), &mut parser);
    assert_eq!(r.err(), Some(ParseError::InvalidSetId(0)));
}

#[test]
fn ipfix_options_template_padding() {
    let a = addr(10, 0, 0, 9, 4739);
    let mut p = Vec::new();
    ipfix_header(&mut p);
    // options template set: 10 + 4 + 4 = 18, length 20: two bytes of padding
    p.extend_from_slice(&[0, 3, 0, 20, 1, 2, 0, 4, 0, 4]);
    p.extend_from_slice(&[0, 1, 0, 4]);
    p.extend_from_slice(&[0, 41, 0, 8]);
    p.extend_from_slice(&[0, 0]);
    p.extend_from_slice(&[1, 2, 0, 12, 0, 0, 0, 0, 0, 0, 0, 5]);
    let mut parser = NetflowParser::new();
    let (d, end) = parse_netflow_data(&p, &a, &mut parser).unwrap();
    assert_eq!(end, p.len());
    match d {
        NetflowDatagramData::DatagramIPFIX(x) => match &x.flow_records[1] {
            NetflowDatagramIPFIXFlowSet::Data(ds) => match &ds.records {
                NetflowDatagramIPFIXRecordsType::Option(r) => {
                    assert_eq!(r.len(), 1);
                    assert_eq!(r[0][0].name, "TOTAL_PKTS_EXP");
                    assert!(matches!(r[0][0].value, NetflowIPFIXDataValue::Number(5)));
                }
                _ => panic!("not options records"),
            },
            _ => panic!("not a data set"),
        },
        _ => panic!("not an IPFIX datagram"),
    }
}

#[test]
fn zero_width_template_is_invalid_length() {
    let a = addr(1, 2, 3, 4, 2055);
    let mut p = Vec::new();
    v9_header(&mut p);
    v9_template_set(&mut p, 260, &[(1, 0)]);
    data_set(&mut p, 260, &[0, 0, 0, 0]);
    let mut parser = NetflowParser::new();
    let r = parse_netflow_data(&p, &a, &mut parser);
    assert_eq!(r.err(), Some(ParseError::InvalidLength));
    assert!(parser.v9_template(&a, 260).is_some());
}

#[test]
fn manual_template_registration() {
    let a = addr(1, 2, 3, 4, 2055);
    let set = NetflowDatagramTemplateSet {
        length: 16,
        template_ids: vec![256],
        field_counts: vec![2],
        fields_vec: vec![vec![v9_field(8, 4), v9_field(1, 4)]],
    };
    let mut parser = NetflowParser::new();
    parser.register_netflow_template(&set, &a);
    let (d, _) = parse_netflow_data(&data_packet(), &a, &mut parser).unwrap();
    let recs = v9_records(&d, 0);
    assert!(matches!(recs[0][1].value, NetflowV9DataValue::Number(1000)));
}

#[test]
fn two_templates_in_one_set() {
    let a = addr(1, 2, 3, 4, 2055);
    let mut p = Vec::new();
    v9_header(&mut p);
    p.extend_from_slice(&[0, 0, 0, 24]);
    p.extend_from_slice(&[1, 0, 0, 1, 0, 8, 0, 4]);
    p.extend_from_slice(&[1, 1, 0, 2, 0, 7, 0, 2, 0, 11, 0, 2]);
    let mut parser = NetflowParser::new();
    let (_, end) = parse_netflow_data(&p, &a, &mut parser).unwrap();
    assert_eq!(end, p.len());
    assert_eq!(parser.v9_template(&a, 256).unwrap().total_field_length(), 4);
    assert_eq!(parser.v9_template(&a, 257).unwrap().total_field_length(), 4);
    assert_eq!(parser.v9_template(&a, 257).unwrap().fields[1].field_type_id, 11);
}

#[test]
fn v9_options_template_padding_is_skipped() {
    for pad in [4usize, 6, 9] {
        let a = addr(9, 9, 9, 8, 2055);
        let mut p = Vec::new();
        v9_header(&mut p);
        let len = 10 + pad as u16;
        p.extend_from_slice(&[0, 1]);
        p.extend_from_slice(&len.to_be_bytes());
        p.extend_from_slice(&[1, 44, 0, 0, 0, 0]);
        p.extend_from_slice(&vec![0xEE; pad]);
        let mut parser = NetflowParser::new();
        let (d, end) = parse_netflow_data(&p, &a, &mut parser).unwrap();
        assert_eq!(end, p.len());
        match d {
            NetflowDatagramData::DatagramV9(v9) => {
                assert_eq!(v9.flow_records.len(), 1);
                match &v9.flow_records[0] {
                    NetflowDatagramV9FlowSet::TemplateOption(o) => {
                        assert_eq!(o.template_ids, vec![300]);
                        assert_eq!(o.scope_fields_vec[0].len(), 0);
                        assert_eq!(o.option_fields_vec[0].len(), 0);
                    }
                    _ => panic!("not an options template set"),
                }
            }
            _ => panic!("not a v9 datagram"),
        }
        assert!(parser.v9_options_template(&a, 0xEEEE).is_none());
    }
}

#[test]
fn v9_options_template_length_too_small() {
    let mut p = Vec::new();
    v9_header(&mut p);
    p.extend_from_slice(&[0, 1, 0, 12, 1, 44, 0, 4, 0, 0, 0, 1, 0, 4]);
    let mut parser = NetflowParser::new();
    let r = parse_netflow_data(&p, &addr(1, 2, 3, 4, 1), &mut parser);
    assert_eq!(r.err(), Some(ParseError::InvalidLength));
}

#[test]
fn too_many_sets() {
    let a = addr(1, 2, 3, 4, 2055);
    let mut parser = NetflowParser::new();
    parse_netflow_data(&template_packet(), &a, &mut parser).unwrap();
    let mut p = Vec::new();
    v9_header(&mut p);
    for _ in 0..30 {
        data_set(&mut p, 256, &[1, 1, 1, 1, 0, 0, 0, 1]);
    }
    let (d, _) = parse_netflow_data(&p, &a, &mut parser).unwrap();
    match d {
        NetflowDatagramData::DatagramV9(v9) => assert_eq!(v9.flow_records.len(), 30),
        _ => panic!("not a v9 datagram"),
    }
    data_set(&mut p, 256, &[1, 1, 1, 1, 0, 0, 0, 1]);
    let r = parse_netflow_data(&p, &a, &mut parser);
    assert_eq!(r.err(), Some(ParseError::TooManySets));
}

#[test]
fn registered_twice_parse_uses_latest() {
    let a = addr(1, 2, 3, 4, 2055);
    let first = NetflowDatagramTemplateSet {
        length: 16,
        template_ids: vec![256],
        field_counts: vec![2],
        fields_vec: vec![vec![v9_field(8, 4), v9_field(1, 4)]],
    };
    let second = NetflowDatagramTemplateSet {
        length: 16,
        template_ids: vec![256],
        field_counts: vec![2],
        fields_vec: vec![vec![v9_field(7, 2), v9_field(11, 2)]],
    };
    let mut parser = NetflowParser::new();
    parser.register_netflow_template(&first, &a);
    parser.register_netflow_template(&second, &a);
    let (d, _) = parser.parse(&data_packet(), &a).unwrap();
    let recs = v9_records(&d, 0);
    assert_eq!(recs.len(), 2);
    assert_eq!(recs[0].len(), 2);
    assert_eq!(recs[0][0].name, "L4_SRC_PORT");
    assert_eq!(recs[0][1].name, "L4_DST_PORT");
    assert!(matches!(recs[0][0].value, NetflowV9DataValue::Number(0xC0A8)));
    assert!(matches!(recs[1][1].value, NetflowV9DataValue::Number(0x03E8)));
}
