use multiflow::error::ParseError;
use multiflow::sflow_counter::SFlowCounterRecord;
use multiflow::sflow_datagram::{parse_sflow_data, DatagramIPAddr, SFlowSample};
use multiflow::sflow_flow::SFlowFlowSampleRecord;

fn u32s(out: &mut Vec<u8>, vals: &[u32]) {
    for v in vals {
        out.extend_from_slice(&v.to_be_bytes());
    }
}

fn header(out: &mut Vec<u8>, samples: u32) {
    u32s(out, &[5, 1]);
    out.extend_from_slice(&[192, 168, 0, 1]);
    u32s(out, &[0, 33, 123456, samples]);
}

fn generic_counters(index: u32, speed: u64) -> Vec<u8> {
    let mut g = Vec::new();
    u32s(&mut g, &[index, 6]);
    g.extend_from_slice(&speed.to_be_bytes());
    u32s(&mut g, &[1, 3]);
    g.extend_from_slice(&1000u64.to_be_bytes());
    u32s(&mut g, &[1, 2, 3, 4, 5, 6]);
    g.extend_from_slice(&2000u64.to_be_bytes());
    u32s(&mut g, &[7, 8, 9, 10, 11, 12]);
    assert_eq!(g.len(), 88);
    g
}

#[test]
fn sflow_counter_sample_generic() {
    let mut p = Vec::new();
    header(&mut p, 1);
    let body = generic_counters(3, 1_000_000_000);
    u32s(&mut p, &[2, 12 + 8 + 88, 77, 3, 1, 1, 88]);
    p.extend_from_slice(&body);
    let (d, end) = parse_sflow_data(&p).unwrap();
    assert_eq!(end, p.len());
    assert_eq!(d.sflow_version, 5);
    assert_eq!(d.agent_addr, DatagramIPAddr::IPv4(0xC0A8_0001));
    assert_eq!(d.seq_num, 33);
    assert_eq!(d.sample_record.len(), 1);
    match &d.sample_record[0] {
        SFlowSample::Counter(c) => {
            assert_eq!(c.seq, 77);
            assert_eq!(c.records.len(), 1);
            match c.records[0] {
                SFlowCounterRecord::Generic(g) => {
                    assert_eq!(g.index, 3);
                    assert_eq!(g.speed, 1_000_000_000);
                    assert_eq!(g.in_octets, 1000);
                    assert_eq!(g.out_promiscuous, 12);
                }
                _ => panic!("not generic counters"),
            }
        }
        _ => panic!("not a counter sample"),
    }
}

#[test]
fn sflow_processor_and_vlan_counters() {
    let mut p = Vec::new();
    header(&mut p, 1);
    u32s(&mut p, &[2, 0, 1, 2, 2]);
    u32s(&mut p, &[1001, 28, 10, 20, 30]);
    p.extend_from_slice(&4096u64.to_be_bytes());
    p.extend_from_slice(&1024u64.to_be_bytes());
    u32s(&mut p, &[5, 28, 100]);
    p.extend_from_slice(&55u64.to_be_bytes());
    u32s(&mut p, &[1, 2, 3, 4]);
    let (d, end) = parse_sflow_data(&p).unwrap();
    assert_eq!(end, p.len());
    match &d.sample_record[0] {
        SFlowSample::Counter(c) => {
            assert!(matches!(c.records[0], SFlowCounterRecord::Processor(x) if x.cpu_percent_5m == 30 && x.free_memory == 1024));
            assert!(matches!(c.records[1], SFlowCounterRecord::VLAN(x) if x.vlan_id == 100 && x.octets == 55 && x.discards == 4));
        }
        _ => panic!("not a counter sample"),
    }
}

#[test]
fn sflow_unknown_counter_record() {
    let mut p = Vec::new();
    header(&mut p, 1);
    u32s(&mut p, &[2, 0, 1, 2, 1, 7, 4, 0]);
    assert_eq!(parse_sflow_data(&p).err(), Some(ParseError::UnsupportedCounterRecordType(7)));
}

#[test]
fn sflow_unknown_sample_type() {
    let mut p = Vec::new();
    header(&mut p, 1);
    u32s(&mut p, &[9, 0]);
    assert_eq!(parse_sflow_data(&p).err(), Some(ParseError::UnsupportedSampleType(9)));
}

#[test]
fn sflow_flow_sample_raw_header() {
    let mut p = Vec::new();
    p.extend_from_slice(&5u32.to_be_bytes());
    u32s(&mut p, &[2]);
    p.extend_from_slice(&[0x20, 0x01, 0x0d, 0xb8, 0, 0, 0, 0, 0, 0, 0, 0, 0, 0, 0, 1]);
    u32s(&mut p, &[0, 1, 2, 1]);
    u32s(&mut p, &[1, 0, 5, 6, 512, 0, 1, 2, 0, 2]);
    u32s(&mut p, &[1, 20, 1, 1500, 4, 4]);
    p.extend_from_slice(&[0xDE, 0xAD, 0xBE, 0xEF]);
    u32s(&mut p, &[1001, 8, 0, 0]);
    let (d, end) = parse_sflow_data(&p).unwrap();
    assert_eq!(end, p.len());
    assert_eq!(d.agent_addr, DatagramIPAddr::IPv6(0x2001_0db8_0000_0000_0000_0000_0000_0001));
    match &d.sample_record[0] {
        SFlowSample::Flow(f) => {
            assert_eq!(f.src, 6);
            assert_eq!(f.rate, 512);
            assert_eq!(f.records.len(), 2);
            match &f.records[0] {
                SFlowFlowSampleRecord::Raw(h) => {
                    assert_eq!(h.frame_length, 1500);
                    assert_eq!(h.header, vec![0xDE, 0xAD, 0xBE, 0xEF]);
                }
                _ => panic!("not a raw header"),
            }
            assert!(matches!(f.records[1], SFlowFlowSampleRecord::ExtendedSwitch));
        }
        _ => panic!("not a flow sample"),
    }
}

#[test]
fn sflow_truncated_sample() {
    let mut p = Vec::new();
    header(&mut p, 2);
    u32s(&mut p, &[2, 0, 1, 2, 0]);
    assert_eq!(parse_sflow_data(&p).err(), Some(ParseError::Truncated));
}

#[test]
fn sflow_unknown_flow_record() {
    let mut p = Vec::new();
    header(&mut p, 1);
    u32s(&mut p, &[1, 0, 1, 2, 3, 4, 5, 6, 7, 1, 2000, 0]);
    assert_eq!(parse_sflow_data(&p).err(), Some(ParseError::UnsupportedFlowRecordType(2000)));
}
