//! sFlow counter records: six fixed layouts.
use vstd::prelude::*;
use crate::bytes::{fits, read_u32, read_u64, u32_at, u64_at};
use crate::error::ParseError;

verus! {

/// Generic interface counters.
#[derive(Debug, Clone, Copy)]
pub struct SFlowCounterDataGeneric {
    pub index: u32,
    pub interface_type: u32,
    pub speed: u64,
    pub direction: u32,
    pub status: u32,
    pub in_octets: u64,
    pub in_ucast_packets: u32,
    pub in_multicast_packets: u32,
    pub in_broadcast_packets: u32,
    pub in_discarded: u32,
    pub in_errors: u32,
    pub in_unknown_protos: u32,
    pub out_octets: u64,
    pub out_ucast_packets: u32,
    pub out_multicast_packets: u32,
    pub out_broadcast_packets: u32,
    pub out_discarded: u32,
    pub out_errors: u32,
    pub out_promiscuous: u32,
}

impl SFlowCounterDataGeneric {
    /// This record is the one written in the 88 bytes at `pos`.
    pub open spec fn parsed_from(&self, s: Seq<u8>, pos: int) -> bool {
        &&& self.index == u32_at(s, pos)
        &&& self.interface_type == u32_at(s, pos + 4)
        &&& self.speed == u64_at(s, pos + 8)
        &&& self.direction == u32_at(s, pos + 16)
        &&& self.status == u32_at(s, pos + 20)
        &&& self.in_octets == u64_at(s, pos + 24)
        &&& self.in_ucast_packets == u32_at(s, pos + 32)
        &&& self.in_multicast_packets == u32_at(s, pos + 36)
        &&& self.in_broadcast_packets == u32_at(s, pos + 40)
        &&& self.in_discarded == u32_at(s, pos + 44)
        &&& self.in_errors == u32_at(s, pos + 48)
        &&& self.in_unknown_protos == u32_at(s, pos + 52)
        &&& self.out_octets == u64_at(s, pos + 56)
        &&& self.out_ucast_packets == u32_at(s, pos + 64)
        &&& self.out_multicast_packets == u32_at(s, pos + 68)
        &&& self.out_broadcast_packets == u32_at(s, pos + 72)
        &&& self.out_discarded == u32_at(s, pos + 76)
        &&& self.out_errors == u32_at(s, pos + 80)
        &&& self.out_promiscuous == u32_at(s, pos + 84)
    }

    /// Decodes the record at `pos`.
    pub fn parse_from_datagram(input: &[u8], pos: usize) -> (r: Result<(Self, usize), ParseError>)
        ensures
            match r {
                Ok((rec, end)) => pos + 88 <= input@.len() && end == pos + 88 && rec.parsed_from(
                    input@,
                    pos as int,
                ),
                Err(e) => pos + 88 > input@.len() && e == ParseError::Truncated,
            },
    {
        if !fits(input, pos, 88) {
            return Err(ParseError::Truncated);
        }
        let index = read_u32(input, pos);
        let interface_type = read_u32(input, pos + 4);
        let speed = read_u64(input, pos + 8);
        let direction = read_u32(input, pos + 16);
        let status = read_u32(input, pos + 20);
        let in_octets = read_u64(input, pos + 24);
        let in_ucast_packets = read_u32(input, pos + 32);
        let in_multicast_packets = read_u32(input, pos + 36);
        let in_broadcast_packets = read_u32(input, pos + 40);
        let in_discarded = read_u32(input, pos + 44);
        let in_errors = read_u32(input, pos + 48);
        let in_unknown_protos = read_u32(input, pos + 52);
        let out_octets = read_u64(input, pos + 56);
        let out_ucast_packets = read_u32(input, pos + 64);
        let out_multicast_packets = read_u32(input, pos + 68);
        let out_broadcast_packets = read_u32(input, pos + 72);
        let out_discarded = read_u32(input, pos + 76);
        let out_errors = read_u32(input, pos + 80);
        let out_promiscuous = read_u32(input, pos + 84);
        Ok((Self { index, interface_type, speed, direction, status, in_octets, in_ucast_packets, in_multicast_packets, in_broadcast_packets, in_discarded, in_errors, in_unknown_protos, out_octets, out_ucast_packets, out_multicast_packets, out_broadcast_packets, out_discarded, out_errors, out_promiscuous }, pos + 88))
    }
}

/// Ethernet interface counters.
#[derive(Debug, Clone, Copy)]
pub struct SFlowCounterDataEthernet {
    pub alignment_errors: u32,
    pub fcs_errors: u32,
    pub single_collision_frames: u32,
    pub multiple_collision_frames: u32,
    pub sqe_test_errors: u32,
    pub deferred_transmissions: u32,
    pub late_collisions: u32,
    pub excessive_collisions: u32,
    pub internal_mac_transmit_errors: u32,
    pub carrier_sense_errors: u32,
    pub frame_too_longs: u32,
    pub internal_mac_receive_errors: u32,
    pub symbol_errors: u32,
}

impl SFlowCounterDataEthernet {
    /// This record is the one written in the 52 bytes at `pos`.
    pub open spec fn parsed_from(&self, s: Seq<u8>, pos: int) -> bool {
        &&& self.alignment_errors == u32_at(s, pos)
        &&& self.fcs_errors == u32_at(s, pos + 4)
        &&& self.single_collision_frames == u32_at(s, pos + 8)
        &&& self.multiple_collision_frames == u32_at(s, pos + 12)
        &&& self.sqe_test_errors == u32_at(s, pos + 16)
        &&& self.deferred_transmissions == u32_at(s, pos + 20)
        &&& self.late_collisions == u32_at(s, pos + 24)
        &&& self.excessive_collisions == u32_at(s, pos + 28)
        &&& self.internal_mac_transmit_errors == u32_at(s, pos + 32)
        &&& self.carrier_sense_errors == u32_at(s, pos + 36)
        &&& self.frame_too_longs == u32_at(s, pos + 40)
        &&& self.internal_mac_receive_errors == u32_at(s, pos + 44)
        &&& self.symbol_errors == u32_at(s, pos + 48)
    }

    /// Decodes the record at `pos`.
    pub fn parse_from_datagram(input: &[u8], pos: usize) -> (r: Result<(Self, usize), ParseError>)
        ensures
            match r {
                Ok((rec, end)) => pos + 52 <= input@.len() && end == pos + 52 && rec.parsed_from(
                    input@,
                    pos as int,
                ),
                Err(e) => pos + 52 > input@.len() && e == ParseError::Truncated,
            },
    {
        if !fits(input, pos, 52) {
            return Err(ParseError::Truncated);
        }
        let alignment_errors = read_u32(input, pos);
        let fcs_errors = read_u32(input, pos + 4);
        let single_collision_frames = read_u32(input, pos + 8);
        let multiple_collision_frames = read_u32(input, pos + 12);
        let sqe_test_errors = read_u32(input, pos + 16);
        let deferred_transmissions = read_u32(input, pos + 20);
        let late_collisions = read_u32(input, pos + 24);
        let excessive_collisions = read_u32(input, pos + 28);
        let internal_mac_transmit_errors = read_u32(input, pos + 32);
        let carrier_sense_errors = read_u32(input, pos + 36);
        let frame_too_longs = read_u32(input, pos + 40);
        let internal_mac_receive_errors = read_u32(input, pos + 44);
        let symbol_errors = read_u32(input, pos + 48);
        Ok((Self { alignment_errors, fcs_errors, single_collision_frames, multiple_collision_frames, sqe_test_errors, deferred_transmissions, late_collisions, excessive_collisions, internal_mac_transmit_errors, carrier_sense_errors, frame_too_longs, internal_mac_receive_errors, symbol_errors }, pos + 52))
    }
}

/// Token Ring counters.
#[derive(Debug, Clone, Copy)]
pub struct SFlowCounterDataTokenRing {
    pub line_errors: u32,
    pub burst_errors: u32,
    pub ac_errors: u32,
    pub abort_trans_errors: u32,
    pub internal_errors: u32,
    pub lost_frame_errors: u32,
    pub receive_congestions: u32,
    pub frame_copied_errors: u32,
    pub token_errors: u32,
    pub soft_errors: u32,
    pub hard_errors: u32,
    pub signal_loss: u32,
    pub transmit_beacons: u32,
    pub recoverys: u32,
    pub lobe_wires: u32,
    pub removes: u32,
    pub singles: u32,
    pub freq_errors: u32,
}

impl SFlowCounterDataTokenRing {
    /// This record is the one written in the 72 bytes at `pos`.
    pub open spec fn parsed_from(&self, s: Seq<u8>, pos: int) -> bool {
        &&& self.line_errors == u32_at(s, pos)
        &&& self.burst_errors == u32_at(s, pos + 4)
        &&& self.ac_errors == u32_at(s, pos + 8)
        &&& self.abort_trans_errors == u32_at(s, pos + 12)
        &&& self.internal_errors == u32_at(s, pos + 16)
        &&& self.lost_frame_errors == u32_at(s, pos + 20)
        &&& self.receive_congestions == u32_at(s, pos + 24)
        &&& self.frame_copied_errors == u32_at(s, pos + 28)
        &&& self.token_errors == u32_at(s, pos + 32)
        &&& self.soft_errors == u32_at(s, pos + 36)
        &&& self.hard_errors == u32_at(s, pos + 40)
        &&& self.signal_loss == u32_at(s, pos + 44)
        &&& self.transmit_beacons == u32_at(s, pos + 48)
        &&& self.recoverys == u32_at(s, pos + 52)
        &&& self.lobe_wires == u32_at(s, pos + 56)
        &&& self.removes == u32_at(s, pos + 60)
        &&& self.singles == u32_at(s, pos + 64)
        &&& self.freq_errors == u32_at(s, pos + 68)
    }

    /// Decodes the record at `pos`.
    pub fn parse_from_datagram(input: &[u8], pos: usize) -> (r: Result<(Self, usize), ParseError>)
        ensures
            match r {
                Ok((rec, end)) => pos + 72 <= input@.len() && end == pos + 72 && rec.parsed_from(
                    input@,
                    pos as int,
                ),
                Err(e) => pos + 72 > input@.len() && e == ParseError::Truncated,
            },
    {
        if !fits(input, pos, 72) {
            return Err(ParseError::Truncated);
        }
        let line_errors = read_u32(input, pos);
        let burst_errors = read_u32(input, pos + 4);
        let ac_errors = read_u32(input, pos + 8);
        let abort_trans_errors = read_u32(input, pos + 12);
        let internal_errors = read_u32(input, pos + 16);
        let lost_frame_errors = read_u32(input, pos + 20);
        let receive_congestions = read_u32(input, pos + 24);
        let frame_copied_errors = read_u32(input, pos + 28);
        let token_errors = read_u32(input, pos + 32);
        let soft_errors = read_u32(input, pos + 36);
        let hard_errors = read_u32(input, pos + 40);
        let signal_loss = read_u32(input, pos + 44);
        let transmit_beacons = read_u32(input, pos + 48);
        let recoverys = read_u32(input, pos + 52);
        let lobe_wires = read_u32(input, pos + 56);
        let removes = read_u32(input, pos + 60);
        let singles = read_u32(input, pos + 64);
        let freq_errors = read_u32(input, pos + 68);
        Ok((Self { line_errors, burst_errors, ac_errors, abort_trans_errors, internal_errors, lost_frame_errors, receive_congestions, frame_copied_errors, token_errors, soft_errors, hard_errors, signal_loss, transmit_beacons, recoverys, lobe_wires, removes, singles, freq_errors }, pos + 72))
    }
}

/// 100BaseVG interface counters.
#[derive(Debug, Clone, Copy)]
pub struct SFlowCounterDataBaseVG {
    pub in_high_priority_frames: u32,
    pub in_high_priority_octets: u64,
    pub in_norm_priority_frames: u32,
    pub in_norm_priority_octets: u64,
    pub in_ipm_errors: u32,
    pub in_oversize_frame_errors: u32,
    pub in_data_errors: u32,
    pub in_null_addressed_frames: u32,
    pub out_high_priority_frames: u32,
    pub out_high_priority_octets: u64,
    pub transition_into_trainings: u32,
    pub hc_in_high_priority_octets: u64,
    pub hc_in_norm_priority_octets: u64,
    pub hc_out_high_priority_octets: u64,
}

impl SFlowCounterDataBaseVG {
    /// This record is the one written in the 80 bytes at `pos`.
    pub open spec fn parsed_from(&self, s: Seq<u8>, pos: int) -> bool {
        &&& self.in_high_priority_frames == u32_at(s, pos)
        &&& self.in_high_priority_octets == u64_at(s, pos + 4)
        &&& self.in_norm_priority_frames == u32_at(s, pos + 12)
        &&& self.in_norm_priority_octets == u64_at(s, pos + 16)
        &&& self.in_ipm_errors == u32_at(s, pos + 24)
        &&& self.in_oversize_frame_errors == u32_at(s, pos + 28)
        &&& self.in_data_errors == u32_at(s, pos + 32)
        &&& self.in_null_addressed_frames == u32_at(s, pos + 36)
        &&& self.out_high_priority_frames == u32_at(s, pos + 40)
        &&& self.out_high_priority_octets == u64_at(s, pos + 44)
        &&& self.transition_into_trainings == u32_at(s, pos + 52)
        &&& self.hc_in_high_priority_octets == u64_at(s, pos + 56)
        &&& self.hc_in_norm_priority_octets == u64_at(s, pos + 64)
        &&& self.hc_out_high_priority_octets == u64_at(s, pos + 72)
    }

    /// Decodes the record at `pos`.
    pub fn parse_from_datagram(input: &[u8], pos: usize) -> (r: Result<(Self, usize), ParseError>)
        ensures
            match r {
                Ok((rec, end)) => pos + 80 <= input@.len() && end == pos + 80 && rec.parsed_from(
                    input@,
                    pos as int,
                ),
                Err(e) => pos + 80 > input@.len() && e == ParseError::Truncated,
            },
    {
        if !fits(input, pos, 80) {
            return Err(ParseError::Truncated);
        }
        let in_high_priority_frames = read_u32(input, pos);
        let in_high_priority_octets = read_u64(input, pos + 4);
        let in_norm_priority_frames = read_u32(input, pos + 12);
        let in_norm_priority_octets = read_u64(input, pos + 16);
        let in_ipm_errors = read_u32(input, pos + 24);
        let in_oversize_frame_errors = read_u32(input, pos + 28);
        let in_data_errors = read_u32(input, pos + 32);
        let in_null_addressed_frames = read_u32(input, pos + 36);
        let out_high_priority_frames = read_u32(input, pos + 40);
        let out_high_priority_octets = read_u64(input, pos + 44);
        let transition_into_trainings = read_u32(input, pos + 52);
        let hc_in_high_priority_octets = read_u64(input, pos + 56);
        let hc_in_norm_priority_octets = read_u64(input, pos + 64);
        let hc_out_high_priority_octets = read_u64(input, pos + 72);
        Ok((Self { in_high_priority_frames, in_high_priority_octets, in_norm_priority_frames, in_norm_priority_octets, in_ipm_errors, in_oversize_frame_errors, in_data_errors, in_null_addressed_frames, out_high_priority_frames, out_high_priority_octets, transition_into_trainings, hc_in_high_priority_octets, hc_in_norm_priority_octets, hc_out_high_priority_octets }, pos + 80))
    }
}

/// VLAN counters.
#[derive(Debug, Clone, Copy)]
pub struct SFlowCounterDataVLAN {
    pub vlan_id: u32,
    pub octets: u64,
    pub ucast_packets: u32,
    pub multicast_packets: u32,
    pub broadcast_packets: u32,
    pub discards: u32,
}

impl SFlowCounterDataVLAN {
    /// This record is the one written in the 28 bytes at `pos`.
    pub open spec fn parsed_from(&self, s: Seq<u8>, pos: int) -> bool {
        &&& self.vlan_id == u32_at(s, pos)
        &&& self.octets == u64_at(s, pos + 4)
        &&& self.ucast_packets == u32_at(s, pos + 12)
        &&& self.multicast_packets == u32_at(s, pos + 16)
        &&& self.broadcast_packets == u32_at(s, pos + 20)
        &&& self.discards == u32_at(s, pos + 24)
    }

    /// Decodes the record at `pos`.
    pub fn parse_from_datagram(input: &[u8], pos: usize) -> (r: Result<(Self, usize), ParseError>)
        ensures
            match r {
                Ok((rec, end)) => pos + 28 <= input@.len() && end == pos + 28 && rec.parsed_from(
                    input@,
                    pos as int,
                ),
                Err(e) => pos + 28 > input@.len() && e == ParseError::Truncated,
            },
    {
        if !fits(input, pos, 28) {
            return Err(ParseError::Truncated);
        }
        let vlan_id = read_u32(input, pos);
        let octets = read_u64(input, pos + 4);
        let ucast_packets = read_u32(input, pos + 12);
        let multicast_packets = read_u32(input, pos + 16);
        let broadcast_packets = read_u32(input, pos + 20);
        let discards = read_u32(input, pos + 24);
        Ok((Self { vlan_id, octets, ucast_packets, multicast_packets, broadcast_packets, discards }, pos + 28))
    }
}

/// Processor and memory counters.
#[derive(Debug, Clone, Copy)]
pub struct SFlowCounterDataProcessor {
    pub cpu_percent_5s: u32,
    pub cpu_percent_1m: u32,
    pub cpu_percent_5m: u32,
    pub total_memory: u64,
    pub free_memory: u64,
}

impl SFlowCounterDataProcessor {
    /// This record is the one written in the 28 bytes at `pos`.
    pub open spec fn parsed_from(&self, s: Seq<u8>, pos: int) -> bool {
        &&& self.cpu_percent_5s == u32_at(s, pos)
        &&& self.cpu_percent_1m == u32_at(s, pos + 4)
        &&& self.cpu_percent_5m == u32_at(s, pos + 8)
        &&& self.total_memory == u64_at(s, pos + 12)
        &&& self.free_memory == u64_at(s, pos + 20)
    }

    /// Decodes the record at `pos`.
    pub fn parse_from_datagram(input: &[u8], pos: usize) -> (r: Result<(Self, usize), ParseError>)
        ensures
            match r {
                Ok((rec, end)) => pos + 28 <= input@.len() && end == pos + 28 && rec.parsed_from(
                    input@,
                    pos as int,
                ),
                Err(e) => pos + 28 > input@.len() && e == ParseError::Truncated,
            },
    {
        if !fits(input, pos, 28) {
            return Err(ParseError::Truncated);
        }
        let cpu_percent_5s = read_u32(input, pos);
        let cpu_percent_1m = read_u32(input, pos + 4);
        let cpu_percent_5m = read_u32(input, pos + 8);
        let total_memory = read_u64(input, pos + 12);
        let free_memory = read_u64(input, pos + 20);
        Ok((Self { cpu_percent_5s, cpu_percent_1m, cpu_percent_5m, total_memory, free_memory }, pos + 28))
    }
}

} // verus!
