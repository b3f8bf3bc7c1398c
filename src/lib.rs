//! Decoders for NetFlow (v1, v5, v9, IPFIX) and sFlow datagrams.
//!
//! Every decoder reads from a byte slice at a given offset and returns the
//! decoded value together with the offset just past it. NetFlow v9 and IPFIX
//! data sets are decoded against templates that a `NetflowParser` keeps per
//! source address.

// Shared pieces.
pub mod address;
pub mod bytes;
pub mod error;
pub mod registry;
pub mod text;

// Tables of known field types.
pub mod netflow_ipfix_typemap;
pub mod netflow_v9_typemap;

// NetFlow.
pub mod datagram;
pub mod datagram_ipfix;
pub mod datagram_ipfix_data;
pub mod datagram_ipfix_template;
pub mod datagram_v1;
pub mod datagram_v5;
pub mod datagram_v9;
pub mod datagram_v9_data;
pub mod datagram_v9_template;
pub mod netflow_parser;

// sFlow.
pub mod sflow_counter;
pub mod sflow_counter_data;
pub mod sflow_datagram;
pub mod sflow_flow;

// Facts that relate several decoders.
pub mod lemmas;
