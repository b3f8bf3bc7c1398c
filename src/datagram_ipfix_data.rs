//! IPFIX data fields, records and data sets.
use vstd::prelude::*;
use crate::address::SourceAddr;
use crate::bytes::{
    be_at, byte_range, fits, lemma_be_at_bounds, lemma_byte_range_values, read_be, read_bytes,
    read_u128, read_u16, read_u32, read_u64, read_u8, u128_at, u16_at, u32_at, u64_at,
};
use crate::datagram_ipfix_template::{ipfix_fields_width, total_ipfix_width, NetflowDatagramIPFIXTemplateField};
use crate::datagram_v9_data::is_number_width;
use crate::error::ParseError;
use crate::netflow_ipfix_typemap::NetflowIPFIXTypeHandlingMode;
use crate::netflow_parser::NetflowParser;
use crate::text::{decode_utf8_lossy, mac_string, mac_text, utf8_lossy};
use vstd::slice::slice_subrange;

verus! {

/// A decoded IPFIX data field value.
#[derive(Debug, Clone)]
pub enum NetflowIPFIXDataValue {
    /// A 1, 2, 3, 4 or 8-byte unsigned number; other widths give `Unknown`
    Number(u64),
    /// A 1, 2, 3, 4 or 8-byte signed number, sign-extended; other widths give `Unknown`
    SignedNumber(i64),
    /// The bits of a single-precision float
    FloatSingle(u32),
    /// The bits of a double-precision float
    FloatDouble(u64),
    /// IPv4 address, first octet most significant
    IPv4(u32),
    /// IPv6 address, first octet most significant
    IPv6(u128),
    /// MAC address in the form AA:BB:CC:DD:EE:FF
    MAC(String),
    /// Text, with invalid UTF-8 replaced
    String(String),
    /// A byte that is 1 for true
    Boolean(bool),
    /// Seconds since the unix epoch
    DateTimeSeconds(u32),
    /// Milliseconds since the unix epoch
    DateTimeMillis(u64),
    /// Seconds and fraction
    DateTimeMicros(u32, u32),
    /// Seconds and fraction
    DateTimeNanos(u32, u32),
    /// Raw bytes of a field of unknown type, of variable length, or of an
    /// unsupported width
    Unknown(Vec<u8>),
}

/// A decoded IPFIX data field: the name and numeric type of its field type
/// ("UNKNOWN" and 0 for an unknown type), and its value.
#[derive(Debug, Clone)]
pub struct NetflowIPFIXDataField {
    pub name: &'static str,
    pub type_id: u16,
    pub value: NetflowIPFIXDataValue,
}

/// The declared length that marks a variable-length field.
pub const VARIABLE_LENGTH: u16 = 0xFFFF;

/// The `n` bytes at `p` as a two's complement number.
pub open spec fn signed_at(s: Seq<u8>, p: int, n: int) -> int {
    let v = be_at(s, p, n) as int;
    let m = byte_range(n as nat) as int;
    if 2 * v >= m {
        v - m
    } else {
        v
    }
}

/// Where the data of the variable-length field at `p` starts, after its
/// length prefix.
pub open spec fn varlen_data_start(s: Seq<u8>, p: int) -> int {
    if s[p] != 255 {
        p + 1
    } else {
        p + 3
    }
}

/// The length of the data of the variable-length field at `p`: one prefix
/// byte below 255, else the 16-bit length that follows a 255.
pub open spec fn varlen_data_len(s: Seq<u8>, p: int) -> int {
    if s[p] != 255 {
        s[p] as int
    } else {
        u16_at(s, p + 1) as int
    }
}

/// Bytes that the value of field `f` at `p` takes.
pub open spec fn ipfix_field_size(s: Seq<u8>, p: int, f: NetflowDatagramIPFIXTemplateField) -> int {
    let m = f.mode();
    if f.field_length == VARIABLE_LENGTH {
        varlen_data_start(s, p) - p + varlen_data_len(s, p)
    } else if m == Some(NetflowIPFIXTypeHandlingMode::IPv4) || m == Some(
        NetflowIPFIXTypeHandlingMode::DateTimeSeconds,
    ) {
        4
    } else if m == Some(NetflowIPFIXTypeHandlingMode::IPv6) {
        16
    } else if m == Some(NetflowIPFIXTypeHandlingMode::MAC) {
        6
    } else if m == Some(NetflowIPFIXTypeHandlingMode::Boolean) {
        1
    } else if m == Some(NetflowIPFIXTypeHandlingMode::DateTimeMillis) || m == Some(
        NetflowIPFIXTypeHandlingMode::DateTimeMicros,
    ) || m == Some(NetflowIPFIXTypeHandlingMode::DateTimeNanos) {
        8
    } else {
        f.field_length as int
    }
}

/// `v` holds the bytes of `s` from `p` to `q`.
pub open spec fn is_bytes(v: NetflowIPFIXDataValue, s: Seq<u8>, p: int, q: int) -> bool {
    match v {
        NetflowIPFIXDataValue::Unknown(b) => b@ == s.subrange(p, q),
        _ => false,
    }
}

/// `v` is the value of field `f` written at `p`.
pub open spec fn ipfix_value_matches(
    s: Seq<u8>,
    p: int,
    f: NetflowDatagramIPFIXTemplateField,
    v: NetflowIPFIXDataValue,
) -> bool {
    let n = f.field_length as int;
    let m = f.mode();
    if f.field_length == VARIABLE_LENGTH {
        is_bytes(v, s, varlen_data_start(s, p), varlen_data_start(s, p) + varlen_data_len(s, p))
    } else if m == Some(NetflowIPFIXTypeHandlingMode::IPv4) {
        v == NetflowIPFIXDataValue::IPv4(u32_at(s, p))
    } else if m == Some(NetflowIPFIXTypeHandlingMode::IPv6) {
        v == NetflowIPFIXDataValue::IPv6(u128_at(s, p))
    } else if m == Some(NetflowIPFIXTypeHandlingMode::MAC) {
        match v {
            NetflowIPFIXDataValue::MAC(t) => t@ == mac_text(s.subrange(p, p + 6)),
            _ => false,
        }
    } else if m == Some(NetflowIPFIXTypeHandlingMode::String) {
        match v {
            NetflowIPFIXDataValue::String(t) => t@ == utf8_lossy(s.subrange(p, p + n)),
            _ => false,
        }
    } else if m == Some(NetflowIPFIXTypeHandlingMode::Number) && is_number_width(n) {
        v == NetflowIPFIXDataValue::Number(be_at(s, p, n) as u64)
    } else if m == Some(NetflowIPFIXTypeHandlingMode::SignedNumber) && is_number_width(n) {
        v == NetflowIPFIXDataValue::SignedNumber(signed_at(s, p, n) as i64)
    } else if m == Some(NetflowIPFIXTypeHandlingMode::Float) && n == 4 {
        v == NetflowIPFIXDataValue::FloatSingle(u32_at(s, p))
    } else if m == Some(NetflowIPFIXTypeHandlingMode::Float) && n == 8 {
        v == NetflowIPFIXDataValue::FloatDouble(u64_at(s, p))
    } else if m == Some(NetflowIPFIXTypeHandlingMode::Boolean) {
        v == NetflowIPFIXDataValue::Boolean(s[p] == 1)
    } else if m == Some(NetflowIPFIXTypeHandlingMode::DateTimeSeconds) {
        v == NetflowIPFIXDataValue::DateTimeSeconds(u32_at(s, p))
    } else if m == Some(NetflowIPFIXTypeHandlingMode::DateTimeMillis) {
        v == NetflowIPFIXDataValue::DateTimeMillis(u64_at(s, p))
    } else if m == Some(NetflowIPFIXTypeHandlingMode::DateTimeMicros) {
        v == NetflowIPFIXDataValue::DateTimeMicros(u32_at(s, p), u32_at(s, p + 4))
    } else if m == Some(NetflowIPFIXTypeHandlingMode::DateTimeNanos) {
        v == NetflowIPFIXDataValue::DateTimeNanos(u32_at(s, p), u32_at(s, p + 4))
    } else {
        is_bytes(v, s, p, p + n)
    }
}

/// `d` is the field `f` decoded from the bytes at `p`.
pub open spec fn ipfix_field_matches(
    s: Seq<u8>,
    p: int,
    f: NetflowDatagramIPFIXTemplateField,
    d: NetflowIPFIXDataField,
) -> bool {
    &&& match f.field_type {
        Some(i) => d.name == i.name && d.type_id == i.type_id,
        None => d.name@ == "UNKNOWN"@ && d.type_id == 0,
    }
    &&& ipfix_value_matches(s, p, f, d.value)
}

/// Reads the `n` bytes at `pos` (a number width) as a two's complement number.
fn read_signed(b: &[u8], pos: usize, n: usize) -> (r: i64)
    requires
        pos + n <= b@.len(),
        is_number_width(n as int),
    ensures
        r as int == signed_at(b@, pos as int, n as int),
{
    let v = read_be(b, pos, n);
    let m: u128 = if n == 1 {
        0x100
    } else if n == 2 {
        0x1_0000
    } else if n == 3 {
        0x100_0000
    } else if n == 4 {
        0x1_0000_0000
    } else {
        0x1_0000_0000_0000_0000
    };
    proof {
        lemma_byte_range_values();
        lemma_be_at_bounds(b@, pos as int, n as int);
    }
    if 2 * (v as u128) >= m {
        (v as i128 - m as i128) as i64
    } else {
        v as i64
    }
}

impl NetflowIPFIXDataField {
    /// Decodes the value of field `type_info` at `pos`. A field declared with
    /// length `0xFFFF` has a length prefix and decodes to raw bytes.
    pub fn parse_from_datagram(
        input: &[u8],
        pos: usize,
        type_info: &NetflowDatagramIPFIXTemplateField,
    ) -> (r: Result<(Self, usize), ParseError>)
        ensures
            match r {
                Ok((d, end)) => pos + ipfix_field_size(input@, pos as int, *type_info)
                    <= input@.len() && end == pos + ipfix_field_size(input@, pos as int, *type_info)
                    && ipfix_field_matches(input@, pos as int, *type_info, d),
                Err(e) => pos + ipfix_field_size(input@, pos as int, *type_info) > input@.len() && e
                    == ParseError::Truncated,
            },
    {
        let n = type_info.field_length as usize;
        let (name, type_id, mode) = match type_info.field_type {
            Some(i) => (i.name, i.type_id, Some(i.mode)),
            None => ("UNKNOWN", 0u16, None),
        };
        if type_info.field_length == VARIABLE_LENGTH {
            if !fits(input, pos, 1) {
                return Err(ParseError::Truncated);
            }
            let small = read_u8(input, pos);
            let (data, len) = if small != 255 {
                (pos + 1, small as usize)
            } else {
                if !fits(input, pos, 3) {
                    return Err(ParseError::Truncated);
                }
                (pos + 3, read_u16(input, pos + 1) as usize)
            };
            if !fits(input, data, len) {
                return Err(ParseError::Truncated);
            }
            let value = NetflowIPFIXDataValue::Unknown(read_bytes(input, data, len));
            return Ok((Self { name, type_id, value }, data + len));
        }
        let size: usize = match mode {
            Some(NetflowIPFIXTypeHandlingMode::IPv4) => 4,
            Some(NetflowIPFIXTypeHandlingMode::DateTimeSeconds) => 4,
            Some(NetflowIPFIXTypeHandlingMode::IPv6) => 16,
            Some(NetflowIPFIXTypeHandlingMode::MAC) => 6,
            Some(NetflowIPFIXTypeHandlingMode::Boolean) => 1,
            Some(NetflowIPFIXTypeHandlingMode::DateTimeMillis) => 8,
            Some(NetflowIPFIXTypeHandlingMode::DateTimeMicros) => 8,
            Some(NetflowIPFIXTypeHandlingMode::DateTimeNanos) => 8,
            _ => n,
        };
        if !fits(input, pos, size) {
            return Err(ParseError::Truncated);
        }
        let number_width = n == 1 || n == 2 || n == 3 || n == 4 || n == 8;
        let value = match mode {
            Some(NetflowIPFIXTypeHandlingMode::IPv4) => NetflowIPFIXDataValue::IPv4(
                read_u32(input, pos),
            ),
            Some(NetflowIPFIXTypeHandlingMode::IPv6) => NetflowIPFIXDataValue::IPv6(
                read_u128(input, pos),
            ),
            Some(NetflowIPFIXTypeHandlingMode::MAC) => NetflowIPFIXDataValue::MAC(
                mac_string(input, pos),
            ),
            Some(NetflowIPFIXTypeHandlingMode::String) => {
                let raw = read_bytes(input, pos, n);
                NetflowIPFIXDataValue::String(decode_utf8_lossy(raw.as_slice()))
            },
            Some(NetflowIPFIXTypeHandlingMode::Number) => {
                if number_width {
                    NetflowIPFIXDataValue::Number(read_be(input, pos, n))
                } else {
                    NetflowIPFIXDataValue::Unknown(read_bytes(input, pos, n))
                }
            },
            Some(NetflowIPFIXTypeHandlingMode::SignedNumber) => {
                if number_width {
                    NetflowIPFIXDataValue::SignedNumber(read_signed(input, pos, n))
                } else {
                    NetflowIPFIXDataValue::Unknown(read_bytes(input, pos, n))
                }
            },
            Some(NetflowIPFIXTypeHandlingMode::Float) => {
                if n == 4 {
                    NetflowIPFIXDataValue::FloatSingle(read_u32(input, pos))
                } else if n == 8 {
                    NetflowIPFIXDataValue::FloatDouble(read_u64(input, pos))
                } else {
                    NetflowIPFIXDataValue::Unknown(read_bytes(input, pos, n))
                }
            },
            Some(NetflowIPFIXTypeHandlingMode::Boolean) => NetflowIPFIXDataValue::Boolean(
                read_u8(input, pos) == 1,
            ),
            Some(NetflowIPFIXTypeHandlingMode::DateTimeSeconds) => {
                NetflowIPFIXDataValue::DateTimeSeconds(read_u32(input, pos))
            },
            Some(NetflowIPFIXTypeHandlingMode::DateTimeMillis) => {
                NetflowIPFIXDataValue::DateTimeMillis(read_u64(input, pos))
            },
            Some(NetflowIPFIXTypeHandlingMode::DateTimeMicros) => {
                NetflowIPFIXDataValue::DateTimeMicros(read_u32(input, pos), read_u32(input, pos + 4))
            },
            Some(NetflowIPFIXTypeHandlingMode::DateTimeNanos) => {
                NetflowIPFIXDataValue::DateTimeNanos(read_u32(input, pos), read_u32(input, pos + 4))
            },
            _ => NetflowIPFIXDataValue::Unknown(read_bytes(input, pos, n)),
        };
        Ok((Self { name, type_id, value }, pos + size))
    }
}

/// Where field `j` of the record of `fields` at `q` starts.
pub open spec fn ipfix_field_offset(
    s: Seq<u8>,
    q: int,
    fields: Seq<NetflowDatagramIPFIXTemplateField>,
    j: nat,
) -> int
    decreases j,
{
    if j == 0 {
        q
    } else {
        let o = ipfix_field_offset(s, q, fields, (j - 1) as nat);
        o + ipfix_field_size(s, o, fields[j - 1])
    }
}

/// Where the record of `fields` at `q` ends.
pub open spec fn ipfix_record_end(s: Seq<u8>, q: int, fields: Seq<NetflowDatagramIPFIXTemplateField>) -> int {
    ipfix_field_offset(s, q, fields, fields.len())
}

/// Every field of the record of `fields` at `q` lies within `s`.
pub open spec fn ipfix_record_fits(s: Seq<u8>, q: int, fields: Seq<NetflowDatagramIPFIXTemplateField>) -> bool {
    &&& q <= s.len()
    &&& forall|j: nat|
        j < fields.len() ==> #[trigger] ipfix_field_offset(s, q, fields, j) + ipfix_field_size(
            s,
            ipfix_field_offset(s, q, fields, j),
            fields[j as int],
        ) <= s.len()
}

/// `rec` is the record of `fields` written at `q`.
pub open spec fn ipfix_record_matches(
    s: Seq<u8>,
    q: int,
    fields: Seq<NetflowDatagramIPFIXTemplateField>,
    rec: Seq<NetflowIPFIXDataField>,
) -> bool {
    &&& rec.len() == fields.len()
    &&& forall|j: int|
        0 <= j < fields.len() ==> ipfix_field_matches(
            s,
            ipfix_field_offset(s, q, fields, j as nat),
            fields[j],
            #[trigger] rec[j],
        )
}

/// Where the `k`-th record of `fields` starts, the first at `p`.
pub open spec fn ipfix_record_offset(
    s: Seq<u8>,
    p: int,
    fields: Seq<NetflowDatagramIPFIXTemplateField>,
    k: nat,
) -> int
    decreases k,
{
    if k == 0 {
        p
    } else {
        ipfix_record_end(s, ipfix_record_offset(s, p, fields, (k - 1) as nat), fields)
    }
}

/// `count` records of `fields` from `p` lie within `s`.
pub open spec fn ipfix_records_fit(
    s: Seq<u8>,
    p: int,
    fields: Seq<NetflowDatagramIPFIXTemplateField>,
    count: nat,
) -> bool {
    forall|k: nat|
        k < count ==> ipfix_record_fits(s, #[trigger] ipfix_record_offset(s, p, fields, k), fields)
}

fn decode_ipfix_record(input: &[u8], pos: usize, fields: &Vec<NetflowDatagramIPFIXTemplateField>) -> (r: Result<
    (Vec<NetflowIPFIXDataField>, usize),
    ParseError,
>)
    ensures
        match r {
            Ok((rec, end)) => ipfix_record_fits(input@, pos as int, fields@) && end
                == ipfix_record_end(input@, pos as int, fields@) && ipfix_record_matches(
                input@,
                pos as int,
                fields@,
                rec@,
            ),
            Err(e) => !ipfix_record_fits(input@, pos as int, fields@) && e == ParseError::Truncated,
        },
{
    if !fits(input, pos, 0) {
        return Err(ParseError::Truncated);
    }
    let ghost s = input@;
    let mut rec: Vec<NetflowIPFIXDataField> = Vec::new();
    let mut cur = pos;
    let mut j: usize = 0;
    while j < fields.len()
        invariant
            s == input@,
            j <= fields@.len(),
            pos <= s.len(),
            cur <= s.len(),
            cur == ipfix_field_offset(s, pos as int, fields@, j as nat),
            rec@.len() == j,
            forall|i: nat|
                i < j ==> #[trigger] ipfix_field_offset(s, pos as int, fields@, i)
                    + ipfix_field_size(
                    s,
                    ipfix_field_offset(s, pos as int, fields@, i),
                    fields@[i as int],
                ) <= s.len(),
            forall|i: int|
                0 <= i < j ==> ipfix_field_matches(
                    s,
                    ipfix_field_offset(s, pos as int, fields@, i as nat),
                    fields@[i],
                    #[trigger] rec@[i],
                ),
        decreases fields@.len() - j,
    {
        match NetflowIPFIXDataField::parse_from_datagram(input, cur, &fields[j]) {
            Ok((d, next)) => {
                rec.push(d);
                cur = next;
            },
            Err(e) => {
                assert(ipfix_field_offset(s, pos as int, fields@, j as nat) + ipfix_field_size(
                    s,
                    ipfix_field_offset(s, pos as int, fields@, j as nat),
                    fields@[j as int],
                ) > s.len());
                return Err(e);
            },
        }
        j += 1;
    }
    Ok((rec, cur))
}

fn decode_ipfix_records(
    input: &[u8],
    pos: usize,
    fields: &Vec<NetflowDatagramIPFIXTemplateField>,
    count: usize,
) -> (r: Result<(Vec<Vec<NetflowIPFIXDataField>>, usize), ParseError>)
    ensures
        match r {
            Ok((recs, end)) => ipfix_records_fit(input@, pos as int, fields@, count as nat)
                && end == ipfix_record_offset(input@, pos as int, fields@, count as nat)
                && recs@.len() == count && forall|k: int|
                0 <= k < count ==> ipfix_record_matches(
                    input@,
                    ipfix_record_offset(input@, pos as int, fields@, k as nat),
                    fields@,
                    (#[trigger] recs@[k])@,
                ),
            Err(e) => !ipfix_records_fit(input@, pos as int, fields@, count as nat) && e
                == ParseError::Truncated,
        },
{
    let ghost s = input@;
    let mut recs: Vec<Vec<NetflowIPFIXDataField>> = Vec::new();
    let mut cur = pos;
    let mut k: usize = 0;
    while k < count
        invariant
            s == input@,
            k <= count,
            cur == ipfix_record_offset(s, pos as int, fields@, k as nat),
            recs@.len() == k,
            forall|i: nat|
                i < k ==> ipfix_record_fits(
                    s,
                    #[trigger] ipfix_record_offset(s, pos as int, fields@, i),
                    fields@,
                ),
            forall|i: int|
                0 <= i < k ==> ipfix_record_matches(
                    s,
                    ipfix_record_offset(s, pos as int, fields@, i as nat),
                    fields@,
                    (#[trigger] recs@[i])@,
                ),
        decreases count - k,
    {
        match decode_ipfix_record(input, cur, fields) {
            Ok((rec, next)) => {
                recs.push(rec);
                cur = next;
            },
            Err(e) => {
                assert(!ipfix_record_fits(
                    s,
                    ipfix_record_offset(s, pos as int, fields@, k as nat),
                    fields@,
                ));
                return Err(e);
            },
        }
        k += 1;
    }
    Ok((recs, cur))
}

/// The records of an IPFIX data set, by the kind of template they were
/// decoded against.
#[derive(Debug, Clone)]
pub enum NetflowDatagramIPFIXRecordsType {
    Regular(Vec<Vec<NetflowIPFIXDataField>>),
    Option(Vec<Vec<NetflowIPFIXDataField>>),
}

impl NetflowDatagramIPFIXRecordsType {
    /// The records, whatever the kind.
    pub open spec fn records(&self) -> Seq<Vec<NetflowIPFIXDataField>> {
        match self {
            NetflowDatagramIPFIXRecordsType::Regular(r) => r@,
            NetflowDatagramIPFIXRecordsType::Option(r) => r@,
        }
    }
}

/// The template an IPFIX data set was decoded against: its kind, source
/// address and identifier.
#[derive(Debug, Clone, Copy)]
pub enum NetflowDatagramIPFIXSourceTemplateType {
    Regular((SourceAddr, u16)),
    Option((SourceAddr, u16)),
}

/// An IPFIX data set: its length, the template it was decoded against, and
/// its records.
#[derive(Debug, Clone)]
pub struct NetflowDatagramIPFIXDataFlowSet {
    pub length: u16,
    pub source_template: NetflowDatagramIPFIXSourceTemplateType,
    pub records: NetflowDatagramIPFIXRecordsType,
}

/// The fields that records of the IPFIX template for `key` hold: those of the
/// template set, else the option fields of the options template set.
pub open spec fn ipfix_data_fields(parser: NetflowParser, key: (SourceAddr, u16)) -> Seq<
    NetflowDatagramIPFIXTemplateField,
> {
    if parser.ipfix_templates().contains_key(key) {
        parser.ipfix_templates()[key].3
    } else {
        parser.ipfix_options_templates()[key].5
    }
}

/// What decoding an IPFIX data set at `start` from `addr` against the
/// templates of `parser` gives. Records are decoded within the set: the
/// bytes of `input` up to `start` plus the set's length.
pub open spec fn ipfix_data_set_result(
    input: Seq<u8>,
    start: int,
    addr: SourceAddr,
    parser: NetflowParser,
    r: Result<(NetflowDatagramIPFIXDataFlowSet, usize), ParseError>,
) -> bool {
    if start + 4 > input.len() {
        r == Err::<(NetflowDatagramIPFIXDataFlowSet, usize), ParseError>(ParseError::Truncated)
    } else {
        let id = u16_at(input, start);
        let len = u16_at(input, start + 2) as int;
        let key = (addr, id);
        let regular = parser.ipfix_templates().contains_key(key);
        let known = regular || parser.ipfix_options_templates().contains_key(key);
        let fields = ipfix_data_fields(parser, key);
        let width = ipfix_fields_width(fields) as int;
        let body = input.subrange(0, start + len);
        let count = if width == 0 { 0 } else { (len - 4) / width };
        if !known {
            r == Err::<(NetflowDatagramIPFIXDataFlowSet, usize), ParseError>(
                ParseError::UnknownTemplate(addr, id),
            )
        } else if len < 4 || width == 0 {
            r == Err::<(NetflowDatagramIPFIXDataFlowSet, usize), ParseError>(
                ParseError::InvalidLength,
            )
        } else if start + len > input.len() || !ipfix_records_fit(
            body,
            start + 4,
            fields,
            count as nat,
        ) {
            r == Err::<(NetflowDatagramIPFIXDataFlowSet, usize), ParseError>(ParseError::Truncated)
        } else {
            match r {
                Ok((set, end)) => {
                    &&& end == start + len
                    &&& set.length == len
                    &&& set.source_template == (if regular {
                        NetflowDatagramIPFIXSourceTemplateType::Regular(key)
                    } else {
                        NetflowDatagramIPFIXSourceTemplateType::Option(key)
                    })
                    &&& (set.records is Regular) == regular
                    &&& set.records.records().len() == count
                    &&& forall|k: int|
                        0 <= k < count ==> ipfix_record_matches(
                            body,
                            ipfix_record_offset(body, start + 4, fields, k as nat),
                            fields,
                            (#[trigger] set.records.records()[k])@,
                        )
                },
                Err(_) => false,
            }
        }
    }
}

impl NetflowDatagramIPFIXDataFlowSet {
    /// Decodes the IPFIX data set whose identifier is at `start`, coming from
    /// `addr`, against the template registered for that address and
    /// identifier. With `W` the sum of the template's declared lengths and
    /// `L` the set's length, the set holds `(L - 4) / W` records and ends
    /// `L` bytes after `start`; what the records leave is padding.
    pub fn parse_from_datagram(
        input: &[u8],
        start: usize,
        addr: &SourceAddr,
        parser: &NetflowParser,
    ) -> (r: Result<(Self, usize), ParseError>)
        requires
            parser.wf(),
        ensures
            ipfix_data_set_result(input@, start as int, *addr, *parser, r),
    {
        if !fits(input, start, 4) {
            return Err(ParseError::Truncated);
        }
        let id = read_u16(input, start);
        let length = read_u16(input, start + 2);
        let (fields, regular) = match parser.ipfix_template(addr, id) {
            Some(t) => (&t.fields, true),
            None => match parser.ipfix_options_template(addr, id) {
                Some(t) => (&t.option_fields, false),
                None => {
                    return Err(ParseError::UnknownTemplate(*addr, id));
                },
            },
        };
        let width = total_ipfix_width(fields);
        if length < 4 || width == 0 {
            return Err(ParseError::InvalidLength);
        }
        if !fits(input, start, length as usize) {
            return Err(ParseError::Truncated);
        }
        let end = start + length as usize;
        let body = slice_subrange(input, 0, end);
        let count = ((length - 4) as u32 / width) as usize;
        let records = match decode_ipfix_records(body, start + 4, fields, count) {
            Ok((recs, _)) => recs,
            Err(e) => {
                return Err(e);
            },
        };
        let key = (*addr, id);
        if regular {
            Ok((
                Self {
                    length,
                    source_template: NetflowDatagramIPFIXSourceTemplateType::Regular(key),
                    records: NetflowDatagramIPFIXRecordsType::Regular(records),
                },
                end,
            ))
        } else {
            Ok((
                Self {
                    length,
                    source_template: NetflowDatagramIPFIXSourceTemplateType::Option(key),
                    records: NetflowDatagramIPFIXRecordsType::Option(records),
                },
                end,
            ))
        }
    }
}

} // verus!
