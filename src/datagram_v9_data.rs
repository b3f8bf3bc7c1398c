//! NetFlow v9 data fields, records and data sets.
use vstd::prelude::*;
use crate::address::SourceAddr;
use crate::bytes::{be_at, fits, read_be, read_bytes, read_u128, read_u32, u128_at, u32_at};
use crate::datagram_v9_template::{v9_fields_width, NetflowDatagramTemplateField};
use crate::netflow_parser::NetflowParser;
use crate::error::ParseError;
use crate::netflow_v9_typemap::NetflowV9TypeHandlingMode;
use crate::text::{decode_utf8_lossy, mac_string, mac_text, utf8_lossy};

verus! {

/// A decoded data field value.
#[derive(Debug, Clone)]
pub enum NetflowV9DataValue {
    /// A 1, 2, 3, 4 or 8-byte unsigned number; other widths give `Unknown`
    Number(u64),
    /// IPv4 address, first octet most significant
    IPv4(u32),
    /// IPv6 address, first octet most significant
    IPv6(u128),
    /// MAC address in the form AA:BB:CC:DD:EE:FF
    MAC(String),
    /// Text, with invalid UTF-8 replaced
    String(String),
    /// Raw bytes of a field of unknown type or width
    Unknown(Vec<u8>),
}

/// A decoded data field: the name and numeric type of its field type
/// ("UNKNOWN" and 0 for an unknown type), and its value.
#[derive(Debug, Clone)]
pub struct NetflowV9DataField {
    pub name: &'static str,
    pub type_id: u16,
    pub value: NetflowV9DataValue,
}

/// The widths at which numbers are decoded.
pub open spec fn is_number_width(n: int) -> bool {
    n == 1 || n == 2 || n == 3 || n == 4 || n == 8
}

/// Bytes that a value of field `f` takes.
pub open spec fn v9_field_size(f: NetflowDatagramTemplateField) -> int {
    if f.mode() == Some(NetflowV9TypeHandlingMode::IPv4) {
        4
    } else if f.mode() == Some(NetflowV9TypeHandlingMode::IPv6) {
        16
    } else if f.mode() == Some(NetflowV9TypeHandlingMode::MAC) {
        6
    } else {
        f.field_length as int
    }
}

/// `v` is the value of field `f` written at `p`.
pub open spec fn v9_value_matches(
    s: Seq<u8>,
    p: int,
    f: NetflowDatagramTemplateField,
    v: NetflowV9DataValue,
) -> bool {
    let n = f.field_length as int;
    if f.mode() == Some(NetflowV9TypeHandlingMode::IPv4) {
        v == NetflowV9DataValue::IPv4(u32_at(s, p))
    } else if f.mode() == Some(NetflowV9TypeHandlingMode::IPv6) {
        v == NetflowV9DataValue::IPv6(u128_at(s, p))
    } else if f.mode() == Some(NetflowV9TypeHandlingMode::MAC) {
        match v {
            NetflowV9DataValue::MAC(t) => t@ == mac_text(s.subrange(p, p + 6)),
            _ => false,
        }
    } else if f.mode() == Some(NetflowV9TypeHandlingMode::String) {
        match v {
            NetflowV9DataValue::String(t) => t@ == utf8_lossy(s.subrange(p, p + n)),
            _ => false,
        }
    } else if f.mode() == Some(NetflowV9TypeHandlingMode::Number) && is_number_width(n) {
        v == NetflowV9DataValue::Number(be_at(s, p, n) as u64)
    } else {
        match v {
            NetflowV9DataValue::Unknown(b) => b@ == s.subrange(p, p + n),
            _ => false,
        }
    }
}

/// `d` is the field `f` decoded from the bytes at `p`.
pub open spec fn v9_field_matches(
    s: Seq<u8>,
    p: int,
    f: NetflowDatagramTemplateField,
    d: NetflowV9DataField,
) -> bool {
    &&& match f.field_type {
        Some(i) => d.name == i.name && d.type_id == i.type_id,
        None => d.name@ == "UNKNOWN"@ && d.type_id == 0,
    }
    &&& v9_value_matches(s, p, f, d.value)
}

impl NetflowV9DataField {
    /// Decodes the value of field `type_info` at `pos`.
    pub fn parse_from_datagram(input: &[u8], pos: usize, type_info: &NetflowDatagramTemplateField) -> (r: Result<
        (Self, usize),
        ParseError,
    >)
        ensures
            match r {
                Ok((d, end)) => pos + v9_field_size(*type_info) <= input@.len() && end == pos
                    + v9_field_size(*type_info) && v9_field_matches(input@, pos as int, *type_info, d),
                Err(e) => pos + v9_field_size(*type_info) > input@.len() && e == ParseError::Truncated,
            },
    {
        let n = type_info.field_length as usize;
        let (name, type_id, mode) = match type_info.field_type {
            Some(i) => (i.name, i.type_id, Some(i.mode)),
            None => ("UNKNOWN", 0u16, None),
        };
        let value = match mode {
            Some(NetflowV9TypeHandlingMode::IPv4) => {
                if !fits(input, pos, 4) {
                    return Err(ParseError::Truncated);
                }
                NetflowV9DataValue::IPv4(read_u32(input, pos))
            },
            Some(NetflowV9TypeHandlingMode::IPv6) => {
                if !fits(input, pos, 16) {
                    return Err(ParseError::Truncated);
                }
                NetflowV9DataValue::IPv6(read_u128(input, pos))
            },
            Some(NetflowV9TypeHandlingMode::MAC) => {
                if !fits(input, pos, 6) {
                    return Err(ParseError::Truncated);
                }
                NetflowV9DataValue::MAC(mac_string(input, pos))
            },
            Some(NetflowV9TypeHandlingMode::String) => {
                if !fits(input, pos, n) {
                    return Err(ParseError::Truncated);
                }
                let raw = read_bytes(input, pos, n);
                NetflowV9DataValue::String(decode_utf8_lossy(raw.as_slice()))
            },
            Some(NetflowV9TypeHandlingMode::Number) => {
                if !fits(input, pos, n) {
                    return Err(ParseError::Truncated);
                }
                if n == 1 || n == 2 || n == 3 || n == 4 || n == 8 {
                    NetflowV9DataValue::Number(read_be(input, pos, n))
                } else {
                    NetflowV9DataValue::Unknown(read_bytes(input, pos, n))
                }
            },
            None => {
                if !fits(input, pos, n) {
                    return Err(ParseError::Truncated);
                }
                NetflowV9DataValue::Unknown(read_bytes(input, pos, n))
            },
        };
        let end = match mode {
            Some(NetflowV9TypeHandlingMode::IPv4) => pos + 4,
            Some(NetflowV9TypeHandlingMode::IPv6) => pos + 16,
            Some(NetflowV9TypeHandlingMode::MAC) => pos + 6,
            _ => pos + n,
        };
        Ok((Self { name, type_id, value }, end))
    }
}

/// Bytes that one record of `fields` takes.
pub open spec fn v9_record_size(fields: Seq<NetflowDatagramTemplateField>) -> int
    decreases fields.len(),
{
    if fields.len() == 0 {
        0
    } else {
        v9_record_size(fields.drop_last()) + v9_field_size(fields.last())
    }
}

/// Where field `j` of a record starts, relative to the record.
pub open spec fn v9_field_offset(fields: Seq<NetflowDatagramTemplateField>, j: int) -> int {
    v9_record_size(fields.subrange(0, j))
}

/// `rec` is the record of `fields` written at `p`.
pub open spec fn v9_record_matches(
    s: Seq<u8>,
    p: int,
    fields: Seq<NetflowDatagramTemplateField>,
    rec: Seq<NetflowV9DataField>,
) -> bool {
    &&& rec.len() == fields.len()
    &&& forall|j: int|
        0 <= j < fields.len() ==> v9_field_matches(
            s,
            p + v9_field_offset(fields, j),
            fields[j],
            #[trigger] rec[j],
        )
}

proof fn lemma_v9_record_size_prefix(fields: Seq<NetflowDatagramTemplateField>, j: int)
    requires
        0 <= j <= fields.len(),
    ensures
        0 <= v9_record_size(fields.subrange(0, j)) <= v9_record_size(fields),
    decreases fields.len(),
{
    if fields.len() > 0 {
        if j == fields.len() {
            assert(fields.subrange(0, j) =~= fields);
            lemma_v9_record_size_prefix(fields.drop_last(), j - 1);
            assert(fields.drop_last().subrange(0, j - 1) =~= fields.drop_last());
        } else {
            assert(fields.drop_last().subrange(0, j) =~= fields.subrange(0, j));
            lemma_v9_record_size_prefix(fields.drop_last(), j);
        }
    }
}

fn v9_record_size_of(fields: &Vec<NetflowDatagramTemplateField>) -> (r: u64)
    requires
        fields@.len() <= 0xFFFF,
    ensures
        r == v9_record_size(fields@),
        r <= 0xFFFF * 0xFFFF,
{
    let mut acc: u64 = 0;
    let mut i: usize = 0;
    while i < fields.len()
        invariant
            i <= fields@.len() <= 0xFFFF,
            acc == v9_record_size(fields@.subrange(0, i as int)),
            acc <= i * 0xFFFF,
        decreases fields@.len() - i,
    {
        assert(fields@.subrange(0, i + 1).drop_last() =~= fields@.subrange(0, i as int));
        let f = fields[i];
        let size: u64 = match f.field_type {
            Some(t) => match t.mode {
                NetflowV9TypeHandlingMode::IPv4 => 4,
                NetflowV9TypeHandlingMode::IPv6 => 16,
                NetflowV9TypeHandlingMode::MAC => 6,
                _ => f.field_length as u64,
            },
            None => f.field_length as u64,
        };
        acc = acc + size;
        i += 1;
    }
    assert(fields@.subrange(0, i as int) =~= fields@);
    acc
}

/// Decodes one record of `fields` at `pos`.
fn decode_v9_record(input: &[u8], pos: usize, fields: &Vec<NetflowDatagramTemplateField>) -> (r: Result<
    (Vec<NetflowV9DataField>, usize),
    ParseError,
>)
    ensures
        match r {
            Ok((rec, end)) => pos + v9_record_size(fields@) <= input@.len() && end == pos
                + v9_record_size(fields@) && v9_record_matches(input@, pos as int, fields@, rec@),
            Err(e) => pos + v9_record_size(fields@) > input@.len() && e == ParseError::Truncated,
        },
{
    proof {
        lemma_v9_record_size_prefix(fields@, 0);
    }
    if !fits(input, pos, 0) {
        return Err(ParseError::Truncated);
    }
    let mut rec: Vec<NetflowV9DataField> = Vec::new();
    let mut cur = pos;
    let mut j: usize = 0;
    while j < fields.len()
        invariant
            j <= fields@.len(),
            cur <= input@.len(),
            cur == pos + v9_field_offset(fields@, j as int),
            rec@.len() == j,
            forall|i: int|
                0 <= i < j ==> v9_field_matches(
                    input@,
                    pos + v9_field_offset(fields@, i),
                    fields@[i],
                    #[trigger] rec@[i],
                ),
        decreases fields@.len() - j,
    {
        proof {
            assert(fields@.subrange(0, j + 1).drop_last() =~= fields@.subrange(0, j as int));
            lemma_v9_record_size_prefix(fields@, j + 1);
        }
        match NetflowV9DataField::parse_from_datagram(input, cur, &fields[j]) {
            Ok((d, next)) => {
                rec.push(d);
                cur = next;
            },
            Err(e) => {
                return Err(e);
            },
        }
        j += 1;
    }
    assert(fields@.subrange(0, j as int) =~= fields@);
    Ok((rec, cur))
}

/// Decodes `count` records of `fields`, one after another from `pos`.
fn decode_v9_records(
    input: &[u8],
    pos: usize,
    fields: &Vec<NetflowDatagramTemplateField>,
    count: usize,
) -> (r: Result<(Vec<Vec<NetflowV9DataField>>, usize), ParseError>)
    requires
        pos + count * v9_record_size(fields@) <= input@.len(),
    ensures
        match r {
            Ok((recs, end)) => end == pos + count * v9_record_size(fields@) && recs@.len() == count
                && forall|k: int|
                0 <= k < count ==> v9_record_matches(
                    input@,
                    pos + k * v9_record_size(fields@),
                    fields@,
                    (#[trigger] recs@[k])@,
                ),
            Err(_) => false,
        },
{
    let ghost size = v9_record_size(fields@);
    proof {
        lemma_v9_record_size_prefix(fields@, 0);
    }
    let mut recs: Vec<Vec<NetflowV9DataField>> = Vec::new();
    let mut cur = pos;
    let mut k: usize = 0;
    while k < count
        invariant
            k <= count,
            size == v9_record_size(fields@),
            size >= 0,
            pos + count * size <= input@.len(),
            cur == pos + k * size,
            recs@.len() == k,
            forall|i: int|
                0 <= i < k ==> v9_record_matches(
                    input@,
                    pos + i * size,
                    fields@,
                    (#[trigger] recs@[i])@,
                ),
        decreases count - k,
    {
        assert(cur + size <= pos + count * size) by (nonlinear_arith)
            requires
                cur == pos + k * size,
                k < count,
                size >= 0,
        ;
        match decode_v9_record(input, cur, fields) {
            Ok((rec, next)) => {
                recs.push(rec);
                cur = next;
            },
            Err(e) => {
                return Err(e);
            },
        }
        assert(cur == pos + (k + 1) * size) by (nonlinear_arith)
            requires
                cur == pos + k * size + size,
        ;
        k += 1;
    }
    Ok((recs, cur))
}

/// The records of a data set, by the kind of template they were decoded
/// against.
#[derive(Debug, Clone)]
pub enum NetflowDatagramRecordsType {
    Regular(Vec<Vec<NetflowV9DataField>>),
    Option(Vec<Vec<NetflowV9DataField>>),
}

impl NetflowDatagramRecordsType {
    /// The records, whatever the kind.
    pub open spec fn records(&self) -> Seq<Vec<NetflowV9DataField>> {
        match self {
            NetflowDatagramRecordsType::Regular(r) => r@,
            NetflowDatagramRecordsType::Option(r) => r@,
        }
    }
}

/// The template a data set was decoded against: its kind, source address
/// and identifier.
#[derive(Debug, Clone, Copy)]
pub enum NetflowDatagramSourceTemplateType {
    Regular((SourceAddr, u16)),
    Option((SourceAddr, u16)),
}

/// A data set: its length, the template it was decoded against, and its
/// records.
#[derive(Debug, Clone)]
pub struct NetflowDatagramDataFlowSet {
    pub length: u16,
    pub source_template: NetflowDatagramSourceTemplateType,
    pub records: NetflowDatagramRecordsType,
}

/// The fields that records of the template for `key` hold: those of the
/// regular template, else the option fields of the options template.
pub open spec fn v9_data_fields(parser: NetflowParser, key: (SourceAddr, u16)) -> Seq<
    NetflowDatagramTemplateField,
> {
    if parser.v9_templates().contains_key(key) {
        parser.v9_templates()[key].2
    } else {
        parser.v9_options_templates()[key].4
    }
}

/// What decoding a data set at `start` from `addr` against the templates of
/// `parser` gives.
pub open spec fn v9_data_set_result(
    input: Seq<u8>,
    start: int,
    addr: SourceAddr,
    parser: NetflowParser,
    r: Result<(NetflowDatagramDataFlowSet, usize), ParseError>,
) -> bool {
    &&& start + 4 > input.len() ==> r == Err::<(NetflowDatagramDataFlowSet, usize), ParseError>(
        ParseError::Truncated,
    )
    &&& start + 4 <= input.len() ==> {
        let s = input;
        let id = crate::bytes::u16_at(s, start as int);
        let len = crate::bytes::u16_at(s, start + 2) as int;
        let key = (addr, id);
        let regular = parser.v9_templates().contains_key(key);
        let known = regular || parser.v9_options_templates().contains_key(key);
        let fields = v9_data_fields(parser, key);
        let width = v9_fields_width(fields) as int;
        let size = v9_record_size(fields);
        if !known {
            r == Err::<(NetflowDatagramDataFlowSet, usize), ParseError>(ParseError::UnknownTemplate(addr, id))
        } else if len < 4 || width == 0 {
            r == Err::<(NetflowDatagramDataFlowSet, usize), ParseError>(ParseError::InvalidLength)
        } else if start + len > s.len() || ((len - 4) / width) * size > len - 4 {
            r == Err::<(NetflowDatagramDataFlowSet, usize), ParseError>(ParseError::Truncated)
        } else {
            match r {
                Ok((set, end)) => {
                    let count = (len - 4) / width;
                    &&& end == start + len
                    &&& set.length == len
                    &&& set.source_template == (if regular {
                        NetflowDatagramSourceTemplateType::Regular(key)
                    } else {
                        NetflowDatagramSourceTemplateType::Option(key)
                    })
                    &&& (set.records is Regular) == regular
                    &&& set.records.records().len() == count
                    &&& forall|k: int|
                        0 <= k < count ==> v9_record_matches(
                            s,
                            start + 4 + k * size,
                            fields,
                            (#[trigger] set.records.records()[k])@,
                        )
                },
                Err(_) => false,
            }
        }
    }
}

impl NetflowDatagramDataFlowSet {
    /// Decodes the data set whose identifier is at `start`, coming from
    /// `addr`, against the template registered for that address and
    /// identifier. With `W` the width of the template and `L` the set's
    /// length, the set holds `(L - 4) / W` records and ends `L` bytes after
    /// `start`; what the records leave is padding.
    pub fn parse_from_datagram(
        input: &[u8],
        start: usize,
        addr: &SourceAddr,
        parser: &NetflowParser,
    ) -> (r: Result<(Self, usize), ParseError>)
        requires
            parser.wf(),
        ensures
            v9_data_set_result(input@, start as int, *addr, *parser, r),
    {
        if !fits(input, start, 4) {
            return Err(ParseError::Truncated);
        }
        let id = crate::bytes::read_u16(input, start);
        let length = crate::bytes::read_u16(input, start + 2);
        let (fields, regular) = match parser.v9_template(addr, id) {
            Some(t) => (&t.fields, true),
            None => match parser.v9_options_template(addr, id) {
                Some(t) => (&t.option_fields, false),
                None => {
                    return Err(ParseError::UnknownTemplate(*addr, id));
                },
            },
        };
        let width = crate::datagram_v9_template::total_v9_width(fields);
        if length < 4 || width == 0 {
            return Err(ParseError::InvalidLength);
        }
        if !fits(input, start, length as usize) {
            return Err(ParseError::Truncated);
        }
        let count = ((length - 4) as u32 / width) as u64;
        let size = v9_record_size_of(fields);
        proof {
            lemma_v9_record_size_prefix(fields@, 0);
            assert(count * size <= 0xFFFF * 0xFFFF_FFFF) by (nonlinear_arith)
                requires
                    count <= 0xFFFF,
                    size <= 0xFFFF_FFFF,
            ;
        }
        if count * size > (length - 4) as u64 {
            return Err(ParseError::Truncated);
        }
        let records = match decode_v9_records(input, start + 4, fields, count as usize) {
            Ok((recs, _)) => recs,
            Err(e) => {
                return Err(e);
            },
        };
        let key = (*addr, id);
        if regular {
            Ok((
                Self {
                    length,
                    source_template: NetflowDatagramSourceTemplateType::Regular(key),
                    records: NetflowDatagramRecordsType::Regular(records),
                },
                start + length as usize,
            ))
        } else {
            Ok((
                Self {
                    length,
                    source_template: NetflowDatagramSourceTemplateType::Option(key),
                    records: NetflowDatagramRecordsType::Option(records),
                },
                start + length as usize,
            ))
        }
    }
}

} // verus!
