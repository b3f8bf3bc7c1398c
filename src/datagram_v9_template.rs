//! NetFlow v9 templates and options templates, and the sets that carry them.
use vstd::prelude::*;
use crate::bytes::{fits, read_u16, u16_at};
use crate::error::ParseError;
use crate::netflow_v9_typemap::{
    netflow_v9_type_info, v9_scope_type, v9_type_mode, NetflowTypeInfo, NetflowV9ScopeType,
    NetflowV9TypeHandlingMode,
};

verus! {

/// One field of a template: its type, as found in the table of known types
/// (`None` for an unknown type), its numeric type and its length in bytes.
#[derive(Debug, Clone, Copy)]
pub struct NetflowDatagramTemplateField {
    pub field_type: Option<NetflowTypeInfo>,
    pub field_type_id: u16,
    pub field_length: u16,
}

impl NetflowDatagramTemplateField {
    /// How values of this field are decoded.
    pub open spec fn mode(&self) -> Option<NetflowV9TypeHandlingMode> {
        match self.field_type {
            Some(i) => Some(i.mode),
            None => None,
        }
    }

    /// This field is the descriptor written in the four bytes at `pos`.
    pub open spec fn parsed_from(&self, s: Seq<u8>, pos: int) -> bool {
        &&& self.field_type_id == u16_at(s, pos)
        &&& self.field_length == u16_at(s, pos + 2)
        &&& self.mode() == v9_type_mode(self.field_type_id)
        &&& (self.field_type matches Some(i) ==> i.type_id == self.field_type_id)
    }

    /// Decodes the field descriptor (type, length) at `pos`.
    pub fn parse_from_datagram(input: &[u8], pos: usize) -> (r: Result<(Self, usize), ParseError>)
        ensures
            match r {
                Ok((f, end)) => pos + 4 <= input@.len() && end == pos + 4 && f.parsed_from(
                    input@,
                    pos as int,
                ),
                Err(e) => pos + 4 > input@.len() && e == ParseError::Truncated,
            },
    {
        if !fits(input, pos, 4) {
            return Err(ParseError::Truncated);
        }
        let field_type_id = read_u16(input, pos);
        let field_length = read_u16(input, pos + 2);
        let field_type = netflow_v9_type_info(field_type_id);
        Ok((Self { field_type, field_type_id, field_length }, pos + 4))
    }
}

/// `fields` are the descriptors written one after another from `pos`.
pub open spec fn v9_fields_at(s: Seq<u8>, pos: int, fields: Seq<NetflowDatagramTemplateField>) -> bool {
    forall|j: int| 0 <= j < fields.len() ==> #[trigger] fields[j].parsed_from(s, pos + 4 * j)
}

/// Decodes `count` field descriptors from `pos`.
pub(crate) fn parse_v9_fields(input: &[u8], pos: usize, count: usize) -> (r: Result<
    (Vec<NetflowDatagramTemplateField>, usize),
    ParseError,
>)
    ensures
        match r {
            Ok((fields, end)) => pos + 4 * count <= input@.len() && end == pos + 4 * count
                && fields@.len() == count && v9_fields_at(input@, pos as int, fields@),
            Err(e) => pos + 4 * count > input@.len() && e == ParseError::Truncated,
        },
{
    if !fits(input, pos, 0) {
        return Err(ParseError::Truncated);
    }
    let mut fields: Vec<NetflowDatagramTemplateField> = Vec::new();
    let mut cur = pos;
    let mut i: usize = 0;
    while i < count
        invariant
            i <= count,
            cur == pos + 4 * i,
            cur <= input@.len(),
            fields@.len() == i,
            v9_fields_at(input@, pos as int, fields@),
        decreases count - i,
    {
        match NetflowDatagramTemplateField::parse_from_datagram(input, cur) {
            Ok((f, next)) => {
                fields.push(f);
                cur = next;
            },
            Err(e) => {
                return Err(e);
            },
        }
        i += 1;
    }
    Ok((fields, cur))
}

/// The sum of the declared lengths of `fields`.
pub open spec fn v9_fields_width(fields: Seq<NetflowDatagramTemplateField>) -> nat
    decreases fields.len(),
{
    if fields.len() == 0 {
        0
    } else {
        v9_fields_width(fields.drop_last()) + fields.last().field_length as nat
    }
}

pub(crate) fn total_v9_width(fields: &Vec<NetflowDatagramTemplateField>) -> (r: u32)
    requires
        fields@.len() <= 0xFFFF,
    ensures
        r == v9_fields_width(fields@),
{
    let mut acc: u32 = 0;
    let mut i: usize = 0;
    while i < fields.len()
        invariant
            i <= fields@.len() <= 0xFFFF,
            acc == v9_fields_width(fields@.subrange(0, i as int)),
            acc <= i * 0xFFFF,
        decreases fields@.len() - i,
    {
        assert(fields@.subrange(0, i + 1).drop_last() =~= fields@.subrange(0, i as int));
        acc = acc + fields[i].field_length as u32;
        i += 1;
    }
    assert(fields@.subrange(0, i as int) =~= fields@);
    acc
}

/// A template: the schema of the records of one kind of data set.
#[derive(Debug, Clone)]
pub struct NetflowDatagramTemplate {
    pub template_id: u16,
    pub field_count: u16,
    pub fields: Vec<NetflowDatagramTemplateField>,
}

impl NetflowDatagramTemplate {
    /// The field count agrees with the fields.
    pub open spec fn wf(&self) -> bool {
        self.fields@.len() == self.field_count
    }

    /// The total length of all template fields: the width of one record.
    pub fn total_field_length(&self) -> (r: u32)
        requires
            self.wf(),
        ensures
            r == v9_fields_width(self.fields@),
    {
        total_v9_width(&self.fields)
    }
}

/// Bytes taken by the template record at `p`: identifier, count and four
/// bytes per field.
pub open spec fn v9_template_record_len(s: Seq<u8>, p: int) -> int {
    4 + 4 * u16_at(s, p + 2)
}

/// The template records from `p` fill the bytes up to `end` exactly.
pub open spec fn v9_template_records_fit(s: Seq<u8>, p: int, end: int) -> bool
    decreases end - p,
{
    if p >= end {
        p == end
    } else {
        &&& p + 4 <= end
        &&& p + v9_template_record_len(s, p) <= end
        &&& v9_template_records_fit(s, p + v9_template_record_len(s, p), end)
    }
}

/// How many template records start between `p` and `end`.
pub open spec fn v9_template_record_count(s: Seq<u8>, p: int, end: int) -> nat
    decreases end - p,
{
    if p >= end || p + 4 > end || p + v9_template_record_len(s, p) > end {
        0
    } else {
        1 + v9_template_record_count(s, p + v9_template_record_len(s, p), end)
    }
}

/// Where the `k`-th template record starts, the first starting at `p`.
pub open spec fn v9_template_record_offset(s: Seq<u8>, p: int, k: nat) -> int
    decreases k,
{
    if k == 0 {
        p
    } else {
        let q = v9_template_record_offset(s, p, (k - 1) as nat);
        q + v9_template_record_len(s, q)
    }
}

/// A template set: the templates it defines, by parallel vectors.
#[derive(Debug, Clone)]
pub struct NetflowDatagramTemplateSet {
    pub length: u16,
    pub template_ids: Vec<u16>,
    pub field_counts: Vec<u16>,
    pub fields_vec: Vec<Vec<NetflowDatagramTemplateField>>,
}

/// What decoding a template set at `start` gives.
pub open spec fn v9_template_set_result(input: Seq<u8>, start: int, r: Result<(NetflowDatagramTemplateSet, usize), ParseError>) -> bool {
    &&& start + 4 > input.len() ==> r == Err::<(NetflowDatagramTemplateSet, usize), ParseError>(
        ParseError::Truncated,
    )
    &&& start + 4 <= input.len() ==> {
        let len = u16_at(input, start + 2) as int;
        let end = start + len;
        match r {
            Ok((set, e)) => len >= 4 && end <= input.len() && e == end
                && v9_template_records_fit(input, start + 4, end) && set.parsed_from(
                input,
                start as int,
                end,
            ),
            Err(ParseError::InvalidLength) => len < 4 || (end <= input.len()
                && !v9_template_records_fit(input, start + 4, end)),
            Err(ParseError::Truncated) => len >= 4 && end > input.len(),
            Err(_) => false,
        }
    }
}

impl NetflowDatagramTemplateSet {
    /// The vectors agree in length and with the field counts.
    pub open spec fn wf(&self) -> bool {
        &&& self.field_counts@.len() == self.template_ids@.len()
        &&& self.fields_vec@.len() == self.template_ids@.len()
        &&& forall|k: int|
            0 <= k < self.template_ids@.len() ==> #[trigger] self.fields_vec@[k]@.len()
                == self.field_counts@[k]
    }

    /// The `k`-th template of this set is the record written at `p`.
    pub open spec fn template_at(&self, k: int, s: Seq<u8>, p: int) -> bool {
        &&& self.template_ids@[k] == u16_at(s, p)
        &&& self.field_counts@[k] == u16_at(s, p + 2)
        &&& v9_fields_at(s, p + 4, self.fields_vec@[k]@)
    }

    /// The set decoded from the bytes of the set starting at `start` (its
    /// identifier), which end at `end`.
    pub open spec fn parsed_from(&self, s: Seq<u8>, start: int, end: int) -> bool {
        &&& self.wf()
        &&& self.length == u16_at(s, start + 2)
        &&& self.template_ids@.len() == v9_template_record_count(s, start + 4, end)
        &&& forall|k: int|
            0 <= k < self.template_ids@.len() ==> #[trigger] self.template_at(
                k,
                s,
                v9_template_record_offset(s, start + 4, k as nat),
            )
    }

    /// Decodes the template set whose identifier is at `start`. The set's
    /// length counts from `start`; its template records must fill it.
    pub fn parse_from_datagram(input: &[u8], start: usize) -> (r: Result<(Self, usize), ParseError>)
        ensures
            v9_template_set_result(input@, start as int, r),
    {
        if !fits(input, start, 4) {
            return Err(ParseError::Truncated);
        }
        let length = read_u16(input, start + 2);
        if length < 4 {
            return Err(ParseError::InvalidLength);
        }
        if !fits(input, start, length as usize) {
            return Err(ParseError::Truncated);
        }
        let end = start + length as usize;
        let mut template_ids: Vec<u16> = Vec::new();
        let mut field_counts: Vec<u16> = Vec::new();
        let mut fields_vec: Vec<Vec<NetflowDatagramTemplateField>> = Vec::new();
        let mut cur = start + 4;
        let ghost s = input@;
        let ghost first = start + 4;
        while cur < end
            invariant
                first <= cur <= end <= s.len(),
                s == input@,
                end == start + length,
                length == u16_at(s, start + 2),
                length >= 4,
                first == start + 4,
                v9_template_records_fit(s, first, end as int) == v9_template_records_fit(s, cur as int, end as int),
                v9_template_record_count(s, first, end as int) == template_ids@.len()
                    + v9_template_record_count(s, cur as int, end as int),
                cur == v9_template_record_offset(s, first, template_ids@.len() as nat),
                field_counts@.len() == template_ids@.len(),
                fields_vec@.len() == template_ids@.len(),
                forall|k: int|
                    0 <= k < template_ids@.len() ==> #[trigger] fields_vec@[k]@.len()
                        == field_counts@[k],
                forall|k: int|
                    0 <= k < template_ids@.len() ==> {
                        &&& #[trigger] template_ids@[k] == u16_at(
                            s,
                            v9_template_record_offset(s, first, k as nat),
                        )
                        &&& field_counts@[k] == u16_at(
                            s,
                            v9_template_record_offset(s, first, k as nat) + 2,
                        )
                        &&& v9_fields_at(
                            s,
                            v9_template_record_offset(s, first, k as nat) + 4,
                            fields_vec@[k]@,
                        )
                    },
            decreases end - cur,
        {
            if end - cur < 4 {
                return Err(ParseError::InvalidLength);
            }
            let template_id = read_u16(input, cur);
            let field_count = read_u16(input, cur + 2);
            if (end - cur - 4) / 4 < field_count as usize {
                assert((end - cur - 4) < 4 * field_count) by (nonlinear_arith)
                    requires
                        (end - cur - 4) / 4 < field_count as usize,
                ;
                return Err(ParseError::InvalidLength);
            }
            let (fields, next) = match parse_v9_fields(input, cur + 4, field_count as usize) {
                Ok(p) => p,
                Err(e) => {
                    return Err(e);
                },
            };
            template_ids.push(template_id);
            field_counts.push(field_count);
            fields_vec.push(fields);
            cur = next;
        }
        let set = Self { length, template_ids, field_counts, fields_vec };
        assert forall|k: int| 0 <= k < set.template_ids@.len() implies #[trigger] set.template_at(
            k,
            s,
            v9_template_record_offset(s, first, k as nat),
        ) by {
            assert(template_ids@[k] == u16_at(s, v9_template_record_offset(s, first, k as nat)));
        }
        Ok((set, end))
    }
}

/// One scope field of an options template: its scope type (`None` for an
/// unknown one) and its length in bytes.
#[derive(Debug, Clone, Copy)]
pub struct NetflowDatagramOptionsTemplateScopeField {
    pub field_type: Option<NetflowV9ScopeType>,
    pub field_length: u16,
}

impl NetflowDatagramOptionsTemplateScopeField {
    /// This scope field is the descriptor written in the four bytes at `pos`.
    pub open spec fn parsed_from(&self, s: Seq<u8>, pos: int) -> bool {
        &&& self.field_type == v9_scope_type(u16_at(s, pos))
        &&& self.field_length == u16_at(s, pos + 2)
    }

    /// Decodes the scope field descriptor (type, length) at `pos`.
    pub fn parse_from_datagram(input: &[u8], pos: usize) -> (r: Result<(Self, usize), ParseError>)
        ensures
            match r {
                Ok((f, end)) => pos + 4 <= input@.len() && end == pos + 4 && f.parsed_from(
                    input@,
                    pos as int,
                ),
                Err(e) => pos + 4 > input@.len() && e == ParseError::Truncated,
            },
    {
        if !fits(input, pos, 4) {
            return Err(ParseError::Truncated);
        }
        let type_num = read_u16(input, pos);
        let field_length = read_u16(input, pos + 2);
        let field_type = NetflowV9ScopeType::try_from(type_num).ok();
        Ok((Self { field_type, field_length }, pos + 4))
    }
}

/// `fields` are the scope descriptors written one after another from `pos`.
pub open spec fn v9_scope_fields_at(
    s: Seq<u8>,
    pos: int,
    fields: Seq<NetflowDatagramOptionsTemplateScopeField>,
) -> bool {
    forall|j: int| 0 <= j < fields.len() ==> #[trigger] fields[j].parsed_from(s, pos + 4 * j)
}

fn parse_v9_scope_fields(input: &[u8], pos: usize, count: usize) -> (r: Result<
    (Vec<NetflowDatagramOptionsTemplateScopeField>, usize),
    ParseError,
>)
    ensures
        match r {
            Ok((fields, end)) => pos + 4 * count <= input@.len() && end == pos + 4 * count
                && fields@.len() == count && v9_scope_fields_at(input@, pos as int, fields@),
            Err(e) => pos + 4 * count > input@.len() && e == ParseError::Truncated,
        },
{
    if !fits(input, pos, 0) {
        return Err(ParseError::Truncated);
    }
    let mut fields: Vec<NetflowDatagramOptionsTemplateScopeField> = Vec::new();
    let mut cur = pos;
    let mut i: usize = 0;
    while i < count
        invariant
            i <= count,
            cur == pos + 4 * i,
            cur <= input@.len(),
            fields@.len() == i,
            v9_scope_fields_at(input@, pos as int, fields@),
        decreases count - i,
    {
        match NetflowDatagramOptionsTemplateScopeField::parse_from_datagram(input, cur) {
            Ok((f, next)) => {
                fields.push(f);
                cur = next;
            },
            Err(e) => {
                return Err(e);
            },
        }
        i += 1;
    }
    Ok((fields, cur))
}

/// An options template: scope fields, then the option fields that data
/// records decoded against it hold.
#[derive(Debug, Clone)]
pub struct NetflowDatagramOptionsTemplate {
    pub template_id: u16,
    pub scope_field_count: u16,
    pub option_field_count: u16,
    pub scope_fields: Vec<NetflowDatagramOptionsTemplateScopeField>,
    pub option_fields: Vec<NetflowDatagramTemplateField>,
}

impl NetflowDatagramOptionsTemplate {
    /// The field counts agree with the fields.
    pub open spec fn wf(&self) -> bool {
        &&& self.scope_fields@.len() == self.scope_field_count
        &&& self.option_fields@.len() == self.option_field_count
    }

    /// The total length of all option fields: the width of one record.
    pub fn total_field_length(&self) -> (r: u32)
        requires
            self.wf(),
        ensures
            r == v9_fields_width(self.option_fields@),
    {
        total_v9_width(&self.option_fields)
    }
}

/// An options template set: one options template, held as the single entry
/// of each of these vectors.
#[derive(Debug, Clone)]
pub struct NetflowDatagramOptionsTemplateSet {
    pub length: u16,
    pub template_ids: Vec<u16>,
    pub scope_fields_lengths: Vec<u16>,
    pub option_fields_lengths: Vec<u16>,
    pub scope_fields_vec: Vec<Vec<NetflowDatagramOptionsTemplateScopeField>>,
    pub option_fields_vec: Vec<Vec<NetflowDatagramTemplateField>>,
}

/// What decoding an options template set at `start` gives: the set length
/// `L`, template identifier, scope fields length `S` and option fields
/// length `O`, then `S / 4` scope descriptors and `O / 4` option
/// descriptors; the rest of the set, `L - (10 + S + O)` bytes when `S` and
/// `O` are multiples of four, is padding and is skipped.
pub open spec fn v9_options_template_set_result(
    input: Seq<u8>,
    start: int,
    r: Result<(NetflowDatagramOptionsTemplateSet, usize), ParseError>,
) -> bool {
    if start + 10 > input.len() {
        r == Err::<(NetflowDatagramOptionsTemplateSet, usize), ParseError>(ParseError::Truncated)
    } else {
        let len = u16_at(input, start + 2) as int;
        let sl = u16_at(input, start + 6) as int;
        let ol = u16_at(input, start + 8) as int;
        if len < 10 + sl + ol {
            r == Err::<(NetflowDatagramOptionsTemplateSet, usize), ParseError>(
                ParseError::InvalidLength,
            )
        } else if start + len > input.len() {
            r == Err::<(NetflowDatagramOptionsTemplateSet, usize), ParseError>(
                ParseError::Truncated,
            )
        } else {
            match r {
                Ok((set, e)) => e == start + len && set.parsed_from(input, start),
                Err(_) => false,
            }
        }
    }
}

impl NetflowDatagramOptionsTemplateSet {
    /// The vectors agree in length, and each descriptor length is four bytes
    /// per descriptor.
    pub open spec fn wf(&self) -> bool {
        &&& self.scope_fields_lengths@.len() == self.template_ids@.len()
        &&& self.option_fields_lengths@.len() == self.template_ids@.len()
        &&& self.scope_fields_vec@.len() == self.template_ids@.len()
        &&& self.option_fields_vec@.len() == self.template_ids@.len()
        &&& forall|k: int|
            0 <= k < self.template_ids@.len() ==> {
                &&& #[trigger] self.scope_fields_vec@[k]@.len() == self.scope_fields_lengths@[k]
                    / 4
                &&& self.option_fields_vec@[k]@.len() == self.option_fields_lengths@[k] / 4
            }
    }

    /// The `k`-th options template of this set is the record written at `p`.
    pub open spec fn template_at(&self, k: int, s: Seq<u8>, p: int) -> bool {
        &&& self.template_ids@[k] == u16_at(s, p)
        &&& self.scope_fields_lengths@[k] == u16_at(s, p + 2)
        &&& self.option_fields_lengths@[k] == u16_at(s, p + 4)
        &&& v9_scope_fields_at(s, p + 6, self.scope_fields_vec@[k]@)
        &&& v9_fields_at(s, p + 6 + 4 * (u16_at(s, p + 2) / 4), self.option_fields_vec@[k]@)
    }

    /// The set decoded from the bytes of the set starting at `start`: one
    /// options template, whose record follows the set length.
    pub open spec fn parsed_from(&self, s: Seq<u8>, start: int) -> bool {
        &&& self.wf()
        &&& self.length == u16_at(s, start + 2)
        &&& self.template_ids@.len() == 1
        &&& self.template_at(0, s, start + 4)
    }

    /// Decodes the options template set whose identifier is at `start`: one
    /// options template, then padding up to the end of the set.
    pub fn parse_from_datagram(input: &[u8], start: usize) -> (r: Result<(Self, usize), ParseError>)
        ensures
            v9_options_template_set_result(input@, start as int, r),
    {
        if !fits(input, start, 10) {
            return Err(ParseError::Truncated);
        }
        let length = read_u16(input, start + 2);
        let template_id = read_u16(input, start + 4);
        let scope_fields_length = read_u16(input, start + 6);
        let option_fields_length = read_u16(input, start + 8);
        if (length as u32) < 10 + scope_fields_length as u32 + option_fields_length as u32 {
            return Err(ParseError::InvalidLength);
        }
        if !fits(input, start, length as usize) {
            return Err(ParseError::Truncated);
        }
        let scope_count = (scope_fields_length / 4) as usize;
        let option_count = (option_fields_length / 4) as usize;
        let (scope_fields, next) = match parse_v9_scope_fields(input, start + 10, scope_count) {
            Ok(p) => p,
            Err(e) => {
                return Err(e);
            },
        };
        let (option_fields, _) = match parse_v9_fields(input, next, option_count) {
            Ok(p) => p,
            Err(e) => {
                return Err(e);
            },
        };
        let mut template_ids: Vec<u16> = Vec::new();
        template_ids.push(template_id);
        let mut scope_fields_lengths: Vec<u16> = Vec::new();
        scope_fields_lengths.push(scope_fields_length);
        let mut option_fields_lengths: Vec<u16> = Vec::new();
        option_fields_lengths.push(option_fields_length);
        let mut scope_fields_vec: Vec<Vec<NetflowDatagramOptionsTemplateScopeField>> = Vec::new();
        scope_fields_vec.push(scope_fields);
        let mut option_fields_vec: Vec<Vec<NetflowDatagramTemplateField>> = Vec::new();
        option_fields_vec.push(option_fields);
        let set = Self {
            length,
            template_ids,
            scope_fields_lengths,
            option_fields_lengths,
            scope_fields_vec,
            option_fields_vec,
        };
        assert(set.template_at(0, input@, start + 4));
        Ok((set, start + length as usize))
    }
}

impl View for NetflowDatagramTemplate {
    /// Identifier, field count and fields.
    type V = (u16, u16, Seq<NetflowDatagramTemplateField>);

    open spec fn view(&self) -> Self::V {
        (self.template_id, self.field_count, self.fields@)
    }
}

impl View for NetflowDatagramOptionsTemplate {
    /// Identifier, scope and option field counts, scope and option fields.
    type V = (
        u16,
        u16,
        u16,
        Seq<NetflowDatagramOptionsTemplateScopeField>,
        Seq<NetflowDatagramTemplateField>,
    );

    open spec fn view(&self) -> Self::V {
        (
            self.template_id,
            self.scope_field_count,
            self.option_field_count,
            self.scope_fields@,
            self.option_fields@,
        )
    }
}

/// A copy of a vector of plain values.
pub fn copy_vec<T: Copy>(v: &Vec<T>) -> (r: Vec<T>)
    ensures
        r@ == v@,
{
    let mut r: Vec<T> = Vec::new();
    let mut i: usize = 0;
    while i < v.len()
        invariant
            i <= v@.len(),
            r@ == v@.subrange(0, i as int),
        decreases v@.len() - i,
    {
        r.push(v[i]);
        i += 1;
        assert(r@ =~= v@.subrange(0, i as int));
    }
    assert(v@.subrange(0, i as int) =~= v@);
    r
}

} // verus!
