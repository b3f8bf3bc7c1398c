//! IPFIX templates and options templates.
use vstd::prelude::*;
use crate::bytes::{fits, read_u16, read_u32, u16_at, u32_at};
use crate::datagram_v9_template::copy_vec;
use crate::error::ParseError;
use crate::netflow_ipfix_typemap::{
    ipfix_scope_type, ipfix_type_mode, netflow_ipfix_type_info, NetflowIPFIXScopeType,
    NetflowIPFIXTypeHandlingMode, NetflowIPFIXTypeInfo,
};

verus! {

/// One field of an IPFIX template: its type, as found in the table of known
/// types (`None` for an unknown or enterprise-specific type), its numeric
/// type, its length in bytes (`0xFFFF` for variable length), and the
/// enterprise number of an enterprise-specific type.
#[derive(Debug, Clone, Copy)]
pub struct NetflowDatagramIPFIXTemplateField {
    pub field_type: Option<NetflowIPFIXTypeInfo>,
    pub field_type_id: u16,
    pub field_length: u16,
    pub field_enterprise_id: Option<u32>,
}

/// Whether a field type has the enterprise bit (bit 15) set.
pub open spec fn is_enterprise_type(t: u16) -> bool {
    t >= 0x8000
}

/// Bytes that the field descriptor at `p` takes: eight with an enterprise
/// number, else four.
pub open spec fn ipfix_descriptor_size(s: Seq<u8>, p: int) -> int {
    if is_enterprise_type(u16_at(s, p)) {
        8
    } else {
        4
    }
}

impl NetflowDatagramIPFIXTemplateField {
    /// How values of this field are decoded.
    pub open spec fn mode(&self) -> Option<NetflowIPFIXTypeHandlingMode> {
        match self.field_type {
            Some(i) => Some(i.mode),
            None => None,
        }
    }

    /// This field is the descriptor written at `pos`.
    pub open spec fn parsed_from(&self, s: Seq<u8>, pos: int) -> bool {
        &&& self.field_type_id == u16_at(s, pos)
        &&& self.field_length == u16_at(s, pos + 2)
        &&& if is_enterprise_type(self.field_type_id) {
            self.field_type is None && self.field_enterprise_id == Some(u32_at(s, pos + 4))
        } else {
            &&& self.mode() == ipfix_type_mode(self.field_type_id)
            &&& self.field_enterprise_id is None
            &&& (self.field_type matches Some(i) ==> i.type_id == self.field_type_id)
        }
    }

    /// Decodes the field descriptor at `pos`: type and length, then an
    /// enterprise number where the type has its top bit set.
    pub fn parse_from_datagram(input: &[u8], pos: usize) -> (r: Result<(Self, usize), ParseError>)
        ensures
            match r {
                Ok((f, end)) => pos + ipfix_descriptor_size(input@, pos as int) <= input@.len()
                    && end == pos + ipfix_descriptor_size(input@, pos as int) && f.parsed_from(
                    input@,
                    pos as int,
                ),
                Err(e) => pos + ipfix_descriptor_size(input@, pos as int) > input@.len() && e
                    == ParseError::Truncated,
            },
    {
        if !fits(input, pos, 4) {
            return Err(ParseError::Truncated);
        }
        let field_type_id = read_u16(input, pos);
        let field_length = read_u16(input, pos + 2);
        if field_type_id >= 0x8000 {
            if !fits(input, pos, 8) {
                return Err(ParseError::Truncated);
            }
            let enterprise = read_u32(input, pos + 4);
            Ok((
                Self {
                    field_type: None,
                    field_type_id,
                    field_length,
                    field_enterprise_id: Some(enterprise),
                },
                pos + 8,
            ))
        } else {
            let field_type = netflow_ipfix_type_info(field_type_id);
            Ok((
                Self { field_type, field_type_id, field_length, field_enterprise_id: None },
                pos + 4,
            ))
        }
    }
}

/// Where the `j`-th of a run of field descriptors starts, the first at `p`.
pub open spec fn ipfix_descriptor_offset(s: Seq<u8>, p: int, j: nat) -> int
    decreases j,
{
    if j == 0 {
        p
    } else {
        let q = ipfix_descriptor_offset(s, p, (j - 1) as nat);
        q + ipfix_descriptor_size(s, q)
    }
}

/// `count` field descriptors from `p` lie within `s`.
pub open spec fn ipfix_descriptors_fit(s: Seq<u8>, p: int, count: nat) -> bool {
    &&& p <= s.len()
    &&& forall|j: nat|
        j < count ==> #[trigger] ipfix_descriptor_offset(s, p, j) + ipfix_descriptor_size(
            s,
            ipfix_descriptor_offset(s, p, j),
        ) <= s.len()
}

/// `fields` are the descriptors written one after another from `p`.
pub open spec fn ipfix_fields_at(s: Seq<u8>, p: int, fields: Seq<NetflowDatagramIPFIXTemplateField>) -> bool {
    forall|j: int|
        0 <= j < fields.len() ==> #[trigger] fields[j].parsed_from(
            s,
            ipfix_descriptor_offset(s, p, j as nat),
        )
}

/// Decodes `count` field descriptors from `pos`.
fn parse_ipfix_fields(input: &[u8], pos: usize, count: usize) -> (r: Result<
    (Vec<NetflowDatagramIPFIXTemplateField>, usize),
    ParseError,
>)
    ensures
        match r {
            Ok((fields, end)) => ipfix_descriptors_fit(input@, pos as int, count as nat) && end
                == ipfix_descriptor_offset(input@, pos as int, count as nat) && fields@.len()
                == count && ipfix_fields_at(input@, pos as int, fields@),
            Err(e) => !ipfix_descriptors_fit(input@, pos as int, count as nat) && e
                == ParseError::Truncated,
        },
{
    if !fits(input, pos, 0) {
        return Err(ParseError::Truncated);
    }
    let mut fields: Vec<NetflowDatagramIPFIXTemplateField> = Vec::new();
    let mut cur = pos;
    let mut i: usize = 0;
    while i < count
        invariant
            i <= count,
            pos <= input@.len(),
            cur == ipfix_descriptor_offset(input@, pos as int, i as nat),
            cur <= input@.len(),
            fields@.len() == i,
            forall|j: nat|
                j < i ==> #[trigger] ipfix_descriptor_offset(input@, pos as int, j)
                    + ipfix_descriptor_size(input@, ipfix_descriptor_offset(input@, pos as int, j))
                    <= input@.len(),
            ipfix_fields_at(input@, pos as int, fields@),
        decreases count - i,
    {
        match NetflowDatagramIPFIXTemplateField::parse_from_datagram(input, cur) {
            Ok((f, next)) => {
                fields.push(f);
                cur = next;
            },
            Err(e) => {
                assert(ipfix_descriptor_offset(input@, pos as int, i as nat) + ipfix_descriptor_size(
                    input@,
                    ipfix_descriptor_offset(input@, pos as int, i as nat),
                ) > input@.len());
                return Err(e);
            },
        }
        i += 1;
    }
    Ok((fields, cur))
}

/// The sum of the declared lengths of `fields`.
pub open spec fn ipfix_fields_width(fields: Seq<NetflowDatagramIPFIXTemplateField>) -> nat
    decreases fields.len(),
{
    if fields.len() == 0 {
        0
    } else {
        ipfix_fields_width(fields.drop_last()) + fields.last().field_length as nat
    }
}

pub(crate) fn total_ipfix_width(fields: &Vec<NetflowDatagramIPFIXTemplateField>) -> (r: u32)
    requires
        fields@.len() <= 0xFFFF,
    ensures
        r == ipfix_fields_width(fields@),
{
    let mut acc: u32 = 0;
    let mut i: usize = 0;
    while i < fields.len()
        invariant
            i <= fields@.len() <= 0xFFFF,
            acc == ipfix_fields_width(fields@.subrange(0, i as int)),
            acc <= i * 0xFFFF,
        decreases fields@.len() - i,
    {
        assert(fields@.subrange(0, i + 1).drop_last() =~= fields@.subrange(0, i as int));
        acc = acc + fields[i].field_length as u32;
        i += 1;
    }
    assert(fields@.subrange(0, i as int) =~= fields@);
    acc
}

/// An IPFIX template set: one template.
#[derive(Debug, Clone)]
pub struct NetflowDatagramIPFIXTemplateSet {
    pub length: u16,
    pub template_id: u16,
    pub field_count: u16,
    pub fields: Vec<NetflowDatagramIPFIXTemplateField>,
}

/// What decoding an IPFIX template set at `start` gives: the set length,
/// template identifier and field count, then that many field descriptors.
pub open spec fn ipfix_template_set_result(
    s: Seq<u8>,
    start: int,
    r: Result<(NetflowDatagramIPFIXTemplateSet, usize), ParseError>,
) -> bool {
    if start + 8 > s.len() {
        r == Err::<(NetflowDatagramIPFIXTemplateSet, usize), ParseError>(ParseError::Truncated)
    } else {
        let count = u16_at(s, start + 6) as nat;
        if !ipfix_descriptors_fit(s, start + 8, count) {
            r == Err::<(NetflowDatagramIPFIXTemplateSet, usize), ParseError>(
                ParseError::Truncated,
            )
        } else {
            match r {
                Ok((set, end)) => {
                    &&& end == ipfix_descriptor_offset(s, start + 8, count)
                    &&& set.length == u16_at(s, start + 2)
                    &&& set.template_id == u16_at(s, start + 4)
                    &&& set.field_count == count
                    &&& set.wf()
                    &&& ipfix_fields_at(s, start + 8, set.fields@)
                },
                Err(_) => false,
            }
        }
    }
}

impl NetflowDatagramIPFIXTemplateSet {
    /// The field count agrees with the fields.
    pub open spec fn wf(&self) -> bool {
        self.fields@.len() == self.field_count
    }

    /// Decodes the template set whose identifier is at `start`.
    pub fn parse_from_datagram(input: &[u8], start: usize) -> (r: Result<(Self, usize), ParseError>)
        ensures
            ipfix_template_set_result(input@, start as int, r),
    {
        if !fits(input, start, 8) {
            return Err(ParseError::Truncated);
        }
        let length = read_u16(input, start + 2);
        let template_id = read_u16(input, start + 4);
        let field_count = read_u16(input, start + 6);
        match parse_ipfix_fields(input, start + 8, field_count as usize) {
            Ok((fields, end)) => Ok((Self { length, template_id, field_count, fields }, end)),
            Err(e) => Err(e),
        }
    }

    /// The total length of all template fields: the width of one record.
    pub fn total_field_length(&self) -> (r: u32)
        requires
            self.wf(),
        ensures
            r == ipfix_fields_width(self.fields@),
    {
        total_ipfix_width(&self.fields)
    }
}

/// One scope field of an IPFIX options template.
#[derive(Debug, Clone, Copy)]
pub struct NetflowDatagramIPFIXOptionsTemplateScopeField {
    pub field_type: Option<NetflowIPFIXScopeType>,
    pub field_length: u16,
}

impl NetflowDatagramIPFIXOptionsTemplateScopeField {
    /// This scope field is the descriptor written in the four bytes at `pos`.
    pub open spec fn parsed_from(&self, s: Seq<u8>, pos: int) -> bool {
        &&& self.field_type == ipfix_scope_type(u16_at(s, pos))
        &&& self.field_length == u16_at(s, pos + 2)
    }

    /// Decodes the scope field descriptor (type, length) at `pos`.
    pub fn parse_from_datagram(input: &[u8], pos: usize) -> (r: Result<(Self, usize), ParseError>)
        ensures
            match r {
                Ok((f, end)) => pos + 4 <= input@.len() && end == pos + 4 && f.parsed_from(
                    input@,
                    pos as int,
                ),
                Err(e) => pos + 4 > input@.len() && e == ParseError::Truncated,
            },
    {
        if !fits(input, pos, 4) {
            return Err(ParseError::Truncated);
        }
        let type_num = read_u16(input, pos);
        let field_length = read_u16(input, pos + 2);
        let field_type = NetflowIPFIXScopeType::try_from(type_num).ok();
        Ok((Self { field_type, field_length }, pos + 4))
    }
}

/// `fields` are the scope descriptors written one after another from `pos`.
pub open spec fn ipfix_scope_fields_at(
    s: Seq<u8>,
    pos: int,
    fields: Seq<NetflowDatagramIPFIXOptionsTemplateScopeField>,
) -> bool {
    forall|j: int| 0 <= j < fields.len() ==> #[trigger] fields[j].parsed_from(s, pos + 4 * j)
}

fn parse_ipfix_scope_fields(input: &[u8], pos: usize, count: usize) -> (r: Result<
    (Vec<NetflowDatagramIPFIXOptionsTemplateScopeField>, usize),
    ParseError,
>)
    ensures
        match r {
            Ok((fields, end)) => pos + 4 * count <= input@.len() && end == pos + 4 * count
                && fields@.len() == count && ipfix_scope_fields_at(input@, pos as int, fields@),
            Err(e) => pos + 4 * count > input@.len() && e == ParseError::Truncated,
        },
{
    if !fits(input, pos, 0) {
        return Err(ParseError::Truncated);
    }
    let mut fields: Vec<NetflowDatagramIPFIXOptionsTemplateScopeField> = Vec::new();
    let mut cur = pos;
    let mut i: usize = 0;
    while i < count
        invariant
            i <= count,
            cur == pos + 4 * i,
            cur <= input@.len(),
            fields@.len() == i,
            ipfix_scope_fields_at(input@, pos as int, fields@),
        decreases count - i,
    {
        match NetflowDatagramIPFIXOptionsTemplateScopeField::parse_from_datagram(input, cur) {
            Ok((f, next)) => {
                fields.push(f);
                cur = next;
            },
            Err(e) => {
                return Err(e);
            },
        }
        i += 1;
    }
    Ok((fields, cur))
}

/// An IPFIX options template set: one options template.
#[derive(Debug, Clone)]
pub struct NetflowDatagramIPFIXOptionsTemplateSet {
    pub length: u16,
    pub template_id: u16,
    pub scope_fields_length: u16,
    pub option_fields_length: u16,
    pub scope_fields: Vec<NetflowDatagramIPFIXOptionsTemplateScopeField>,
    pub option_fields: Vec<NetflowDatagramIPFIXTemplateField>,
}

/// What decoding an IPFIX options template set at `start` gives: the
/// header, `scope_fields_length / 4` scope descriptors and
/// `option_fields_length / 4` option descriptors, then
/// `length - (10 + scope_fields_length + option_fields_length)` bytes of
/// padding.
pub open spec fn ipfix_options_template_set_result(
    s: Seq<u8>,
    start: int,
    r: Result<(NetflowDatagramIPFIXOptionsTemplateSet, usize), ParseError>,
) -> bool {
    if start + 10 > s.len() {
        r == Err::<(NetflowDatagramIPFIXOptionsTemplateSet, usize), ParseError>(
            ParseError::Truncated,
        )
    } else {
        let len = u16_at(s, start + 2) as int;
        let sl = u16_at(s, start + 6) as int;
        let ol = u16_at(s, start + 8) as int;
        let opt_start = start + 10 + 4 * (sl / 4);
        let opt_end = ipfix_descriptor_offset(s, opt_start, (ol / 4) as nat);
        let padding = len - (10 + sl + ol);
        if padding < 0 {
            r == Err::<(NetflowDatagramIPFIXOptionsTemplateSet, usize), ParseError>(
                ParseError::InvalidLength,
            )
        } else if opt_start > s.len() || !ipfix_descriptors_fit(s, opt_start, (ol / 4) as nat)
            || opt_end + padding > s.len() {
            r == Err::<(NetflowDatagramIPFIXOptionsTemplateSet, usize), ParseError>(
                ParseError::Truncated,
            )
        } else {
            match r {
                Ok((set, end)) => {
                    &&& end == opt_end + padding
                    &&& set.length == len
                    &&& set.template_id == u16_at(s, start + 4)
                    &&& set.scope_fields_length == sl
                    &&& set.option_fields_length == ol
                    &&& set.wf()
                    &&& ipfix_scope_fields_at(s, start + 10, set.scope_fields@)
                    &&& ipfix_fields_at(s, opt_start, set.option_fields@)
                },
                Err(_) => false,
            }
        }
    }
}

impl NetflowDatagramIPFIXOptionsTemplateSet {
    /// The descriptor counts agree with the descriptor lengths.
    pub open spec fn wf(&self) -> bool {
        &&& self.scope_fields@.len() == self.scope_fields_length / 4
        &&& self.option_fields@.len() == self.option_fields_length / 4
    }

    /// Decodes the options template set whose identifier is at `start`.
    pub fn parse_from_datagram(input: &[u8], start: usize) -> (r: Result<(Self, usize), ParseError>)
        ensures
            ipfix_options_template_set_result(input@, start as int, r),
    {
        if !fits(input, start, 10) {
            return Err(ParseError::Truncated);
        }
        let length = read_u16(input, start + 2);
        let template_id = read_u16(input, start + 4);
        let scope_fields_length = read_u16(input, start + 6);
        let option_fields_length = read_u16(input, start + 8);
        if (length as u32) < 10 + scope_fields_length as u32 + option_fields_length as u32 {
            return Err(ParseError::InvalidLength);
        }
        let padding = (length as u32 - (10 + scope_fields_length as u32
            + option_fields_length as u32)) as usize;
        let (scope_fields, next) = match parse_ipfix_scope_fields(
            input,
            start + 10,
            (scope_fields_length / 4) as usize,
        ) {
            Ok(p) => p,
            Err(e) => {
                return Err(e);
            },
        };
        let (option_fields, next) = match parse_ipfix_fields(
            input,
            next,
            (option_fields_length / 4) as usize,
        ) {
            Ok(p) => p,
            Err(e) => {
                return Err(e);
            },
        };
        if !fits(input, next, padding) {
            return Err(ParseError::Truncated);
        }
        Ok((
            Self {
                length,
                template_id,
                scope_fields_length,
                option_fields_length,
                scope_fields,
                option_fields,
            },
            next + padding,
        ))
    }

    /// The total length of all option fields: the width of one record.
    pub fn total_field_length(&self) -> (r: u32)
        requires
            self.wf(),
        ensures
            r == ipfix_fields_width(self.option_fields@),
    {
        total_ipfix_width(&self.option_fields)
    }
}

impl View for NetflowDatagramIPFIXTemplateSet {
    /// Length, identifier, field count and fields.
    type V = (u16, u16, u16, Seq<NetflowDatagramIPFIXTemplateField>);

    open spec fn view(&self) -> Self::V {
        (self.length, self.template_id, self.field_count, self.fields@)
    }
}

impl View for NetflowDatagramIPFIXOptionsTemplateSet {
    /// Length, identifier, descriptor lengths, scope and option fields.
    type V = (
        u16,
        u16,
        u16,
        u16,
        Seq<NetflowDatagramIPFIXOptionsTemplateScopeField>,
        Seq<NetflowDatagramIPFIXTemplateField>,
    );

    open spec fn view(&self) -> Self::V {
        (
            self.length,
            self.template_id,
            self.scope_fields_length,
            self.option_fields_length,
            self.scope_fields@,
            self.option_fields@,
        )
    }
}

impl NetflowDatagramIPFIXTemplateSet {
    /// A copy of this set.
    pub fn copy(&self) -> (r: Self)
        ensures
            r@ == self@,
    {
        Self {
            length: self.length,
            template_id: self.template_id,
            field_count: self.field_count,
            fields: copy_vec(&self.fields),
        }
    }
}

impl NetflowDatagramIPFIXOptionsTemplateSet {
    /// A copy of this set.
    pub fn copy(&self) -> (r: Self)
        ensures
            r@ == self@,
    {
        Self {
            length: self.length,
            template_id: self.template_id,
            scope_fields_length: self.scope_fields_length,
            option_fields_length: self.option_fields_length,
            scope_fields: copy_vec(&self.scope_fields),
            option_fields: copy_vec(&self.option_fields),
        }
    }
}

} // verus!
