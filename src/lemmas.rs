//! Facts about decoding that relate several functions.
use vstd::prelude::*;
use crate::address::SourceAddr;
use crate::bytes::{be_at, u16_at};
use crate::datagram_ipfix_data::{
    ipfix_data_fields, ipfix_data_set_result, ipfix_field_matches, ipfix_field_size, is_bytes,
    NetflowDatagramIPFIXDataFlowSet, VARIABLE_LENGTH,
};
use crate::datagram_ipfix_template::{
    ipfix_fields_width, is_enterprise_type, NetflowDatagramIPFIXTemplateField,
    NetflowDatagramIPFIXTemplateSet,
};
use crate::datagram_v9_data::{
    is_number_width, v9_record_matches, v9_record_size, v9_data_fields, v9_data_set_result, v9_field_matches, v9_field_size,
    NetflowDatagramDataFlowSet, NetflowV9DataValue,
};
use crate::datagram_v9_template::{
    v9_fields_width, NetflowDatagramTemplateField, NetflowDatagramTemplateSet,
};
use crate::error::ParseError;
use crate::netflow_parser::{v9_register_all, NetflowParser};
use crate::netflow_v9_typemap::NetflowV9TypeHandlingMode;

verus! {

/// Registering the templates of a set for `a` changes nothing stored for
/// another address.
pub proof fn lemma_register_other_address(
    m: Map<(SourceAddr, u16), (u16, u16, Seq<NetflowDatagramTemplateField>)>,
    a: SourceAddr,
    set: NetflowDatagramTemplateSet,
    n: nat,
    k: (SourceAddr, u16),
)
    requires
        k.0 != a,
    ensures
        v9_register_all(m, a, set, n).contains_key(k) == m.contains_key(k),
        m.contains_key(k) ==> v9_register_all(m, a, set, n)[k] == m[k],
    decreases n,
{
    if n > 0 {
        lemma_register_other_address(m, a, set, (n - 1) as nat, k);
    }
}

/// After the templates of a set are registered for `a`, the template for
/// `a` and `t` is the last one of the set with identifier `t`.
pub proof fn lemma_register_last_wins(
    m: Map<(SourceAddr, u16), (u16, u16, Seq<NetflowDatagramTemplateField>)>,
    a: SourceAddr,
    set: NetflowDatagramTemplateSet,
    n: nat,
    i: int,
)
    requires
        0 <= i < n <= set.template_ids@.len(),
        forall|j: int| i < j < n ==> #[trigger] set.template_ids@[j] != set.template_ids@[i],
    ensures
        v9_register_all(m, a, set, n).contains_key((a, set.template_ids@[i])),
        v9_register_all(m, a, set, n)[(a, set.template_ids@[i])] == (
            set.template_ids@[i],
            set.field_counts@[i],
            set.fields_vec@[i]@,
        ),
    decreases n,
{
    if i < n - 1 {
        lemma_register_last_wins(m, a, set, (n - 1) as nat, i);
        assert(set.template_ids@[n - 1] != set.template_ids@[i]);
    }
}

/// Template scoping: registering templates for address `a` does not make a
/// template identifier resolvable for another address `b`. A data set from
/// `b` whose template was registered for neither kind fails with
/// `UnknownTemplate`.
pub proof fn lemma_template_scoping(
    before: NetflowParser,
    after: NetflowParser,
    a: SourceAddr,
    b: SourceAddr,
    set: NetflowDatagramTemplateSet,
    s: Seq<u8>,
    start: int,
    r: Result<(NetflowDatagramDataFlowSet, usize), ParseError>,
)
    requires
        a != b,
        after.v9_templates() == v9_register_all(
            before.v9_templates(),
            a,
            set,
            set.template_ids@.len() as nat,
        ),
        after.v9_options_templates() == before.v9_options_templates(),
        start + 4 <= s.len(),
        !before.v9_templates().contains_key((b, u16_at(s, start))),
        !before.v9_options_templates().contains_key((b, u16_at(s, start))),
        v9_data_set_result(s, start, b, after, r),
    ensures
        !after.v9_templates().contains_key((b, u16_at(s, start))),
        r == Err::<(NetflowDatagramDataFlowSet, usize), ParseError>(
            ParseError::UnknownTemplate(b, u16_at(s, start)),
        ),
{
    lemma_register_other_address(
        before.v9_templates(),
        a,
        set,
        set.template_ids@.len() as nat,
        (b, u16_at(s, start)),
    );
}

/// Template scoping for IPFIX: registering a template for address `a` does
/// not make its identifier resolvable for another address `b`, and a data
/// set from `b` with no template registered for it fails with
/// `UnknownTemplate`.
pub proof fn lemma_ipfix_template_scoping(
    before: NetflowParser,
    after: NetflowParser,
    a: SourceAddr,
    b: SourceAddr,
    set: NetflowDatagramIPFIXTemplateSet,
    s: Seq<u8>,
    start: int,
    r: Result<(NetflowDatagramIPFIXDataFlowSet, usize), ParseError>,
)
    requires
        a != b,
        after.ipfix_templates() == before.ipfix_templates().insert((a, set.template_id), set@),
        after.ipfix_options_templates() == before.ipfix_options_templates(),
        start + 4 <= s.len(),
        !before.ipfix_templates().contains_key((b, u16_at(s, start))),
        !before.ipfix_options_templates().contains_key((b, u16_at(s, start))),
        ipfix_data_set_result(s, start, b, after, r),
    ensures
        !after.ipfix_templates().contains_key((b, u16_at(s, start))),
        r == Err::<(NetflowDatagramIPFIXDataFlowSet, usize), ParseError>(
            ParseError::UnknownTemplate(b, u16_at(s, start)),
        ),
{
}

/// Overwrite: when a template set that defines identifier `t` (last at
/// index `i`) is registered for `a` after an earlier definition, data sets
/// from `a` with identifier `t` are decoded against the fields of the later
/// definition.
pub proof fn lemma_template_overwrite(
    before: NetflowParser,
    after: NetflowParser,
    a: SourceAddr,
    set: NetflowDatagramTemplateSet,
    i: int,
)
    requires
        0 <= i < set.template_ids@.len(),
        forall|j: int|
            i < j < set.template_ids@.len() ==> #[trigger] set.template_ids@[j]
                != set.template_ids@[i],
        after.v9_templates() == v9_register_all(
            before.v9_templates(),
            a,
            set,
            set.template_ids@.len() as nat,
        ),
    ensures
        after.v9_templates().contains_key((a, set.template_ids@[i])),
        v9_data_fields(after, (a, set.template_ids@[i])) == set.fields_vec@[i]@,
{
    lemma_register_last_wins(before.v9_templates(), a, set, set.template_ids@.len() as nat, i);
}

/// Overwrite for IPFIX: after a second template with the same identifier is
/// registered for `a`, data sets from `a` with that identifier are decoded
/// against the fields of the second one.
pub proof fn lemma_ipfix_template_overwrite(
    before: NetflowParser,
    middle: NetflowParser,
    after: NetflowParser,
    a: SourceAddr,
    first: NetflowDatagramIPFIXTemplateSet,
    second: NetflowDatagramIPFIXTemplateSet,
)
    requires
        first.template_id == second.template_id,
        middle.ipfix_templates() == before.ipfix_templates().insert((a, first.template_id), first@),
        after.ipfix_templates() == middle.ipfix_templates().insert(
            (a, second.template_id),
            second@,
        ),
    ensures
        after.ipfix_templates().contains_key((a, second.template_id)),
        ipfix_data_fields(after, (a, second.template_id)) == second.fields@,
{
}

/// Padding: a data set that decodes takes exactly its length `L` in bytes,
/// header, records and padding, and holds `(L - 4) / W` records for a
/// template of width `W`.
pub proof fn lemma_data_set_consumes_length(
    s: Seq<u8>,
    start: int,
    addr: SourceAddr,
    parser: NetflowParser,
    set: NetflowDatagramDataFlowSet,
    end: usize,
)
    requires
        v9_data_set_result(s, start, addr, parser, Ok((set, end))),
    ensures
        end == start + u16_at(s, start + 2),
        set.records.records().len() == (u16_at(s, start + 2) - 4) / (v9_fields_width(
            v9_data_fields(parser, (addr, u16_at(s, start))),
        ) as int),
{
}

/// Padding for IPFIX: a data set that decodes takes exactly its length `L`
/// in bytes, and holds `(L - 4) / W` records for a template of width `W`.
pub proof fn lemma_ipfix_data_set_consumes_length(
    s: Seq<u8>,
    start: int,
    addr: SourceAddr,
    parser: NetflowParser,
    set: NetflowDatagramIPFIXDataFlowSet,
    end: usize,
)
    requires
        ipfix_data_set_result(s, start, addr, parser, Ok((set, end))),
    ensures
        end == start + u16_at(s, start + 2),
        set.records.records().len() == (u16_at(s, start + 2) - 4) / (ipfix_fields_width(
            ipfix_data_fields(parser, (addr, u16_at(s, start))),
        ) as int),
{
}

/// Widths: a number field of width 1, 2, 3, 4 or 8 takes exactly that many
/// bytes and decodes to their big-endian unsigned value.
pub proof fn lemma_number_width_round_trip(
    s: Seq<u8>,
    p: int,
    f: NetflowDatagramTemplateField,
    d: crate::datagram_v9_data::NetflowV9DataField,
)
    requires
        f.mode() == Some(NetflowV9TypeHandlingMode::Number),
        is_number_width(f.field_length as int),
        v9_field_matches(s, p, f, d),
    ensures
        v9_field_size(f) == f.field_length,
        d.value == NetflowV9DataValue::Number(be_at(s, p, f.field_length as int) as u64),
{
}

/// Unknown types: a field whose type has the enterprise bit set, of a
/// declared length other than the variable-length marker, takes exactly
/// its declared length, whatever its bytes, and decodes to those bytes,
/// named "UNKNOWN".
pub proof fn lemma_enterprise_field_passthrough(
    t: Seq<u8>,
    q: int,
    f: NetflowDatagramIPFIXTemplateField,
    s: Seq<u8>,
    p: int,
    d: crate::datagram_ipfix_data::NetflowIPFIXDataField,
)
    requires
        f.parsed_from(t, q),
        is_enterprise_type(u16_at(t, q)),
        f.field_length != VARIABLE_LENGTH,
        ipfix_field_matches(s, p, f, d),
    ensures
        ipfix_field_size(s, p, f) == f.field_length,
        d.name@ == "UNKNOWN"@,
        is_bytes(d.value, s, p, p + f.field_length),
{
}

/// Overwrite, as data sets see it: after a set defining `t` (last at index
/// `i`) is registered for `a` over an earlier definition (`middle` holds
/// the earlier registrations), a data set from `a` with identifier `t`
/// that decodes holds `(L - 4) / W` regular records, each laid out as the
/// later definition's fields, `W` being that definition's width.
pub proof fn lemma_overwrite_data_set(
    middle: NetflowParser,
    after: NetflowParser,
    a: SourceAddr,
    second: NetflowDatagramTemplateSet,
    i: int,
    s: Seq<u8>,
    start: int,
    ds: NetflowDatagramDataFlowSet,
    end: usize,
)
    requires
        0 <= i < second.template_ids@.len(),
        forall|j: int|
            i < j < second.template_ids@.len() ==> #[trigger] second.template_ids@[j]
                != second.template_ids@[i],
        after.v9_templates() == v9_register_all(
            middle.v9_templates(),
            a,
            second,
            second.template_ids@.len() as nat,
        ),
        start + 4 <= s.len(),
        u16_at(s, start) == second.template_ids@[i],
        v9_data_set_result(s, start, a, after, Ok((ds, end))),
    ensures
        ds.records is Regular,
        ds.records.records().len() == (u16_at(s, start + 2) - 4) / (v9_fields_width(
            second.fields_vec@[i]@,
        ) as int),
        forall|k: int|
            0 <= k < ds.records.records().len() ==> v9_record_matches(
                s,
                start + 4 + k * v9_record_size(second.fields_vec@[i]@),
                second.fields_vec@[i]@,
                (#[trigger] ds.records.records()[k])@,
            ),
{
    lemma_register_last_wins(
        middle.v9_templates(),
        a,
        second,
        second.template_ids@.len() as nat,
        i,
    );
}

} // verus!
