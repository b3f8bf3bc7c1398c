//! The NetFlow decoder object, which owns the template registry.
use vstd::prelude::*;
use crate::address::SourceAddr;
use crate::datagram_v9_template::{
    copy_vec, NetflowDatagramOptionsTemplate, NetflowDatagramOptionsTemplateScopeField,
    NetflowDatagramOptionsTemplateSet, NetflowDatagramTemplate, NetflowDatagramTemplateField,
    NetflowDatagramTemplateSet,
};
use crate::datagram_ipfix_template::{
    NetflowDatagramIPFIXOptionsTemplateScopeField, NetflowDatagramIPFIXOptionsTemplateSet,
    NetflowDatagramIPFIXTemplateField, NetflowDatagramIPFIXTemplateSet,
};
use crate::registry::TemplateStore;

verus! {

/// What registering the first `n` templates of `set` for `addr` makes of `m`.
pub open spec fn v9_register_all(
    m: Map<(SourceAddr, u16), (u16, u16, Seq<NetflowDatagramTemplateField>)>,
    addr: SourceAddr,
    set: NetflowDatagramTemplateSet,
    n: nat,
) -> Map<(SourceAddr, u16), (u16, u16, Seq<NetflowDatagramTemplateField>)>
    decreases n,
{
    if n == 0 {
        m
    } else {
        let k = n - 1;
        v9_register_all(m, addr, set, k as nat).insert(
            (addr, set.template_ids@[k]),
            (set.template_ids@[k], set.field_counts@[k], set.fields_vec@[k]@),
        )
    }
}

/// What registering the first `n` options templates of `set` for `addr`
/// makes of `m`.
pub open spec fn v9_register_all_options(
    m: Map<
        (SourceAddr, u16),
        (
            u16,
            u16,
            u16,
            Seq<NetflowDatagramOptionsTemplateScopeField>,
            Seq<NetflowDatagramTemplateField>,
        ),
    >,
    addr: SourceAddr,
    set: NetflowDatagramOptionsTemplateSet,
    n: nat,
) -> Map<
    (SourceAddr, u16),
    (u16, u16, u16, Seq<NetflowDatagramOptionsTemplateScopeField>, Seq<NetflowDatagramTemplateField>),
>
    decreases n,
{
    if n == 0 {
        m
    } else {
        let k = n - 1;
        v9_register_all_options(m, addr, set, k as nat).insert(
            (addr, set.template_ids@[k]),
            (
                set.template_ids@[k],
                set.scope_fields_lengths@[k] / 4,
                set.option_fields_lengths@[k] / 4,
                set.scope_fields_vec@[k]@,
                set.option_fields_vec@[k]@,
            ),
        )
    }
}

/// Decodes NetFlow datagrams, keeping the templates and options templates
/// seen from each source address.
#[derive(Debug, Clone)]
pub struct NetflowParser {
    templates: TemplateStore<NetflowDatagramTemplate>,
    options_templates: TemplateStore<NetflowDatagramOptionsTemplate>,
    templates_ipfix: TemplateStore<NetflowDatagramIPFIXTemplateSet>,
    options_templates_ipfix: TemplateStore<NetflowDatagramIPFIXOptionsTemplateSet>,
}

impl NetflowParser {
    /// NetFlow v9 templates by source address and template identifier.
    pub closed spec fn v9_templates(&self) -> Map<
        (SourceAddr, u16),
        (u16, u16, Seq<NetflowDatagramTemplateField>),
    > {
        self.templates.view()
    }

    /// NetFlow v9 options templates by source address and template identifier.
    pub closed spec fn v9_options_templates(&self) -> Map<
        (SourceAddr, u16),
        (u16, u16, u16, Seq<NetflowDatagramOptionsTemplateScopeField>, Seq<NetflowDatagramTemplateField>),
    > {
        self.options_templates.view()
    }

    /// IPFIX template sets by source address and template identifier.
    pub closed spec fn ipfix_templates(&self) -> Map<
        (SourceAddr, u16),
        (u16, u16, u16, Seq<NetflowDatagramIPFIXTemplateField>),
    > {
        self.templates_ipfix.view()
    }

    /// IPFIX options template sets by source address and template identifier.
    pub closed spec fn ipfix_options_templates(&self) -> Map<
        (SourceAddr, u16),
        (
            u16,
            u16,
            u16,
            u16,
            Seq<NetflowDatagramIPFIXOptionsTemplateScopeField>,
            Seq<NetflowDatagramIPFIXTemplateField>,
        ),
    > {
        self.options_templates_ipfix.view()
    }

    /// Every stored template's field counts agree with its fields.
    pub open spec fn wf(&self) -> bool {
        &&& forall|k: (SourceAddr, u16)|
            #[trigger] self.v9_templates().contains_key(k) ==> self.v9_templates()[k].2.len()
                == self.v9_templates()[k].1
        &&& forall|k: (SourceAddr, u16)|
            #[trigger] self.v9_options_templates().contains_key(k) ==> {
                &&& self.v9_options_templates()[k].3.len() == self.v9_options_templates()[k].1
                &&& self.v9_options_templates()[k].4.len() == self.v9_options_templates()[k].2
            }
        &&& forall|k: (SourceAddr, u16)|
            #[trigger] self.ipfix_templates().contains_key(k) ==> self.ipfix_templates()[k].3.len()
                == self.ipfix_templates()[k].2
        &&& forall|k: (SourceAddr, u16)|
            #[trigger] self.ipfix_options_templates().contains_key(k) ==> {
                &&& self.ipfix_options_templates()[k].4.len() == self.ipfix_options_templates()[k].2
                    / 4
                &&& self.ipfix_options_templates()[k].5.len() == self.ipfix_options_templates()[k].3
                    / 4
            }
    }

    /// A decoder with no templates.
    pub fn new() -> (r: Self)
        ensures
            r.wf(),
            r.v9_templates() == Map::<
                (SourceAddr, u16),
                (u16, u16, Seq<NetflowDatagramTemplateField>),
            >::empty(),
            r.v9_options_templates() == Map::<
                (SourceAddr, u16),
                (
                    u16,
                    u16,
                    u16,
                    Seq<NetflowDatagramOptionsTemplateScopeField>,
                    Seq<NetflowDatagramTemplateField>,
                ),
            >::empty(),
            r.ipfix_templates().is_empty(),
            r.ipfix_options_templates().is_empty(),
    {
        NetflowParser {
            templates: TemplateStore::new(),
            options_templates: TemplateStore::new(),
            templates_ipfix: TemplateStore::new(),
            options_templates_ipfix: TemplateStore::new(),
        }
    }

    /// The v9 template registered for `addr` and `id`.
    pub fn v9_template(&self, addr: &SourceAddr, id: u16) -> (r: Option<&NetflowDatagramTemplate>)
        ensures
            match r {
                Some(t) => self.v9_templates().contains_key((*addr, id)) && self.v9_templates()[(
                *addr,
                id,
                )] == t@,
                None => !self.v9_templates().contains_key((*addr, id)),
            },
    {
        self.templates.get(addr, id)
    }

    /// The v9 options template registered for `addr` and `id`.
    pub fn v9_options_template(&self, addr: &SourceAddr, id: u16) -> (r: Option<
        &NetflowDatagramOptionsTemplate,
    >)
        ensures
            match r {
                Some(t) => self.v9_options_templates().contains_key((*addr, id))
                    && self.v9_options_templates()[(*addr, id)] == t@,
                None => !self.v9_options_templates().contains_key((*addr, id)),
            },
    {
        self.options_templates.get(addr, id)
    }

    /// Registers each template of `set` for `addr`, in order; a template
    /// replaces any earlier one with the same address and identifier.
    pub fn register_netflow_template(&mut self, set: &NetflowDatagramTemplateSet, addr: &SourceAddr)
        requires
            old(self).wf(),
            set.wf(),
        ensures
            final(self).wf(),
            final(self).v9_templates() == v9_register_all(
                old(self).v9_templates(),
                *addr,
                *set,
                set.template_ids@.len() as nat,
            ),
            final(self).v9_options_templates() == old(self).v9_options_templates(),
            final(self).ipfix_templates() == old(self).ipfix_templates(),
            final(self).ipfix_options_templates() == old(self).ipfix_options_templates(),
    {
        let mut i: usize = 0;
        while i < set.template_ids.len()
            invariant
                set.wf(),
                i <= set.template_ids@.len(),
                self.wf(),
                self.v9_templates() == v9_register_all(
                    old(self).v9_templates(),
                    *addr,
                    *set,
                    i as nat,
                ),
                self.v9_options_templates() == old(self).v9_options_templates(),
                self.ipfix_templates() == old(self).ipfix_templates(),
                self.ipfix_options_templates() == old(self).ipfix_options_templates(),
            decreases set.template_ids@.len() - i,
        {
            let t = NetflowDatagramTemplate {
                template_id: set.template_ids[i],
                field_count: set.field_counts[i],
                fields: copy_vec(&set.fields_vec[i]),
            };
            self.templates.insert(addr, t.template_id, t);
            i += 1;
        }
    }

    /// Registers each options template of `set` for `addr`, in order; a
    /// template replaces any earlier one with the same address and identifier.
    pub fn register_netflow_options_template(
        &mut self,
        set: &NetflowDatagramOptionsTemplateSet,
        addr: &SourceAddr,
    )
        requires
            old(self).wf(),
            set.wf(),
        ensures
            final(self).wf(),
            final(self).v9_options_templates() == v9_register_all_options(
                old(self).v9_options_templates(),
                *addr,
                *set,
                set.template_ids@.len() as nat,
            ),
            final(self).v9_templates() == old(self).v9_templates(),
            final(self).ipfix_templates() == old(self).ipfix_templates(),
            final(self).ipfix_options_templates() == old(self).ipfix_options_templates(),
    {
        let mut i: usize = 0;
        while i < set.template_ids.len()
            invariant
                set.wf(),
                i <= set.template_ids@.len(),
                self.wf(),
                self.v9_options_templates() == v9_register_all_options(
                    old(self).v9_options_templates(),
                    *addr,
                    *set,
                    i as nat,
                ),
                self.v9_templates() == old(self).v9_templates(),
                self.ipfix_templates() == old(self).ipfix_templates(),
                self.ipfix_options_templates() == old(self).ipfix_options_templates(),
            decreases set.template_ids@.len() - i,
        {
            let t = NetflowDatagramOptionsTemplate {
                template_id: set.template_ids[i],
                scope_field_count: set.scope_fields_lengths[i] / 4,
                option_field_count: set.option_fields_lengths[i] / 4,
                scope_fields: copy_vec(&set.scope_fields_vec[i]),
                option_fields: copy_vec(&set.option_fields_vec[i]),
            };
            self.options_templates.insert(addr, t.template_id, t);
            i += 1;
        }
    }

    /// The IPFIX template set registered for `addr` and `id`.
    pub fn ipfix_template(&self, addr: &SourceAddr, id: u16) -> (r: Option<
        &NetflowDatagramIPFIXTemplateSet,
    >)
        ensures
            match r {
                Some(t) => self.ipfix_templates().contains_key((*addr, id))
                    && self.ipfix_templates()[(*addr, id)] == t@,
                None => !self.ipfix_templates().contains_key((*addr, id)),
            },
    {
        self.templates_ipfix.get(addr, id)
    }

    /// The IPFIX options template set registered for `addr` and `id`.
    pub fn ipfix_options_template(&self, addr: &SourceAddr, id: u16) -> (r: Option<
        &NetflowDatagramIPFIXOptionsTemplateSet,
    >)
        ensures
            match r {
                Some(t) => self.ipfix_options_templates().contains_key((*addr, id))
                    && self.ipfix_options_templates()[(*addr, id)] == t@,
                None => !self.ipfix_options_templates().contains_key((*addr, id)),
            },
    {
        self.options_templates_ipfix.get(addr, id)
    }

    /// Registers the IPFIX template of `set` for `addr`, replacing any
    /// earlier one with the same address and identifier.
    pub fn register_netflow_ipfix_template(
        &mut self,
        set: &NetflowDatagramIPFIXTemplateSet,
        addr: &SourceAddr,
    )
        requires
            old(self).wf(),
            set.wf(),
        ensures
            final(self).wf(),
            final(self).ipfix_templates() == old(self).ipfix_templates().insert(
                (*addr, set.template_id),
                set@,
            ),
            final(self).ipfix_options_templates() == old(self).ipfix_options_templates(),
            final(self).v9_templates() == old(self).v9_templates(),
            final(self).v9_options_templates() == old(self).v9_options_templates(),
    {
        self.templates_ipfix.insert(addr, set.template_id, set.copy());
        proof {
            assert(self.v9_templates() == old(self).v9_templates());
            assert(self.v9_options_templates() == old(self).v9_options_templates());
            assert(self.ipfix_options_templates() == old(self).ipfix_options_templates());
            assert forall|k: (SourceAddr, u16)| #[trigger]
                self.ipfix_templates().contains_key(k) implies self.ipfix_templates()[k].3.len()
                == self.ipfix_templates()[k].2 by {
                if k != (*addr, set.template_id) {
                    assert(old(self).ipfix_templates().contains_key(k));
                }
            }
        }
    }

    /// Registers the IPFIX options template of `set` for `addr`, replacing
    /// any earlier one with the same address and identifier.
    pub fn register_netflow_ipfix_options_template(
        &mut self,
        set: &NetflowDatagramIPFIXOptionsTemplateSet,
        addr: &SourceAddr,
    )
        requires
            old(self).wf(),
            set.wf(),
        ensures
            final(self).wf(),
            final(self).ipfix_options_templates() == old(self).ipfix_options_templates().insert(
                (*addr, set.template_id),
                set@,
            ),
            final(self).ipfix_templates() == old(self).ipfix_templates(),
            final(self).v9_templates() == old(self).v9_templates(),
            final(self).v9_options_templates() == old(self).v9_options_templates(),
    {
        self.options_templates_ipfix.insert(addr, set.template_id, set.copy());
        proof {
            assert(self.v9_templates() == old(self).v9_templates());
            assert(self.v9_options_templates() == old(self).v9_options_templates());
            assert(self.ipfix_templates() == old(self).ipfix_templates());
            assert forall|k: (SourceAddr, u16)| #[trigger]
                self.ipfix_options_templates().contains_key(k) implies {
                &&& self.ipfix_options_templates()[k].4.len() == self.ipfix_options_templates()[k].2
                    / 4
                &&& self.ipfix_options_templates()[k].5.len() == self.ipfix_options_templates()[k].3
                    / 4
            } by {
                if k != (*addr, set.template_id) {
                    assert(old(self).ipfix_options_templates().contains_key(k));
                }
            }
        }
    }
}

} // verus!
