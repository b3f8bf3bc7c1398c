//! A store of templates keyed by source address and template identifier.
use vstd::prelude::*;
use crate::address::SourceAddr;

verus! {

/// The map that a list of registrations leaves: later entries for a key
/// replace earlier ones.
pub open spec fn entries_map<T: View>(s: Seq<(SourceAddr, u16, T)>) -> Map<(SourceAddr, u16), T::V>
    decreases s.len(),
{
    if s.len() == 0 {
        Map::empty()
    } else {
        entries_map(s.drop_last()).insert((s.last().0, s.last().1), s.last().2@)
    }
}

proof fn lemma_entries_map_update<T: View>(s: Seq<(SourceAddr, u16, T)>, i: int, x: (SourceAddr, u16, T))
    requires
        0 <= i < s.len(),
        s[i].0 == x.0 && s[i].1 == x.1,
        forall|j: int| i < j < s.len() ==> !(#[trigger] s[j].0 == x.0 && s[j].1 == x.1),
    ensures
        entries_map(s.update(i, x)) == entries_map(s).insert((x.0, x.1), x.2@),
    decreases s.len(),
{
    let t = s.update(i, x);
    if i == s.len() - 1 {
        assert(t.drop_last() =~= s.drop_last());
        assert(entries_map(t) =~= entries_map(s).insert((x.0, x.1), x.2@));
    } else {
        assert(t.drop_last() =~= s.drop_last().update(i, x));
        assert forall|j: int| i < j < s.drop_last().len() implies !(#[trigger] s.drop_last()[j].0
            == x.0 && s.drop_last()[j].1 == x.1) by {
            assert(s.drop_last()[j] == s[j]);
        }
        lemma_entries_map_update(s.drop_last(), i, x);
        let l = s.last();
        assert(!(l.0 == x.0 && l.1 == x.1)) by {
            assert(l == s[s.len() - 1]);
        }
        assert(entries_map(t) =~= entries_map(s).insert((x.0, x.1), x.2@));
    }
}

proof fn lemma_entries_map_found<T: View>(s: Seq<(SourceAddr, u16, T)>, i: int)
    requires
        0 <= i < s.len(),
        forall|j: int| i < j < s.len() ==> !(#[trigger] s[j].0 == s[i].0 && s[j].1 == s[i].1),
    ensures
        entries_map(s).contains_key((s[i].0, s[i].1)),
        entries_map(s)[(s[i].0, s[i].1)] == s[i].2@,
    decreases s.len(),
{
    if i < s.len() - 1 {
        assert forall|j: int| i < j < s.drop_last().len() implies !(#[trigger] s.drop_last()[j].0
            == s[i].0 && s.drop_last()[j].1 == s[i].1) by {
            assert(s.drop_last()[j] == s[j]);
        }
        assert(s.drop_last()[i] == s[i]);
        lemma_entries_map_found(s.drop_last(), i);
        assert(s.last() == s[s.len() - 1]);
    }
}

proof fn lemma_entries_map_absent<T: View>(s: Seq<(SourceAddr, u16, T)>, a: SourceAddr, id: u16)
    requires
        forall|j: int| 0 <= j < s.len() ==> !(#[trigger] s[j].0 == a && s[j].1 == id),
    ensures
        !entries_map(s).contains_key((a, id)),
    decreases s.len(),
{
    if s.len() > 0 {
        assert forall|j: int| 0 <= j < s.drop_last().len() implies !(
        #[trigger] s.drop_last()[j].0 == a && s.drop_last()[j].1 == id) by {
            assert(s.drop_last()[j] == s[j]);
        }
        lemma_entries_map_absent(s.drop_last(), a, id);
        assert(s.last() == s[s.len() - 1]);
    }
}

/// Templates by (source address, template identifier). Registering a key
/// again replaces what it held.
#[derive(Debug, Clone)]
pub struct TemplateStore<T> {
    entries: Vec<(SourceAddr, u16, T)>,
}

impl<T: View> TemplateStore<T> {
    /// What the store holds for each key.
    pub closed spec fn view(&self) -> Map<(SourceAddr, u16), T::V> {
        entries_map(self.entries@)
    }

    pub fn new() -> (r: Self)
        ensures
            r.view() == Map::<(SourceAddr, u16), T::V>::empty(),
    {
        TemplateStore { entries: Vec::new() }
    }

    /// The index of the last entry for the key, if any.
    fn find(&self, addr: &SourceAddr, id: u16) -> (r: Option<usize>)
        ensures
            match r {
                Some(i) => i < self.entries@.len() && self.entries@[i as int].0 == *addr
                    && self.entries@[i as int].1 == id && forall|j: int|
                    i < j < self.entries@.len() ==> !(#[trigger] self.entries@[j].0 == *addr
                        && self.entries@[j].1 == id),
                None => forall|j: int|
                    0 <= j < self.entries@.len() ==> !(#[trigger] self.entries@[j].0 == *addr
                        && self.entries@[j].1 == id),
            },
    {
        let mut i = self.entries.len();
        while i > 0
            invariant
                i <= self.entries@.len(),
                forall|j: int|
                    i <= j < self.entries@.len() ==> !(#[trigger] self.entries@[j].0 == *addr
                        && self.entries@[j].1 == id),
            decreases i,
        {
            let e = &self.entries[i - 1];
            if e.0 == *addr && e.1 == id {
                return Some(i - 1);
            }
            i -= 1;
        }
        None
    }

    /// What the store holds for the key.
    pub fn get(&self, addr: &SourceAddr, id: u16) -> (r: Option<&T>)
        ensures
            match r {
                Some(t) => self.view().contains_key((*addr, id)) && self.view()[(*addr, id)]
                    == t@,
                None => !self.view().contains_key((*addr, id)),
            },
    {
        match self.find(addr, id) {
            Some(i) => {
                proof {
                    lemma_entries_map_found(self.entries@, i as int);
                }
                Some(&self.entries[i].2)
            },
            None => {
                proof {
                    lemma_entries_map_absent(self.entries@, *addr, id);
                }
                None
            },
        }
    }

    /// Registers `value` for the key, replacing what the key held.
    pub fn insert(&mut self, addr: &SourceAddr, id: u16, value: T)
        ensures
            final(self).view() == old(self).view().insert((*addr, id), value@),
    {
        match self.find(addr, id) {
            Some(i) => {
                proof {
                    lemma_entries_map_update(self.entries@, i as int, (*addr, id, value));
                }
                self.entries.set(i, (*addr, id, value));
            },
            None => {
                self.entries.push((*addr, id, value));
                proof {
                    let s = self.entries@;
                    assert(s.drop_last() =~= old(self).entries@);
                }
            },
        }
    }
}

} // verus!
