//! The two collaborators the translation consults: the identifier mapping between
//! the two builds, and the type database of generic parameters and declared types.
use vstd::prelude::*;
use crate::ty::{DefId, ParamDef, Ty};

verus! {

/// The first pair whose left side is `k`, read from the front.
pub open spec fn find_by_left(s: Seq<(DefId, DefId)>, k: DefId) -> Option<DefId>
    decreases s.len(),
{
    if s.len() == 0 {
        None
    } else if s[0].0 == k {
        Some(s[0].1)
    } else {
        find_by_left(s.drop_first(), k)
    }
}

/// The first pair whose right side is `k`, read from the front.
pub open spec fn find_by_right(s: Seq<(DefId, DefId)>, k: DefId) -> Option<DefId>
    decreases s.len(),
{
    if s.len() == 0 {
        None
    } else if s[0].1 == k {
        Some(s[0].0)
    } else {
        find_by_right(s.drop_first(), k)
    }
}

pub open spec fn find_param(s: Seq<(DefId, ParamDef)>, k: DefId) -> Option<ParamDef>
    decreases s.len(),
{
    if s.len() == 0 {
        None
    } else if s[0].0 == k {
        Some(s[0].1)
    } else {
        find_param(s.drop_first(), k)
    }
}

fn lookup_left(v: &Vec<(DefId, DefId)>, k: DefId) -> (r: Option<DefId>)
    ensures
        r == find_by_left(v@, k),
{
    let mut i: usize = 0;
    assert(v@.subrange(0, v@.len() as int) =~= v@);
    while i < v.len()
        invariant
            i <= v@.len(),
            find_by_left(v@, k) == find_by_left(v@.subrange(i as int, v@.len() as int), k),
        decreases v@.len() - i,
    {
        assert(v@.subrange(i as int, v@.len() as int).drop_first() =~= v@.subrange(
            i + 1,
            v@.len() as int,
        ));
        if v[i].0 == k {
            return Some(v[i].1);
        }
        i = i + 1;
    }
    None
}

fn lookup_right(v: &Vec<(DefId, DefId)>, k: DefId) -> (r: Option<DefId>)
    ensures
        r == find_by_right(v@, k),
{
    let mut i: usize = 0;
    assert(v@.subrange(0, v@.len() as int) =~= v@);
    while i < v.len()
        invariant
            i <= v@.len(),
            find_by_right(v@, k) == find_by_right(v@.subrange(i as int, v@.len() as int), k),
        decreases v@.len() - i,
    {
        assert(v@.subrange(i as int, v@.len() as int).drop_first() =~= v@.subrange(
            i + 1,
            v@.len() as int,
        ));
        if v[i].1 == k {
            return Some(v[i].0);
        }
        i = i + 1;
    }
    None
}

/// The partial, two-way mapping between the identifiers of the old and the new build.
pub struct IdMapping {
    old_crate: u32,
    new_crate: u32,
    /// Pairs of an old identifier and its new counterpart.
    pairs: Vec<(DefId, DefId)>,
    /// The canonical parameter definition of type parameters, by identifier.
    type_params: Vec<(DefId, ParamDef)>,
    /// Type parameters that have no counterpart and carry a default.
    non_mapped_defaulted: Vec<DefId>,
}

impl IdMapping {
    pub closed spec fn old_crate_spec(&self) -> u32 {
        self.old_crate
    }

    pub closed spec fn new_crate_spec(&self) -> u32 {
        self.new_crate
    }

    pub closed spec fn pairs_spec(&self) -> Seq<(DefId, DefId)> {
        self.pairs@
    }

    pub closed spec fn type_params_spec(&self) -> Seq<(DefId, ParamDef)> {
        self.type_params@
    }

    pub closed spec fn non_mapped_defaulted_spec(&self) -> Seq<DefId> {
        self.non_mapped_defaulted@
    }

    /// The two builds are told apart, and each identifier has at most one counterpart.
    pub open spec fn wf(&self) -> bool {
        &&& self.old_crate_spec() != self.new_crate_spec()
        &&& forall|i: int|
            0 <= i < self.pairs_spec().len() ==> {
                &&& (#[trigger] self.pairs_spec()[i]).0.krate == self.old_crate_spec()
                &&& self.pairs_spec()[i].1.krate == self.new_crate_spec()
            }
        &&& forall|i: int, j: int|
            0 <= i < j < self.pairs_spec().len() ==> {
                &&& (#[trigger] self.pairs_spec()[i]).0 != (#[trigger] self.pairs_spec()[j]).0
                &&& self.pairs_spec()[i].1 != self.pairs_spec()[j].1
            }
    }

    pub open spec fn in_old_crate_spec(&self, id: DefId) -> bool {
        id.krate == self.old_crate_spec()
    }

    pub open spec fn in_new_crate_spec(&self, id: DefId) -> bool {
        id.krate == self.new_crate_spec()
    }

    /// The new counterpart of `id`: looked up for an old identifier, none for a new
    /// one, and `id` itself for one of neither build.
    pub open spec fn new_id_spec(&self, id: DefId) -> Option<DefId> {
        if self.in_old_crate_spec(id) {
            find_by_left(self.pairs_spec(), id)
        } else if self.in_new_crate_spec(id) {
            None
        } else {
            Some(id)
        }
    }

    /// The old counterpart of `id`, symmetric to `new_id_spec`.
    pub open spec fn old_id_spec(&self, id: DefId) -> Option<DefId> {
        if self.in_new_crate_spec(id) {
            find_by_right(self.pairs_spec(), id)
        } else if self.in_old_crate_spec(id) {
            None
        } else {
            Some(id)
        }
    }

    /// An empty mapping between the builds `old_crate` and `new_crate`.
    pub fn new(old_crate: u32, new_crate: u32) -> (r: IdMapping)
        requires
            old_crate != new_crate,
        ensures
            r.wf(),
            r.old_crate_spec() == old_crate,
            r.new_crate_spec() == new_crate,
            r.pairs_spec() == Seq::<(DefId, DefId)>::empty(),
            r.type_params_spec() == Seq::<(DefId, ParamDef)>::empty(),
            r.non_mapped_defaulted_spec() == Seq::<DefId>::empty(),
    {
        IdMapping {
            old_crate,
            new_crate,
            pairs: Vec::new(),
            type_params: Vec::new(),
            non_mapped_defaulted: Vec::new(),
        }
    }

    /// Records that `old_id` has the counterpart `new_id`. Refused, with `false`,
    /// where `old_id` is not of the old build, `new_id` not of the new one, or either already
    /// has a counterpart.
    pub fn add_mapping(&mut self, old_id: DefId, new_id: DefId) -> (r: bool)
        requires
            old(self).wf(),
        ensures
            final(self).wf(),
            r == (old(self).in_old_crate_spec(old_id) && old(self).in_new_crate_spec(new_id)
                && find_by_left(old(self).pairs_spec(), old_id) is None && find_by_right(
                old(self).pairs_spec(),
                new_id,
            ) is None),
            final(self).pairs_spec() == if r {
                old(self).pairs_spec().push((old_id, new_id))
            } else {
                old(self).pairs_spec()
            },
            final(self).old_crate_spec() == old(self).old_crate_spec(),
            final(self).new_crate_spec() == old(self).new_crate_spec(),
            final(self).type_params_spec() == old(self).type_params_spec(),
            final(self).non_mapped_defaulted_spec() == old(self).non_mapped_defaulted_spec(),
    {
        if old_id.krate != self.old_crate || new_id.krate != self.new_crate {
            return false;
        }
        if lookup_left(&self.pairs, old_id).is_some() || lookup_right(&self.pairs, new_id).is_some() {
            return false;
        }
        proof {
            lemma_find_left_none(self.pairs@, old_id);
            lemma_find_right_none(self.pairs@, new_id);
        }
        self.pairs.push((old_id, new_id));
        true
    }

    /// Records the canonical definition of the type parameter `id`.
    pub fn add_type_param(&mut self, id: DefId, param: ParamDef)
        requires
            old(self).wf(),
        ensures
            final(self).wf(),
            final(self).type_params_spec() == old(self).type_params_spec().push((id, param)),
            final(self).pairs_spec() == old(self).pairs_spec(),
            final(self).old_crate_spec() == old(self).old_crate_spec(),
            final(self).new_crate_spec() == old(self).new_crate_spec(),
            final(self).non_mapped_defaulted_spec() == old(self).non_mapped_defaulted_spec(),
    {
        self.type_params.push((id, param));
        assert(self.pairs_spec() == old(self).pairs_spec());
    }

    /// Records that the type parameter `id` has no counterpart and carries a default.
    pub fn add_non_mapped_defaulted(&mut self, id: DefId)
        requires
            old(self).wf(),
        ensures
            final(self).wf(),
            final(self).non_mapped_defaulted_spec() == old(self).non_mapped_defaulted_spec().push(
                id,
            ),
            final(self).pairs_spec() == old(self).pairs_spec(),
            final(self).old_crate_spec() == old(self).old_crate_spec(),
            final(self).new_crate_spec() == old(self).new_crate_spec(),
            final(self).type_params_spec() == old(self).type_params_spec(),
    {
        self.non_mapped_defaulted.push(id);
        assert(self.pairs_spec() == old(self).pairs_spec());
    }

    pub fn in_old_crate(&self, id: DefId) -> (r: bool)
        ensures
            r == self.in_old_crate_spec(id),
    {
        id.krate == self.old_crate
    }

    pub fn in_new_crate(&self, id: DefId) -> (r: bool)
        ensures
            r == self.in_new_crate_spec(id),
    {
        id.krate == self.new_crate
    }

    pub fn get_new_id(&self, id: DefId) -> (r: Option<DefId>)
        ensures
            r == self.new_id_spec(id),
    {
        if self.in_old_crate(id) {
            lookup_left(&self.pairs, id)
        } else if self.in_new_crate(id) {
            None
        } else {
            Some(id)
        }
    }

    pub fn get_old_id(&self, id: DefId) -> (r: Option<DefId>)
        ensures
            r == self.old_id_spec(id),
    {
        if self.in_new_crate(id) {
            lookup_right(&self.pairs, id)
        } else if self.in_old_crate(id) {
            None
        } else {
            Some(id)
        }
    }

    /// The canonical definition of the type parameter `id`, if one was recorded.
    pub fn get_type_param(&self, id: DefId) -> (r: Option<ParamDef>)
        ensures
            r == find_param(self.type_params_spec(), id),
    {
        let mut i: usize = 0;
        assert(self.type_params@.subrange(0, self.type_params@.len() as int) =~= self.type_params@);
        while i < self.type_params.len()
            invariant
                i <= self.type_params@.len(),
                find_param(self.type_params@, id) == find_param(
                    self.type_params@.subrange(i as int, self.type_params@.len() as int),
                    id,
                ),
            decreases self.type_params@.len() - i,
        {
            assert(self.type_params@.subrange(i as int, self.type_params@.len() as int).drop_first()
                =~= self.type_params@.subrange(i + 1, self.type_params@.len() as int));
            if self.type_params[i].0 == id {
                return Some(self.type_params[i].1);
            }
            i = i + 1;
        }
        None
    }

    pub fn is_non_mapped_defaulted_type_param(&self, id: DefId) -> (r: bool)
        ensures
            r == self.non_mapped_defaulted_spec().contains(id),
    {
        let mut i: usize = 0;
        while i < self.non_mapped_defaulted.len()
            invariant
                i <= self.non_mapped_defaulted@.len(),
                forall|j: int| 0 <= j < i ==> self.non_mapped_defaulted@[j] != id,
            decreases self.non_mapped_defaulted@.len() - i,
        {
            if self.non_mapped_defaulted[i] == id {
                return true;
            }
            i = i + 1;
        }
        false
    }
}

proof fn lemma_find_left_none(s: Seq<(DefId, DefId)>, k: DefId)
    requires
        find_by_left(s, k) is None,
    ensures
        forall|i: int| 0 <= i < s.len() ==> (#[trigger] s[i]).0 != k,
    decreases s.len(),
{
    if s.len() > 0 {
        lemma_find_left_none(s.drop_first(), k);
        assert forall|i: int| 0 <= i < s.len() implies (#[trigger] s[i]).0 != k by {
            if i > 0 {
                assert(s[i] == s.drop_first()[i - 1]);
            }
        }
    }
}

proof fn lemma_find_right_none(s: Seq<(DefId, DefId)>, k: DefId)
    requires
        find_by_right(s, k) is None,
    ensures
        forall|i: int| 0 <= i < s.len() ==> (#[trigger] s[i]).1 != k,
    decreases s.len(),
{
    if s.len() > 0 {
        lemma_find_right_none(s.drop_first(), k);
        assert forall|i: int| 0 <= i < s.len() implies (#[trigger] s[i]).1 != k by {
            if i > 0 {
                assert(s[i] == s.drop_first()[i - 1]);
            }
        }
    }
}

proof fn lemma_find_left_some(s: Seq<(DefId, DefId)>, k: DefId)
    requires
        find_by_left(s, k) is Some,
    ensures
        exists|i: int| 0 <= i < s.len() && s[i] == (k, find_by_left(s, k)->0),
    decreases s.len(),
{
    if s[0].0 != k {
        lemma_find_left_some(s.drop_first(), k);
        let i = choose|i: int|
            0 <= i < s.drop_first().len() && s.drop_first()[i] == (k, find_by_left(s, k)->0);
        assert(s[i + 1] == s.drop_first()[i]);
    }
}

proof fn lemma_find_right_unique(s: Seq<(DefId, DefId)>, i: int)
    requires
        0 <= i < s.len(),
        forall|a: int, b: int| 0 <= a < b < s.len() ==> (#[trigger] s[a]).1 != (#[trigger] s[b]).1,
    ensures
        find_by_right(s, s[i].1) == Some(s[i].0),
    decreases s.len(),
{
    if i > 0 {
        assert(s[0].1 != s[i].1);
        assert(s.drop_first()[i - 1] == s[i]);
        assert forall|a: int, b: int|
            0 <= a < b < s.drop_first().len() implies (#[trigger] s.drop_first()[a]).1
            != (#[trigger] s.drop_first()[b]).1 by {
            assert(s.drop_first()[a] == s[a + 1]);
            assert(s.drop_first()[b] == s[b + 1]);
        }
        lemma_find_right_unique(s.drop_first(), i - 1);
    }
}

/// Round trip: an identifier that the mapping sends to the new build is sent back
/// to itself by the mapping to the old build.
pub proof fn lemma_round_trip(m: IdMapping, id: DefId)
    requires
        m.wf(),
        m.new_id_spec(id) is Some,
    ensures
        m.old_id_spec(m.new_id_spec(id)->0) == Some(id),
{
    if m.in_old_crate_spec(id) {
        let n = m.new_id_spec(id)->0;
        lemma_find_left_some(m.pairs_spec(), id);
        let i = choose|i: int| 0 <= i < m.pairs_spec().len() && m.pairs_spec()[i] == (id, n);
        assert(m.pairs_spec()[i].1.krate == m.new_crate_spec());
        lemma_find_right_unique(m.pairs_spec(), i);
    }
}

} // verus!
