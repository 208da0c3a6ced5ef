//! The type database: generic parameters, self types and declared types of items.
use vstd::prelude::*;
use crate::ty::{DefId, ParamDef, ParamKind, Ty};
use crate::copy::copy_ty;

verus! {

/// The generic parameters of an item.
pub struct Generics {
    /// The enclosing item whose parameters precede this item's own.
    pub parent: Option<DefId>,
    /// The item's own parameters, in index order.
    pub params: Vec<ParamDef>,
    /// Whether the item admits a self type at index 0.
    pub has_self: bool,
}

pub open spec fn find_generics(s: Seq<(DefId, Generics)>, k: DefId) -> Option<Generics>
    decreases s.len(),
{
    if s.len() == 0 {
        None
    } else if s[0].0 == k {
        Some(s[0].1)
    } else {
        find_generics(s.drop_first(), k)
    }
}

pub open spec fn find_type(s: Seq<(DefId, Ty)>, k: DefId) -> Option<Ty>
    decreases s.len(),
{
    if s.len() == 0 {
        None
    } else if s[0].0 == k {
        Some(s[0].1)
    } else {
        find_type(s.drop_first(), k)
    }
}

/// The pairs of index and identifier of the type parameters among `s`, in order.
pub open spec fn type_entries(s: Seq<ParamDef>) -> Seq<(u32, DefId)>
    decreases s.len(),
{
    if s.len() == 0 {
        Seq::empty()
    } else {
        let rest = type_entries(s.drop_last());
        if s.last().kind == ParamKind::Type {
            rest.push((s.last().index, s.last().def_id))
        } else {
            rest
        }
    }
}

/// Generics and declared types of the items of both builds.
pub struct TypeDb {
    generics: Vec<(DefId, Generics)>,
    types: Vec<(DefId, Ty)>,
}

impl TypeDb {
    pub closed spec fn generics_spec(&self) -> Seq<(DefId, Generics)> {
        self.generics@
    }

    pub closed spec fn types_spec(&self) -> Seq<(DefId, Ty)> {
        self.types@
    }

    pub open spec fn generics_of_spec(&self, id: DefId) -> Option<Generics> {
        find_generics(self.generics_spec(), id)
    }

    /// The own parameters of `id`; none for an unknown item.
    pub open spec fn own_params_spec(&self, id: DefId) -> Seq<ParamDef> {
        match self.generics_of_spec(id) {
            Some(g) => g.params@,
            None => Seq::empty(),
        }
    }

    /// The parameters that `id` inherits from its enclosing item.
    pub open spec fn parent_params_spec(&self, id: DefId) -> Seq<ParamDef> {
        match self.generics_of_spec(id) {
            Some(g) => match g.parent {
                Some(p) => self.own_params_spec(p),
                None => Seq::empty(),
            },
            None => Seq::empty(),
        }
    }

    /// All parameters of `id`: the inherited ones, then its own.
    pub open spec fn all_params_spec(&self, id: DefId) -> Seq<ParamDef> {
        self.parent_params_spec(id) + self.own_params_spec(id)
    }

    pub open spec fn has_self_spec(&self, id: DefId) -> bool {
        match self.generics_of_spec(id) {
            Some(g) => g.has_self,
            None => false,
        }
    }

    pub open spec fn type_of_spec(&self, id: DefId) -> Option<Ty> {
        find_type(self.types_spec(), id)
    }

    /// The entries of the index map of `id`: its own type parameters, then the
    /// inherited ones.
    pub open spec fn index_entries_spec(&self, id: DefId) -> Seq<(u32, DefId)> {
        type_entries(self.own_params_spec(id)) + type_entries(self.parent_params_spec(id))
    }

    pub fn new() -> (r: TypeDb)
        ensures
            r.generics_spec() == Seq::<(DefId, Generics)>::empty(),
            r.types_spec() == Seq::<(DefId, Ty)>::empty(),
    {
        TypeDb { generics: Vec::new(), types: Vec::new() }
    }

    /// Records the generics of `id`; an earlier record of `id` stays in force.
    pub fn add_generics(&mut self, id: DefId, generics: Generics)
        ensures
            final(self).generics_spec() == old(self).generics_spec().push((id, generics)),
            final(self).types_spec() == old(self).types_spec(),
    {
        self.generics.push((id, generics));
    }

    /// Records the declared type of `id`; an earlier record of `id` stays in force.
    pub fn add_type(&mut self, id: DefId, ty: Ty)
        ensures
            final(self).types_spec() == old(self).types_spec().push((id, ty)),
            final(self).generics_spec() == old(self).generics_spec(),
    {
        self.types.push((id, ty));
    }

    pub fn generics_of(&self, id: DefId) -> (r: Option<&Generics>)
        ensures
            match r {
                Some(g) => self.generics_of_spec(id) == Some(*g),
                None => self.generics_of_spec(id) is None,
            },
    {
        let mut i: usize = 0;
        assert(self.generics@.subrange(0, self.generics@.len() as int) =~= self.generics@);
        while i < self.generics.len()
            invariant
                i <= self.generics@.len(),
                find_generics(self.generics@, id) == find_generics(
                    self.generics@.subrange(i as int, self.generics@.len() as int),
                    id,
                ),
            decreases self.generics@.len() - i,
        {
            assert(self.generics@.subrange(i as int, self.generics@.len() as int).drop_first()
                =~= self.generics@.subrange(i + 1, self.generics@.len() as int));
            if self.generics[i].0 == id {
                return Some(&self.generics[i].1);
            }
            i = i + 1;
        }
        None
    }

    /// A copy of the declared type of `id`.
    pub fn type_of(&self, id: DefId) -> (r: Option<Ty>)
        ensures
            r == self.type_of_spec(id),
    {
        let mut i: usize = 0;
        assert(self.types@.subrange(0, self.types@.len() as int) =~= self.types@);
        while i < self.types.len()
            invariant
                i <= self.types@.len(),
                find_type(self.types@, id) == find_type(
                    self.types@.subrange(i as int, self.types@.len() as int),
                    id,
                ),
            decreases self.types@.len() - i,
        {
            assert(self.types@.subrange(i as int, self.types@.len() as int).drop_first()
                =~= self.types@.subrange(i + 1, self.types@.len() as int));
            if self.types[i].0 == id {
                return Some(copy_ty(&self.types[i].1));
            }
            i = i + 1;
        }
        None
    }

    pub fn has_self(&self, id: DefId) -> (r: bool)
        ensures
            r == self.has_self_spec(id),
    {
        match self.generics_of(id) {
            Some(g) => g.has_self,
            None => false,
        }
    }

    /// All parameters of `id`, inherited ones first.
    pub fn all_params(&self, id: DefId) -> (r: Vec<ParamDef>)
        ensures
            r@ == self.all_params_spec(id),
    {
        let mut out: Vec<ParamDef> = Vec::new();
        if let Some(g) = self.generics_of(id) {
            if let Some(p) = g.parent {
                if let Some(pg) = self.generics_of(p) {
                    append_params(&mut out, &pg.params);
                }
            }
            append_params(&mut out, &g.params);
        }
        proof {
            assert(out@ =~= self.all_params_spec(id));
        }
        out
    }
}

fn append_params(out: &mut Vec<ParamDef>, s: &Vec<ParamDef>)
    ensures
        final(out)@ == old(out)@ + s@,
{
    let mut i: usize = 0;
    while i < s.len()
        invariant
            i <= s@.len(),
            out@ == old(out)@ + s@.subrange(0, i as int),
        decreases s@.len() - i,
    {
        out.push(s[i]);
        i = i + 1;
        assert(out@ =~= old(out)@ + s@.subrange(0, i as int));
    }
    assert(s@.subrange(0, s@.len() as int) =~= s@);
}

/// Appends the index and identifier of each type parameter among `s`.
pub fn push_type_entries(out: &mut Vec<(u32, DefId)>, s: &Vec<ParamDef>)
    ensures
        final(out)@ == old(out)@ + type_entries(s@),
{
    let mut i: usize = 0;
    assert(s@.subrange(0, 0) =~= Seq::<ParamDef>::empty());
    assert(out@ =~= old(out)@ + type_entries(s@.subrange(0, 0)));
    while i < s.len()
        invariant
            i <= s@.len(),
            out@ == old(out)@ + type_entries(s@.subrange(0, i as int)),
        decreases s@.len() - i,
    {
        assert(s@.subrange(0, i + 1).drop_last() =~= s@.subrange(0, i as int));
        if s[i].kind == ParamKind::Type {
            out.push((s[i].index, s[i].def_id));
        }
        i = i + 1;
        assert(out@ =~= old(out)@ + type_entries(s@.subrange(0, i as int)));
    }
    assert(s@.subrange(0, s@.len() as int) =~= s@);
}

} // verus!
