use vstd::prelude::*;

use crate::host::{is_subtype, Failure, FailureModel, Handler, TypeDesc, TypeModel};

verus! {

/// The key of an entry of a handler table: a type descriptor, or a bare
/// identity hash of a failure instance.
#[derive(Debug)]
pub enum Key {
    Type(TypeDesc),
    Hash(u64),
}

pub enum KeyModel {
    Type(TypeModel),
    Hash(u64),
}

impl View for Key {
    type V = KeyModel;

    open spec fn view(&self) -> KeyModel {
        match self {
            Key::Type(t) => KeyModel::Type(t@),
            Key::Hash(h) => KeyModel::Hash(*h),
        }
    }
}

/// One entry of a handler table: a key and the callable registered for it.
#[derive(Debug)]
pub struct MapEntry {
    pub key: Key,
    pub handler: Handler,
}

pub struct EntryModel {
    pub key: KeyModel,
    pub handler: Handler,
}

impl View for MapEntry {
    type V = EntryModel;

    open spec fn view(&self) -> EntryModel {
        EntryModel { key: self.key@, handler: self.handler }
    }
}

pub open spec fn table_model(t: Seq<MapEntry>) -> Seq<EntryModel> {
    t.map_values(|e: MapEntry| e@)
}

/// What an entry is tested against in one phase of dispatch.
pub enum Probe {
    /// Exact phase: the key is this instance hash.
    Exact(u64),
    /// Ancestor phase: the key is a type that this type is, or derives from.
    Ancestor(TypeModel),
}

pub open spec fn hits(e: EntryModel, p: Probe) -> bool {
    match p {
        Probe::Exact(id) => e.key == KeyModel::Hash(id),
        Probe::Ancestor(t) => match e.key {
            KeyModel::Type(k) => is_subtype(t, k.token),
            KeyModel::Hash(_) => false,
        },
    }
}

/// Index of the first entry of `t` that `p` hits.
pub open spec fn first_hit(t: Seq<EntryModel>, p: Probe) -> Option<int>
    decreases t.len(),
{
    if t.len() == 0 {
        None
    } else {
        match first_hit(t.drop_last(), p) {
            Some(i) => Some(i),
            None => if hits(t.last(), p) {
                Some(t.len() - 1)
            } else {
                None
            },
        }
    }
}

/// Dispatch: the handler keyed by the failure's own identity hash if there is
/// one, else the handler of the first entry, in table order, whose type the
/// failure's type is or derives from; `None` when nothing matches.
pub open spec fn resolve_spec(f: FailureModel, t: Seq<EntryModel>) -> Option<Handler> {
    match first_hit(t, Probe::Exact(f.id)) {
        Some(i) => Some(t[i].handler),
        None => match first_hit(t, Probe::Ancestor(f.ty)) {
            Some(i) => Some(t[i].handler),
            None => None,
        },
    }
}

proof fn lemma_first_hit_step(t: Seq<EntryModel>, p: Probe, i: int)
    requires
        0 <= i < t.len(),
    ensures
        first_hit(t.take(i + 1), p) == match first_hit(t.take(i), p) {
            Some(j) => Some(j),
            None => if hits(t[i], p) {
                Some(i)
            } else {
                None
            },
        },
{
    assert(t.take(i + 1).drop_last() =~= t.take(i));
}

proof fn lemma_first_hit_prefix(t: Seq<EntryModel>, p: Probe, k: int)
    requires
        0 <= k <= t.len(),
        first_hit(t.take(k), p) is Some,
    ensures
        first_hit(t, p) == first_hit(t.take(k), p),
    decreases t.len() - k,
{
    if k == t.len() {
        assert(t.take(k) =~= t);
    } else {
        lemma_first_hit_step(t, p, k);
        lemma_first_hit_prefix(t, p, k + 1);
    }
}

spec fn probe(f: FailureModel, exact: bool) -> Probe {
    if exact {
        Probe::Exact(f.id)
    } else {
        Probe::Ancestor(f.ty)
    }
}

/// Index of the first entry of `t` that the probe of `f` hits, in one forward scan.
fn find(t: &Vec<MapEntry>, f: &Failure, exact: bool) -> (r: Option<usize>)
    ensures
        match r {
            Some(i) => i < t@.len() && first_hit(table_model(t@), probe(f@, exact)) == Some(i as int),
            None => first_hit(table_model(t@), probe(f@, exact)) is None,
        },
{
    let ghost m = table_model(t@);
    let ghost p = probe(f@, exact);
    let mut i: usize = 0;
    while i < t.len()
        invariant
            i <= t@.len(),
            m == table_model(t@),
            p == probe(f@, exact),
            first_hit(m.take(i as int), p) is None,
        decreases t@.len() - i,
    {
        proof {
            lemma_first_hit_step(m, p, i as int);
        }
        let hit = match &t[i].key {
            Key::Hash(h) => exact && *h == f.id,
            Key::Type(k) => !exact && f.ty.is_subtype_of(k.token),
        };
        assert(hit == hits(m[i as int], p));
        if hit {
            proof {
                lemma_first_hit_prefix(m, p, i + 1);
            }
            return Some(i);
        }
        i += 1;
    }
    assert(m.take(i as int) =~= m);
    None
}

/// Finds the handler for failure `f` in table `t` (see `resolve_spec`).
/// Never invokes anything and never fails.
pub fn resolve(f: &Failure, t: &Vec<MapEntry>) -> (r: Option<Handler>)
    ensures
        r == resolve_spec(f@, table_model(t@)),
{
    match find(t, f, true) {
        Some(i) => Some(t[i].handler),
        None => match find(t, f, false) {
            Some(i) => Some(t[i].handler),
            None => None,
        },
    }
}

} // verus!
