use vstd::prelude::*;

use crate::dispatch::{table_model, EntryModel, Key, KeyModel, MapEntry};
use crate::host::{is_failure_type, Handler, TypeDesc, TypeModel};

verus! {

pub open spec fn key_token(k: KeyModel) -> u64 {
    match k {
        KeyModel::Type(t) => t.token,
        KeyModel::Hash(h) => h,
    }
}

/// Every entry is keyed by a failure type, and no type token occurs twice.
pub open spec fn registry_wf(reg: Seq<EntryModel>) -> bool {
    &&& forall|i: int|
        0 <= i < reg.len() ==> (#[trigger] reg[i]).key is Type && is_failure_type(
            reg[i].key->Type_0,
        )
    &&& forall|i: int, j: int|
        0 <= i < reg.len() && 0 <= j < reg.len() && i != j ==> key_token(
            (#[trigger] reg[i]).key,
        ) != key_token((#[trigger] reg[j]).key)
}

pub open spec fn holds_token(reg: Seq<EntryModel>, token: u64) -> bool {
    exists|i: int| 0 <= i < reg.len() && key_token((#[trigger] reg[i]).key) == token
}

/// Registering handler `h` for failure type `t`: an entry for the same type
/// token is replaced where it stands, otherwise the entry goes last.
pub open spec fn with_handler(reg: Seq<EntryModel>, t: TypeModel, h: Handler) -> Seq<EntryModel> {
    let e = EntryModel { key: KeyModel::Type(t), handler: h };
    if holds_token(reg, t.token) {
        reg.update(choose|i: int| 0 <= i < reg.len() && key_token((#[trigger] reg[i]).key) == t.token, e)
    } else {
        reg.push(e)
    }
}

/// An entry of a bulk registration that is taken: keyed by a failure type,
/// with a callable value.
pub open spec fn accepted(e: EntryModel) -> bool {
    &&& e.key is Type
    &&& is_failure_type(e.key->Type_0)
    &&& e.handler.callable
}

/// Bulk registration: the accepted entries of `t` are registered in order,
/// the others are skipped.
pub open spec fn with_handlers(reg: Seq<EntryModel>, t: Seq<EntryModel>) -> Seq<EntryModel>
    decreases t.len(),
{
    if t.len() == 0 {
        reg
    } else {
        let r = with_handlers(reg, t.drop_last());
        if accepted(t.last()) {
            with_handler(r, t.last().key->Type_0, t.last().handler)
        } else {
            r
        }
    }
}

/// The persistent handler table of a result value.
#[derive(Debug)]
pub struct Registry {
    entries: Vec<MapEntry>,
}

impl View for Registry {
    type V = Seq<EntryModel>;

    closed spec fn view(&self) -> Seq<EntryModel> {
        table_model(self.entries@)
    }
}

impl Registry {
    #[verifier::type_invariant]
    closed spec fn wf(self) -> bool {
        registry_wf(self@)
    }

    pub fn new() -> (r: Registry)
        ensures
            r@ == Seq::<EntryModel>::empty(),
    {
        let r = Registry { entries: Vec::new() };
        assert(r@ =~= Seq::<EntryModel>::empty());
        r
    }

    /// The entries in registration order.
    pub fn entries(&self) -> (r: &Vec<MapEntry>)
        ensures
            table_model(r@) == self@,
            registry_wf(self@),
    {
        proof {
            use_type_invariant(self);
        }
        &self.entries
    }

    /// Registers `h` for the failure type `t`.
    pub fn insert(&mut self, t: TypeDesc, h: Handler)
        requires
            is_failure_type(t@),
        ensures
            final(self)@ == with_handler(old(self)@, t@, h),
    {
        proof {
            use_type_invariant(&*self);
        }
        let ghost reg = self@;
        let ghost tm = t@;
        let mut v: Vec<MapEntry> = Vec::new();
        std::mem::swap(&mut v, &mut self.entries);
        assert(table_model(v@) == reg);
        let mut i: usize = 0;
        let mut at: Option<usize> = None;
        while at.is_none() && i < v.len()
            invariant
                i <= v@.len(),
                table_model(v@) == reg,
                tm == t@,
                at matches Some(j) ==> j < v@.len() && key_token(reg[j as int].key) == tm.token,
                at is None ==> forall|j: int| 0 <= j < i ==> key_token(#[trigger] reg[j].key) != tm.token,
            decreases v@.len() - i + (if at is None { 1int } else { 0int }),
        {
            assert(reg[i as int] == v@[i as int]@);
            let ghost vi = v@[i as int];
            let same = match &v[i].key {
                Key::Type(k) => {
                    assert(vi.key@ == KeyModel::Type(k@));
                    k.token == t.token
                },
                Key::Hash(x) => {
                    assert(vi.key@ == KeyModel::Hash(*x));
                    *x == t.token
                },
            };
            assert(same == (key_token(reg[i as int].key) == tm.token));
            if same {
                at = Some(i);
            } else {
                i += 1;
            }
        }
        let e = MapEntry { key: Key::Type(t), handler: h };
        let ghost em = e@;
        match at {
            Some(j) => {
                assert(key_token(reg[j as int].key) == tm.token);
                assert(holds_token(reg, tm.token));
                let ghost c = choose|i: int| 0 <= i < reg.len() && key_token((#[trigger] reg[i]).key) == tm.token;
                assert(c == j);
                v.set(j, e);
                assert(table_model(v@) =~= reg.update(j as int, em));
            }
            None => {
                assert(i == v@.len());
                assert(!holds_token(reg, tm.token));
                v.push(e);
                assert(table_model(v@) =~= reg.push(em));
            }
        }
        self.entries = v;
    }

    /// Registers the accepted entries of `t` in order and skips the others.
    pub fn insert_all(&mut self, t: &Vec<MapEntry>)
        ensures
            final(self)@ == with_handlers(old(self)@, table_model(t@)),
    {
        let ghost reg = self@;
        let ghost m = table_model(t@);
        let mut i: usize = 0;
        while i < t.len()
            invariant
                i <= t@.len(),
                m == table_model(t@),
                self@ == with_handlers(reg, m.take(i as int)),
            decreases t@.len() - i,
        {
            assert(m.take(i as int + 1).drop_last() =~= m.take(i as int));
            assert(m[i as int] == t@[i as int]@);
            let e = &t[i];
            match &e.key {
                Key::Type(k) => {
                    if e.handler.callable && k.is_failure_type() {
                        self.insert(k.clone(), e.handler);
                    }
                },
                Key::Hash(_) => {},
            }
            i += 1;
        }
        assert(m.take(i as int) =~= m);
    }
}

} // verus!
