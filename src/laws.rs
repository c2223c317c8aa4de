use vstd::prelude::*;

use crate::dispatch::{first_hit, hits, resolve_spec, EntryModel, KeyModel, Probe};
use crate::host::{is_failure_type, is_subtype, FailureModel, Handler, TypeModel, ValueModel};
use crate::registry::{holds_token, with_handler};
use crate::result::{
    consume, constructed, handled, settled_or, unset_text, unwrapped, ActionModel, ErrorModel,
    ResultModel,
};

verus! {

/// Construction refuses a success value together with a failure. With one of
/// them, the result holds exactly that one, and is a failure exactly when a
/// failure was given. With neither, it holds nothing and unwraps to nothing.
pub proof fn law_construct(ok: Option<ValueModel>, err: Option<FailureModel>)
    ensures
        constructed(ok, err) is None <==> (ok is Some && err is Some),
        constructed(ok, err) matches Some(m) ==> m.ok == ok && m.err == err && (m.err is Some
            <==> err is Some),
        ok is None && err is None ==> (constructed(ok, err) matches Some(m) && m.ok is None
            && m.err is None && unwrapped(m) == Ok::<Option<ValueModel>, ErrorModel>(None)),
{
}

/// With no failure held, consuming against any table gives back the success
/// side, whatever the table holds.
pub proof fn law_success_ignores_table(
    m: ResultModel,
    t1: Seq<EntryModel>,
    t2: Seq<EntryModel>,
    miss1: ActionModel,
    miss2: ActionModel,
)
    requires
        m.err is None,
    ensures
        consume(m, t1, miss1) == ActionModel::Return(m.ok),
        consume(m, t1, miss1) == consume(m, t2, miss2),
{
}

/// When the registry has no handler for the held failure, strict consumption
/// fails with a diagnostic that holds the failure type's name, and the
/// failure counts as unhandled.
pub proof fn law_unhandled(m: ResultModel)
    requires
        m.err is Some,
        resolve_spec(m.err->Some_0, m.handlers) is None,
    ensures
        ({
            let f = m.err->Some_0;
            &&& consume(m, m.handlers, ActionModel::Fail(ErrorModel::Unhandled(unset_text(f))))
                == ActionModel::Fail(ErrorModel::Unhandled(unset_text(f)))
            &&& exists|k: int|
                0 <= k && k + f.ty.name.len() <= unset_text(f).len() && #[trigger] unset_text(
                    f,
                ).subrange(k, k + f.ty.name.len()) == f.ty.name
            &&& !handled(m)
        }),
{
    let f = m.err->Some_0;
    let a = "unset handler for `"@;
    let b = "` exception type. Original err message: "@;
    let k = a.len() as int;
    assert(unset_text(f) == a + f.ty.name + b + f.text);
    assert((a + f.ty.name + b + f.text).subrange(k, k + f.ty.name.len()) =~= f.ty.name);
}

/// Consumption with a default yields the default when no handler matches,
/// and an invoked handler that raises settles to the default too.
pub proof fn law_default_on_failure(
    m: ResultModel,
    default: ValueModel,
    raised: FailureModel,
)
    requires
        m.err is Some,
    ensures
        resolve_spec(m.err->Some_0, m.handlers) is None ==> consume(
            m,
            m.handlers,
            ActionModel::Return(Some(default)),
        ) == ActionModel::Return(Some(default)),
        settled_or(Err(raised), default) == default,
{
}

/// Dispatch in a registry takes the first registered handler whose type the
/// failure's type is or derives from: with handlers for a base type `b` and a
/// derived type `d`, a failure of type `d` goes to whichever was registered
/// first.
pub proof fn law_first_registered_wins(
    b: TypeModel,
    d: TypeModel,
    f: FailureModel,
    hb: Handler,
    hd: Handler,
)
    requires
        is_failure_type(b),
        is_failure_type(d),
        d.token != b.token,
        is_subtype(d, b.token),
        f.ty == d,
    ensures
        resolve_spec(f, with_handler(with_handler(Seq::empty(), d, hd), b, hb)) == Some(hd),
        resolve_spec(f, with_handler(with_handler(Seq::empty(), b, hb), d, hd)) == Some(hb),
{
    let eb = EntryModel { key: KeyModel::Type(b), handler: hb };
    let ed = EntryModel { key: KeyModel::Type(d), handler: hd };
    let e = Seq::<EntryModel>::empty();
    assert(!holds_token(e, d.token));
    assert(with_handler(e, d, hd) == e.push(ed));
    assert(!holds_token(e.push(ed), b.token));
    assert(with_handler(e.push(ed), b, hb) == e.push(ed).push(eb));
    assert(!holds_token(e, b.token));
    assert(with_handler(e, b, hb) == e.push(eb));
    assert(!holds_token(e.push(eb), d.token));
    assert(with_handler(e.push(eb), d, hd) == e.push(eb).push(ed));
    lemma_two_entries(ed, eb, f);
    lemma_two_entries(eb, ed, f);
}

proof fn lemma_two_entries(x: EntryModel, y: EntryModel, f: FailureModel)
    requires
        x.key is Type,
        y.key is Type,
        hits(x, Probe::Ancestor(f.ty)),
    ensures
        resolve_spec(f, Seq::empty().push(x).push(y)) == Some(x.handler),
{
    let e = Seq::<EntryModel>::empty();
    let s1 = e.push(x);
    let t = s1.push(y);
    assert(t.drop_last() =~= s1);
    assert(s1.drop_last() =~= e);
    assert(t.last() == y);
    assert(s1.last() == x);
    let pe = Probe::Exact(f.id);
    let pa = Probe::Ancestor(f.ty);
    assert(first_hit(e, pe) is None);
    assert(first_hit(s1, pe) is None);
    assert(first_hit(t, pe) is None);
    assert(first_hit(e, pa) is None);
    assert(first_hit(s1, pa) == Some(0int));
    assert(first_hit(t, pa) == Some(0int));
    assert(t[0] == x);
}

} // verus!
