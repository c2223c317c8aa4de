use vstd::prelude::*;
use vstd::string::*;

use crate::dispatch::{resolve, resolve_spec, table_model, EntryModel, MapEntry};
use crate::host::{
    failure_opt, is_failure_type, is_subtype, value_opt, Failure, FailureModel, Handler, TypeDesc,
    TypeModel, Value, ValueModel,
};
use crate::registry::{with_handler, with_handlers, Registry};

verus! {

/// Why an operation on a result value failed.
#[derive(Debug)]
pub enum ResultError {
    /// Both a success value and a failure value were supplied or found.
    BothValues,
    /// A handler was offered for a type outside the failure hierarchy.
    NotFailureType { message: String },
    /// No handler matches the held failure.
    Unhandled { message: String },
    /// The failure was asked for while none is held.
    NotFailure { message: String },
    /// The held failure, raised again as it is.
    Raised(Failure),
}

pub enum ErrorModel {
    BothValues,
    NotFailureType(Seq<char>),
    Unhandled(Seq<char>),
    NotFailure(Seq<char>),
    Raised(FailureModel),
}

impl View for ResultError {
    type V = ErrorModel;

    open spec fn view(&self) -> ErrorModel {
        match self {
            ResultError::BothValues => ErrorModel::BothValues,
            ResultError::NotFailureType { message } => ErrorModel::NotFailureType(message@),
            ResultError::Unhandled { message } => ErrorModel::Unhandled(message@),
            ResultError::NotFailure { message } => ErrorModel::NotFailure(message@),
            ResultError::Raised(f) => ErrorModel::Raised(f@),
        }
    }
}

/// What the host does next to finish consuming a result value.
#[derive(Debug)]
pub enum Action {
    /// Hand this back to the caller.
    Return(Option<Value>),
    /// Invoke this handler with no arguments and hand back what it returns.
    Invoke(Handler),
    /// Invoke the caller's fallback with no arguments and hand back what it returns.
    Fallback,
    /// Fail with this error.
    Fail(ResultError),
}

pub enum ActionModel {
    Return(Option<ValueModel>),
    Invoke(Handler),
    Fallback,
    Fail(ErrorModel),
}

impl View for Action {
    type V = ActionModel;

    open spec fn view(&self) -> ActionModel {
        match self {
            Action::Return(v) => ActionModel::Return(value_opt(*v)),
            Action::Invoke(h) => ActionModel::Invoke(*h),
            Action::Fallback => ActionModel::Fallback,
            Action::Fail(e) => ActionModel::Fail(e@),
        }
    }
}

/// A tagged result value: at most one of a success value and a failure value,
/// with a registry of failure handlers of its own.
#[derive(Debug)]
pub struct Result {
    ok: Option<Value>,
    err: Option<Failure>,
    handlers: Registry,
}

pub struct ResultModel {
    pub ok: Option<ValueModel>,
    pub err: Option<FailureModel>,
    pub handlers: Seq<EntryModel>,
}

impl View for Result {
    type V = ResultModel;

    closed spec fn view(&self) -> ResultModel {
        ResultModel { ok: value_opt(self.ok), err: failure_opt(self.err), handlers: self.handlers@ }
    }
}

pub open spec fn none_text() -> Seq<char> {
    "None"@
}

/// Rendering of the success side.
pub open spec fn ok_text(m: ResultModel) -> Seq<char> {
    match m.ok {
        Some(v) => v.text,
        None => none_text(),
    }
}

/// Rendering of the failure side.
pub open spec fn err_text(m: ResultModel) -> Seq<char> {
    match m.err {
        Some(f) => f.text,
        None => none_text(),
    }
}

pub open spec fn repr_text(m: ResultModel) -> Seq<char> {
    "Result(ok="@ + ok_text(m) + ", err="@ + err_text(m) + ")"@
}

pub open spec fn not_failure_type_text(t: TypeModel) -> Seq<char> {
    "err must be subclass `Exception` not `"@ + t.name + "`"@
}

pub open spec fn not_failure_text(m: ResultModel) -> Seq<char> {
    "result in status success with value "@ + ok_text(m)
}

pub open spec fn unmatched_text(f: FailureModel) -> Seq<char> {
    "mapped must contain a handler for exception type "@ + f.ty.name
        + ". Original err message: "@ + f.text
}

pub open spec fn unset_text(f: FailureModel) -> Seq<char> {
    "unset handler for `"@ + f.ty.name + "` exception type. Original err message: "@ + f.text
}

/// Consuming a result against handler table `t`: the success side when no
/// failure is held, else an invocation of the resolved handler, else `miss`.
pub open spec fn consume(m: ResultModel, t: Seq<EntryModel>, miss: ActionModel) -> ActionModel {
    match m.err {
        None => ActionModel::Return(m.ok),
        Some(f) => match resolve_spec(f, t) {
            Some(h) => ActionModel::Invoke(h),
            None => miss,
        },
    }
}

/// Construction: refused when both sides are given.
pub open spec fn constructed(ok: Option<ValueModel>, err: Option<FailureModel>) -> Option<ResultModel> {
    if ok is Some && err is Some {
        None
    } else {
        Some(ResultModel { ok, err, handlers: Seq::empty() })
    }
}

/// Unwrapping: the success side, or the held failure raised again.
pub open spec fn unwrapped(m: ResultModel) -> core::result::Result<Option<ValueModel>, ErrorModel> {
    match (m.ok, m.err) {
        (Some(_), Some(_)) => Err(ErrorModel::BothValues),
        (_, Some(f)) => Err(ErrorModel::Raised(f)),
        (v, None) => Ok(v),
    }
}

pub open spec fn unwrap_view(r: core::result::Result<Option<Value>, ResultError>) -> core::result::Result<Option<ValueModel>, ErrorModel> {
    match r {
        Ok(v) => Ok(value_opt(v)),
        Err(e) => Err(e@),
    }
}

pub open spec fn outcome_view(o: core::result::Result<Value, Failure>) -> core::result::Result<ValueModel, FailureModel> {
    match o {
        Ok(v) => Ok(v@),
        Err(f) => Err(f@),
    }
}

/// No failure is held, or the registry resolves a handler for it.
pub open spec fn handled(m: ResultModel) -> bool {
    match m.err {
        None => true,
        Some(f) => resolve_spec(f, m.handlers) is Some,
    }
}

/// What an invoked handler settles to under a default: its value, or the
/// default when it raised.
pub open spec fn settled_or(o: core::result::Result<ValueModel, FailureModel>, default: ValueModel) -> ValueModel {
    match o {
        Ok(v) => v,
        Err(_) => default,
    }
}

impl Result {
    #[verifier::type_invariant]
    closed spec fn wf(self) -> bool {
        !(self.ok is Some && self.err is Some)
    }

    fn ok_string(&self) -> (r: String)
        ensures
            r@ == ok_text(self@),
    {
        match &self.ok {
            Some(v) => v.text.clone(),
            None => String::from_str("None"),
        }
    }

    fn err_string(&self) -> (r: String)
        ensures
            r@ == err_text(self@),
    {
        match &self.err {
            Some(f) => f.text.clone(),
            None => String::from_str("None"),
        }
    }

    /// Builds a result from an optional success value and an optional failure.
    pub fn new(ok: Option<Value>, err: Option<Failure>) -> (r: core::result::Result<Result, ResultError>)
        ensures
            match r {
                Ok(x) => constructed(value_opt(ok), failure_opt(err)) == Some(x@),
                Err(e) => constructed(value_opt(ok), failure_opt(err)) is None && e@
                    == ErrorModel::BothValues,
            },
    {
        if ok.is_some() && err.is_some() {
            return Err(ResultError::BothValues);
        }
        Ok(Result { ok, err, handlers: Registry::new() })
    }

    /// Builds a result from the outcome of a call: what it returned becomes
    /// the success value, what it raised the failure.
    pub fn wrap(outcome: core::result::Result<Value, Failure>) -> (r: Result)
        ensures
            r@.handlers == Seq::<EntryModel>::empty(),
            match outcome {
                Ok(v) => r@.ok == Some(v@) && r@.err is None,
                Err(f) => r@.ok is None && r@.err == Some(f@),
            },
    {
        match outcome {
            Ok(v) => Result { ok: Some(v), err: None, handlers: Registry::new() },
            Err(f) => Result { ok: None, err: Some(f), handlers: Registry::new() },
        }
    }

    pub fn is_ok(&self) -> (r: bool)
        ensures
            r == (self@.err is None),
    {
        self.err.is_none()
    }

    pub fn is_err(&self) -> (r: bool)
        ensures
            r == (self@.err is Some),
    {
        self.err.is_some()
    }

    pub fn ok(&self) -> (r: Option<Value>)
        ensures
            value_opt(r) == self@.ok,
    {
        match &self.ok {
            Some(v) => Some(v.clone()),
            None => None,
        }
    }

    pub fn err(&self) -> (r: Option<Failure>)
        ensures
            failure_opt(r) == self@.err,
    {
        match &self.err {
            Some(f) => Some(f.clone()),
            None => None,
        }
    }

    /// The success value; the held failure raised again; nothing when neither
    /// is held.
    pub fn unwrap(&self) -> (r: core::result::Result<Option<Value>, ResultError>)
        ensures
            unwrap_view(r) == unwrapped(self@),
    {
        match (&self.ok, &self.err) {
            (Some(_), Some(_)) => Err(ResultError::BothValues),
            (Some(v), None) => Ok(Some(v.clone())),
            (None, Some(f)) => Err(ResultError::Raised(f.clone())),
            (None, None) => Ok(None),
        }
    }

    /// As `unwrap`, with `default` in place of every failure.
    pub fn unwrap_or(&self, default: Value) -> (r: Option<Value>)
        ensures
            value_opt(r) == if self@.err is None {
                self@.ok
            } else {
                Some(default@)
            },
    {
        proof {
            use_type_invariant(self);
        }
        match self.unwrap() {
            Ok(v) => v,
            Err(_) => Some(default),
        }
    }

    /// As `unwrap`, with the caller's fallback called in place of every failure.
    pub fn unwrap_or_else(&self) -> (r: Action)
        ensures
            r@ == if self@.err is None {
                ActionModel::Return(self@.ok)
            } else {
                ActionModel::Fallback
            },
    {
        proof {
            use_type_invariant(self);
        }
        match self.unwrap() {
            Ok(v) => Action::Return(v),
            Err(_) => Action::Fallback,
        }
    }

    /// The held failure; an error naming the success value when none is held.
    pub fn unwrap_err(&self) -> (r: core::result::Result<Failure, ResultError>)
        ensures
            match self@.err {
                Some(f) => r matches Ok(x) && x@ == f,
                None => r matches Err(e) && e@ == ErrorModel::NotFailure(not_failure_text(self@)),
            },
    {
        match &self.err {
            Some(f) => Ok(f.clone()),
            None => {
                let mut s = String::from_str("result in status success with value ");
                let v = self.ok_string();
                s.append(v.as_str());
                Err(ResultError::NotFailure { message: s })
            },
        }
    }

    /// The handler that dispatch selects for failure `err` in table `t`.
    pub fn get_err_handler(err: &Failure, t: &Vec<MapEntry>) -> (r: Option<Handler>)
        ensures
            r == resolve_spec(err@, table_model(t@)),
    {
        resolve(err, t)
    }

    /// Consumes the result against the table `t` supplied for this call only;
    /// `t` is not looked at when no failure is held.
    pub fn match_handlers(&self, t: &Vec<MapEntry>) -> (r: Action)
        ensures
            r@ == consume(
                self@,
                table_model(t@),
                ActionModel::Fail(ErrorModel::Unhandled(unmatched_text(self@.err->Some_0))),
            ),
    {
        match &self.err {
            None => Action::Return(self.ok()),
            Some(f) => match resolve(f, t) {
                Some(h) => Action::Invoke(h),
                None => {
                    let mut s = String::from_str("mapped must contain a handler for exception type ");
                    s.append(f.ty.name.as_str());
                    s.append(". Original err message: ");
                    s.append(f.text.as_str());
                    Action::Fail(ResultError::Unhandled { message: s })
                },
            },
        }
    }

    /// Registers handler `h` for failure type `t`; a type outside the failure
    /// hierarchy is refused and the registry left as it was.
    pub fn add_err_handler(&mut self, t: TypeDesc, h: Handler) -> (r: core::result::Result<(), ResultError>)
        ensures
            final(self)@.ok == old(self)@.ok,
            final(self)@.err == old(self)@.err,
            is_failure_type(t@) <==> r is Ok,
            r matches Err(e) ==> e@ == ErrorModel::NotFailureType(not_failure_type_text(t@)),
            final(self)@.handlers == if is_failure_type(t@) {
                with_handler(old(self)@.handlers, t@, h)
            } else {
                old(self)@.handlers
            },
    {
        if t.is_failure_type() {
            proof {
                use_type_invariant(&*self);
            }
            let mut reg = Registry::new();
            std::mem::swap(&mut reg, &mut self.handlers);
            reg.insert(t, h);
            self.handlers = reg;
            Ok(())
        } else {
            let mut s = String::from_str("err must be subclass `Exception` not `");
            s.append(t.name.as_str());
            s.append("`");
            Err(ResultError::NotFailureType { message: s })
        }
    }

    /// Registers the entries of `t` keyed by a failure type with a callable
    /// value, in order; every other entry is skipped without a report.
    pub fn add_err_handlers(&mut self, t: &Vec<MapEntry>)
        ensures
            final(self)@.ok == old(self)@.ok,
            final(self)@.err == old(self)@.err,
            final(self)@.handlers == with_handlers(old(self)@.handlers, table_model(t@)),
    {
        proof {
            use_type_invariant(&*self);
        }
        let mut reg = Registry::new();
        std::mem::swap(&mut reg, &mut self.handlers);
        reg.insert_all(t);
        self.handlers = reg;
    }

    /// Consumes the result against its own registry.
    pub fn unwrap_with_handlers(&self) -> (r: Action)
        ensures
            r@ == consume(
                self@,
                self@.handlers,
                ActionModel::Fail(ErrorModel::Unhandled(unset_text(self@.err->Some_0))),
            ),
    {
        match &self.err {
            None => Action::Return(self.ok()),
            Some(f) => match resolve(f, self.handlers.entries()) {
                Some(h) => Action::Invoke(h),
                None => {
                    let mut s = String::from_str("unset handler for `");
                    s.append(f.ty.name.as_str());
                    s.append("` exception type. Original err message: ");
                    let e = self.err_string();
                    s.append(e.as_str());
                    Action::Fail(ResultError::Unhandled { message: s })
                },
            },
        }
    }

    /// As `unwrap_with_handlers`, with `default` where no handler matches;
    /// a failing handler is settled by `settle_or`.
    pub fn unwrap_with_handlers_or(&self, default: Value) -> (r: Action)
        ensures
            r@ == consume(self@, self@.handlers, ActionModel::Return(Some(default@))),
    {
        match self.unwrap_with_handlers() {
            Action::Fail(_) => Action::Return(Some(default)),
            a => a,
        }
    }

    /// As `unwrap_with_handlers`, with the caller's fallback where no handler
    /// matches; a failing handler is settled by `settle_or_else`.
    pub fn unwrap_with_handlers_or_else(&self) -> (r: Action)
        ensures
            r@ == consume(self@, self@.handlers, ActionModel::Fallback),
    {
        match self.unwrap_with_handlers() {
            Action::Fail(_) => Action::Fallback,
            a => a,
        }
    }

    /// The value of an invoked handler under `unwrap_with_handlers_or`: what it
    /// returned, or `default` when it raised.
    pub fn settle_or(outcome: core::result::Result<Value, Failure>, default: Value) -> (r: Value)
        ensures
            r@ == settled_or(outcome_view(outcome), default@),
    {
        match outcome {
            Ok(v) => v,
            Err(_) => default,
        }
    }

    /// The next step after an invoked handler under
    /// `unwrap_with_handlers_or_else`: return what it returned, or call the
    /// fallback when it raised.
    pub fn settle_or_else(outcome: core::result::Result<Value, Failure>) -> (r: Action)
        ensures
            r@ == match outcome {
                Ok(v) => ActionModel::Return(Some(v@)),
                Err(_) => ActionModel::Fallback,
            },
    {
        match outcome {
            Ok(v) => Action::Return(Some(v)),
            Err(_) => Action::Fallback,
        }
    }

    /// No failure is held, or the registry has a handler for it. Invokes nothing.
    pub fn is_err_handled(&self) -> (r: bool)
        ensures
            r == handled(self@),
    {
        match &self.err {
            None => true,
            Some(f) => resolve(f, self.handlers.entries()).is_some(),
        }
    }

    /// The runtime type of the held failure.
    pub fn err_type(&self) -> (r: Option<TypeDesc>)
        ensures
            match self@.err {
                None => r is None,
                Some(f) => r matches Some(t) && t@ == f.ty,
            },
    {
        match &self.err {
            Some(f) => Some(f.ty.clone()),
            None => None,
        }
    }

    /// A failure is held and it is an instance of type `t`.
    pub fn check_err_type(&self, t: &TypeDesc) -> (r: bool)
        ensures
            r == match self@.err {
                None => false,
                Some(f) => is_subtype(f.ty, t.token),
            },
    {
        match &self.err {
            Some(f) => f.ty.is_subtype_of(t.token),
            None => false,
        }
    }

    /// `Result(ok=<success>, err=<failure>)`, each side rendered or `None`.
    pub fn repr(&self) -> (r: String)
        ensures
            r@ == repr_text(self@),
    {
        let mut s = String::from_str("Result(ok=");
        let o = self.ok_string();
        s.append(o.as_str());
        s.append(", err=");
        let e = self.err_string();
        s.append(e.as_str());
        s.append(")");
        s
    }
}

} // verus!
