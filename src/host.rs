use vstd::prelude::*;

verus! {

/// Identity token of the host's root failure type. A type is a failure type
/// when it is this type or has it among its ancestors.
pub const BASE_FAILURE: u64 = 0;

/// A runtime type descriptor of the host: its identity token, its rendering,
/// and the tokens of all of its proper supertypes.
#[derive(Debug)]
pub struct TypeDesc {
    pub token: u64,
    pub name: String,
    pub ancestors: Vec<u64>,
}

pub struct TypeModel {
    pub token: u64,
    pub name: Seq<char>,
    pub ancestors: Seq<u64>,
}

impl View for TypeDesc {
    type V = TypeModel;

    open spec fn view(&self) -> TypeModel {
        TypeModel { token: self.token, name: self.name@, ancestors: self.ancestors@ }
    }
}

/// `t` is the type with token `of`, or one of its subtypes.
pub open spec fn is_subtype(t: TypeModel, of: u64) -> bool {
    t.token == of || t.ancestors.contains(of)
}

/// `t` belongs to the host's failure hierarchy.
pub open spec fn is_failure_type(t: TypeModel) -> bool {
    is_subtype(t, BASE_FAILURE)
}

impl TypeDesc {
    pub fn is_subtype_of(&self, of: u64) -> (r: bool)
        ensures
            r == is_subtype(self@, of),
    {
        if self.token == of {
            return true;
        }
        let mut i: usize = 0;
        while i < self.ancestors.len()
            invariant
                i <= self.ancestors@.len(),
                forall|j: int| 0 <= j < i ==> self.ancestors@[j] != of,
            decreases self.ancestors@.len() - i,
        {
            if self.ancestors[i] == of {
                return true;
            }
            i += 1;
        }
        false
    }

    pub fn is_failure_type(&self) -> (r: bool)
        ensures
            r == is_failure_type(self@),
    {
        self.is_subtype_of(BASE_FAILURE)
    }
}

impl Clone for TypeDesc {
    fn clone(&self) -> (r: Self)
        ensures
            r@ == self@,
    {
        let ancestors = self.ancestors.clone();
        assert(ancestors@ =~= self.ancestors@);
        TypeDesc { token: self.token, name: self.name.clone(), ancestors }
    }
}

/// A failure value of the host: its identity token, its runtime type and its
/// string rendering.
#[derive(Debug)]
pub struct Failure {
    pub id: u64,
    pub ty: TypeDesc,
    pub text: String,
}

pub struct FailureModel {
    pub id: u64,
    pub ty: TypeModel,
    pub text: Seq<char>,
}

impl View for Failure {
    type V = FailureModel;

    open spec fn view(&self) -> FailureModel {
        FailureModel { id: self.id, ty: self.ty@, text: self.text@ }
    }
}

impl Clone for Failure {
    fn clone(&self) -> (r: Self)
        ensures
            r@ == self@,
    {
        Failure { id: self.id, ty: self.ty.clone(), text: self.text.clone() }
    }
}

/// A payload of the host, held by reference: its identity token and its
/// string rendering.
#[derive(Debug)]
pub struct Value {
    pub id: u64,
    pub text: String,
}

pub struct ValueModel {
    pub id: u64,
    pub text: Seq<char>,
}

impl View for Value {
    type V = ValueModel;

    open spec fn view(&self) -> ValueModel {
        ValueModel { id: self.id, text: self.text@ }
    }
}

impl Clone for Value {
    fn clone(&self) -> (r: Self)
        ensures
            r@ == self@,
    {
        Value { id: self.id, text: self.text.clone() }
    }
}

/// A recovery callable of the host: its identity token, and whether the host
/// reports it as callable at all.
#[derive(Debug, Clone, Copy, PartialEq, Eq, Structural)]
pub struct Handler {
    pub id: u64,
    pub callable: bool,
}

pub open spec fn value_opt(v: Option<Value>) -> Option<ValueModel> {
    match v {
        Some(x) => Some(x@),
        None => None,
    }
}

pub open spec fn failure_opt(f: Option<Failure>) -> Option<FailureModel> {
    match f {
        Some(x) => Some(x@),
        None => None,
    }
}

} // verus!
