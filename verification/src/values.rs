//! The tagged-union value type exchanged between host callbacks and script
//! code, together with its explicit, non-coercing conversion helpers. The
//! bridge performs no implicit type coercion: a host method sees exactly the
//! variant the script supplied and hands back exactly the variant it built.

use vstd::prelude::*;

verus! {

/// Mathematical model of a script value.
pub enum ValueModel {
    Undefined,
    Null,
    Bool(bool),
    Num(int),
    Str(Seq<char>),
    Obj(nat),
}

/// A script-side value as the host sees it: an explicit tagged union.
/// Numbers are the host's integral representation; `Obj` carries an opaque
/// handle to an object that only the execution environment can interpret.
#[derive(Debug)]
pub enum ScriptValue {
    Undefined,
    Null,
    Bool(bool),
    Num(i64),
    Str(String),
    Obj(u64),
}

impl View for ScriptValue {
    type V = ValueModel;

    open spec fn view(&self) -> ValueModel {
        match self {
            ScriptValue::Undefined => ValueModel::Undefined,
            ScriptValue::Null => ValueModel::Null,
            ScriptValue::Bool(b) => ValueModel::Bool(*b),
            ScriptValue::Num(n) => ValueModel::Num(*n as int),
            ScriptValue::Str(s) => ValueModel::Str(s@),
            ScriptValue::Obj(h) => ValueModel::Obj(*h as nat),
        }
    }
}

impl ScriptValue {
    /// True exactly when this value is a script string.
    pub fn is_string(&self) -> (b: bool)
        ensures
            b == (self@ is Str),
    {
        matches!(self, ScriptValue::Str(_))
    }

    /// Explicit conversion to a string: never coerces, fails on every other
    /// variant.
    pub fn as_str(&self) -> (r: Option<&String>)
        ensures
            match r {
                Option::Some(s) => self@ == ValueModel::Str(s@),
                Option::None => !(self@ is Str),
            },
    {
        match self {
            ScriptValue::Str(s) => Option::Some(s),
            _ => Option::None,
        }
    }

    /// Deep equality of two values, decided on the models.
    pub fn eq_value(&self, other: &ScriptValue) -> (b: bool)
        ensures
            b == (self@ == other@),
    {
        match (self, other) {
            (ScriptValue::Undefined, ScriptValue::Undefined) => true,
            (ScriptValue::Null, ScriptValue::Null) => true,
            (ScriptValue::Bool(a), ScriptValue::Bool(b)) => *a == *b,
            (ScriptValue::Num(a), ScriptValue::Num(b)) => *a == *b,
            (ScriptValue::Str(a), ScriptValue::Str(b)) => *a == *b,
            (ScriptValue::Obj(a), ScriptValue::Obj(b)) => *a == *b,
            _ => false,
        }
    }
}

impl Clone for ScriptValue {
    /// Cloning preserves the model.
    fn clone(&self) -> (r: Self)
        ensures
            r@ == self@,
    {
        match self {
            ScriptValue::Undefined => ScriptValue::Undefined,
            ScriptValue::Null => ScriptValue::Null,
            ScriptValue::Bool(b) => ScriptValue::Bool(*b),
            ScriptValue::Num(n) => ScriptValue::Num(*n),
            ScriptValue::Str(s) => ScriptValue::Str(s.clone()),
            ScriptValue::Obj(h) => ScriptValue::Obj(*h),
        }
    }
}

} // verus!
