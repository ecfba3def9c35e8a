//! Value kinds, values and function signatures.

use vstd::prelude::*;

verus! {

/// A WebAssembly value kind.
#[derive(Clone, Copy, Debug, PartialEq, Eq, Hash, Structural)]
pub enum Type {
    /// 32-bit integer.
    I32,
    /// 64-bit integer.
    I64,
    /// 32-bit float.
    F32,
    /// 64-bit float.
    F64,
    /// 128-bit vector.
    V128,
}

/// A WebAssembly value. Floats are held by their bit patterns, so that a value
/// is exactly what the slot buffers store.
#[derive(Clone, Copy, Debug, PartialEq, Eq, Hash, Structural)]
pub enum Value {
    /// 32-bit integer.
    I32(u32),
    /// 64-bit integer.
    I64(u64),
    /// Bits of a 32-bit float.
    F32(u32),
    /// Bits of a 64-bit float.
    F64(u64),
    /// 128-bit vector.
    V128(u128),
}

impl Value {
    /// The kind of this value.
    pub open spec fn spec_ty(self) -> Type {
        match self {
            Value::I32(_) => Type::I32,
            Value::I64(_) => Type::I64,
            Value::F32(_) => Type::F32,
            Value::F64(_) => Type::F64,
            Value::V128(_) => Type::V128,
        }
    }

    /// The kind of this value.
    #[verifier::when_used_as_spec(spec_ty)]
    pub fn ty(self) -> (t: Type)
        ensures
            t == self.spec_ty(),
    {
        match self {
            Value::I32(_) => Type::I32,
            Value::I64(_) => Type::I64,
            Value::F32(_) => Type::F32,
            Value::F64(_) => Type::F64,
            Value::V128(_) => Type::V128,
        }
    }
}

/// The kinds of a sequence of values, in order.
pub open spec fn types_of(values: Seq<Value>) -> Seq<Type> {
    Seq::new(values.len(), |i: int| values[i].spec_ty())
}

/// The signature of a function: its parameter kinds and its result kinds, both
/// in declaration order. Two signatures are the same signature exactly when
/// both sequences agree.
#[derive(Clone, Debug, PartialEq, Eq, Hash)]
pub struct FuncSig {
    /// Parameter kinds, in declaration order.
    pub params: Vec<Type>,
    /// Result kinds, in declaration order.
    pub results: Vec<Type>,
}

impl FuncSig {
    /// A signature with the given parameters and results.
    pub fn new(params: Vec<Type>, results: Vec<Type>) -> (sig: FuncSig)
        ensures
            sig.params == params,
            sig.results == results,
    {
        FuncSig { params, results }
    }

    /// The parameter kinds.
    pub fn params(&self) -> (p: &Vec<Type>)
        ensures
            p@ == self.params@,
    {
        &self.params
    }

    /// The result kinds.
    pub fn results(&self) -> (r: &Vec<Type>)
        ensures
            r@ == self.results@,
    {
        &self.results
    }
}

} // verus!
