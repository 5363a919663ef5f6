//! The per-function description a call is validated against: ordered
//! parameter kinds and an optional return kind.

use vstd::prelude::*;

use crate::abi::AbiType;
use crate::abi::AbiValue;

verus! {

/// Every supplied value's kind equals the declared kind at its position,
/// over the positions both sequences share.
pub open spec fn kinds_match(params: Seq<AbiType>, vals: Seq<AbiValue>) -> bool {
    forall|i: int|
        0 <= i < params.len() && i < vals.len() ==> vals[i].kind_spec() == params[i]
}

/// Ordered parameter kinds plus an optional return kind for one compiled
/// function.
///
/// Arity is fixed: no variadics, no optional parameters. A signature is
/// immutable once attached to a compiled function.
pub struct FunctionSignature {
    params: Vec<AbiType>,
    ret: Option<AbiType>,
}

impl FunctionSignature {
    /// The declared parameter kinds, in positional order.
    pub closed spec fn params_spec(&self) -> Seq<AbiType> {
        self.params@
    }

    /// The declared return kind, if any.
    pub closed spec fn ret_spec(&self) -> Option<AbiType> {
        self.ret
    }

    /// Build the signature of a function taking `params` positionally and
    /// returning `ret` (or nothing).
    pub fn new(params: Vec<AbiType>, ret: Option<AbiType>) -> (s: Self)
        ensures
            s.params_spec() == params@,
            s.ret_spec() == ret,
    {
        FunctionSignature { params, ret }
    }

    /// The number of parameters the function declares.
    pub fn arity(&self) -> (n: usize)
        ensures
            n == self.params_spec().len(),
    {
        self.params.len()
    }

    /// The declared kind of the parameter at position `i`.
    pub fn param(&self, i: usize) -> (t: AbiType)
        requires
            i < self.params_spec().len(),
        ensures
            t == self.params_spec()[i as int],
    {
        self.params[i]
    }

    /// The declared return kind, if any.
    pub fn return_type(&self) -> (t: Option<AbiType>)
        ensures
            t == self.ret_spec(),
    {
        self.ret
    }
}

} // verus!
