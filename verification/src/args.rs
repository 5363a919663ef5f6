//! Incremental argument construction: a single-use builder that validates
//! each slot at the moment it is filled, and the completed, invocable
//! argument pack it finalizes into.

use vstd::prelude::*;

use crate::abi::AbiType;
use crate::abi::AbiValue;
use crate::abi::JitArgumentError;
use crate::function::return_matches;
use crate::function::tagged_return;
use crate::function::CompiledFunction;
use crate::function::NativeEntry;
use crate::signature::kinds_match;

verus! {

/// A mutable, single-use accumulator of argument slots against one compiled
/// function's signature.
///
/// Each `set` is validated immediately, so a call site evaluating argument
/// expressions left to right learns of a type error at the exact failing
/// position, and a rejected slot never discards already-validated work.
/// Exclusively owned by the call site that created it; finalization
/// consumes it.
pub struct ArgsBuilder<'f, E> {
    func: &'f CompiledFunction<E>,
    slots: Vec<Option<AbiValue>>,
}

impl<'f, E> ArgsBuilder<'f, E> {
    /// The declared parameter kinds of the target function.
    pub closed spec fn params_spec(&self) -> Seq<AbiType> {
        self.func.params_spec()
    }

    /// The declared return kind of the target function.
    pub closed spec fn ret_spec(&self) -> Option<AbiType> {
        self.func.ret_spec()
    }

    /// The slots accumulated so far, in positional order.
    pub closed spec fn slots_spec(&self) -> Seq<Option<AbiValue>> {
        self.slots@
    }

    /// One slot per declared parameter, and every filled slot holds a value
    /// of exactly the declared kind at its position.
    pub open spec fn wf(&self) -> bool {
        &&& self.slots_spec().len() == self.params_spec().len()
        &&& forall|i: int|
            0 <= i < self.slots_spec().len() ==> (#[trigger] self.slots_spec()[i] matches Some(v)
                ==> v.kind_spec() == self.params_spec()[i])
    }

    /// Every slot has been filled.
    pub open spec fn complete(&self) -> bool {
        forall|i: int| 0 <= i < self.slots_spec().len() ==> self.slots_spec()[i] is Some
    }

    /// Fill slot `idx` with `value`, accepting only a value of the declared
    /// kind at that position.
    ///
    /// Rejection is atomic: on any error the slot keeps its prior state,
    /// filled or empty, and no other slot is touched. Re-filling an
    /// already-filled slot with a valid value overwrites it — last write
    /// wins — so a call site may re-evaluate or fix up one argument.
    pub fn set(&mut self, idx: usize, value: AbiValue) -> (r: Result<(), JitArgumentError>)
        requires
            old(self).wf(),
        ensures
            final(self).wf(),
            final(self).params_spec() == old(self).params_spec(),
            final(self).ret_spec() == old(self).ret_spec(),
            r is Ok <==> (idx < old(self).params_spec().len() && value.kind_spec() == old(
                self,
            ).params_spec()[idx as int]),
            r is Ok ==> r == Ok::<(), JitArgumentError>(()) && final(self).slots_spec() == old(
                self,
            ).slots_spec().update(idx as int, Some(value)),
            r is Err ==> final(self).slots_spec() == old(self).slots_spec(),
            idx >= old(self).params_spec().len() ==> r == Err::<(), JitArgumentError>(
                JitArgumentError::IndexOutOfRange,
            ),
            idx < old(self).params_spec().len() && value.kind_spec() != old(
                self,
            ).params_spec()[idx as int] ==> r == Err::<(), JitArgumentError>(
                JitArgumentError::ArgumentTypeMismatch,
            ),
    {
        if idx >= self.func.arity() {
            return Err(JitArgumentError::IndexOutOfRange);
        }
        if value.kind() != self.func.param(idx) {
            return Err(JitArgumentError::ArgumentTypeMismatch);
        }
        self.slots.set(idx, Some(value));
        Ok(())
    }

    /// Whether slot `idx` currently holds a validated value.
    pub fn is_set(&self, idx: usize) -> (b: bool)
        requires
            self.wf(),
            idx < self.params_spec().len(),
        ensures
            b == (self.slots_spec()[idx as int] is Some),
    {
        self.slots[idx].is_some()
    }

    /// Finalize the builder, yielding an invocable [`Args`] exactly when
    /// every slot is filled.
    ///
    /// Consumes the builder either way: an incomplete argument pack is
    /// never observable afterwards, and a consumed builder cannot be
    /// reused.
    pub fn into_args(self) -> (r: Option<Args<'f, E>>)
        requires
            self.wf(),
        ensures
            r is Some <==> self.complete(),
            r matches Some(a) ==> {
                &&& a.wf()
                &&& a.params_spec() == self.params_spec()
                &&& a.ret_spec() == self.ret_spec()
                &&& a.vals_spec().len() == self.slots_spec().len()
                &&& forall|i: int|
                    0 <= i < a.vals_spec().len() ==> self.slots_spec()[i] == Some(
                        a.vals_spec()[i],
                    )
            },
    {
        let mut vals: Vec<AbiValue> = Vec::new();
        let mut i: usize = 0;
        while i < self.slots.len()
            invariant
                self.wf(),
                i <= self.slots_spec().len(),
                vals@.len() == i,
                forall|j: int| 0 <= j < i ==> self.slots_spec()[j] == Some(vals@[j]),
            decreases self.slots_spec().len() - i,
        {
            match self.slots[i] {
                Some(v) => vals.push(v),
                None => {
                    return None;
                },
            }
            i = i + 1;
        }
        proof {
            assert forall|k: int|
                0 <= k < vals@.len() implies vals@[k].kind_spec() == self.params_spec()[k] by {
                assert(self.slots_spec()[k] == Some(vals@[k]));
            }
        }
        Some(Args { func: self.func, vals })
    }
}

/// The two invocation paths accept exactly the same calls: any value list
/// extracted from a well-formed, fully filled builder has the arity of the
/// target signature and matches it kind for kind, so it passes both bulk
/// validation checks (arity first, then per-position kinds) and the bulk
/// entry point performs the native call on it just as the finalized
/// [`Args`] does.
pub proof fn lemma_complete_builder_passes_bulk_checks<'f, E>(
    b: ArgsBuilder<'f, E>,
    vals: Seq<AbiValue>,
)
    requires
        b.wf(),
        b.complete(),
        vals.len() == b.slots_spec().len(),
        forall|i: int| 0 <= i < vals.len() ==> b.slots_spec()[i] == Some(vals[i]),
    ensures
        vals.len() == b.params_spec().len(),
        kinds_match(b.params_spec(), vals),
{
    assert forall|i: int|
        0 <= i < b.params_spec().len() && i < vals.len() implies vals[i].kind_spec()
        == b.params_spec()[i] by {
        assert(b.slots_spec()[i] == Some(vals[i]));
    }
}

/// A builder's completed, validated output: a fully populated, positionally
/// ordered argument list for one compiled function.
///
/// A value of this type exists only in a state valid for invocation; there
/// is no way to observe a partially built or mistyped argument pack.
pub struct Args<'f, E> {
    func: &'f CompiledFunction<E>,
    vals: Vec<AbiValue>,
}

impl<'f, E> Args<'f, E> {
    /// The declared parameter kinds of the target function.
    pub closed spec fn params_spec(&self) -> Seq<AbiType> {
        self.func.params_spec()
    }

    /// The declared return kind of the target function.
    pub closed spec fn ret_spec(&self) -> Option<AbiType> {
        self.func.ret_spec()
    }

    /// The validated argument values, in positional order.
    pub closed spec fn vals_spec(&self) -> Seq<AbiValue> {
        self.vals@
    }

    /// One value per declared parameter, each of exactly the declared kind
    /// at its position.
    pub open spec fn wf(&self) -> bool {
        &&& self.vals_spec().len() == self.params_spec().len()
        &&& kinds_match(self.params_spec(), self.vals_spec())
    }
}

impl<'f, E: NativeEntry> Args<'f, E> {
    /// Perform the native call through the shared trampoline and read the
    /// return slot back per the declared return kind.
    pub fn invoke(self) -> (r: Option<AbiValue>)
        requires
            self.wf(),
        ensures
            return_matches(self.ret_spec(), r),
            exists|w: u64| r == tagged_return(self.ret_spec(), w),
    {
        self.func.trampoline(self.vals.as_slice())
    }
}

impl<E> CompiledFunction<E> {
    /// Open a fresh, all-slots-empty builder targeting this function.
    pub fn args_builder<'f>(&'f self) -> (b: ArgsBuilder<'f, E>)
        ensures
            b.wf(),
            b.params_spec() == self.params_spec(),
            b.ret_spec() == self.ret_spec(),
            b.slots_spec().len() == self.params_spec().len(),
            forall|i: int| 0 <= i < b.slots_spec().len() ==> b.slots_spec()[i] is None,
    {
        let n: usize = self.arity();
        let mut slots: Vec<Option<AbiValue>> = Vec::new();
        let mut i: usize = 0;
        while i < n
            invariant
                i <= n,
                slots@.len() == i,
                forall|j: int| 0 <= j < i ==> slots@[j] is None,
            decreases n - i,
        {
            slots.push(None);
            i = i + 1;
        }
        ArgsBuilder { func: self, slots }
    }
}

} // verus!
