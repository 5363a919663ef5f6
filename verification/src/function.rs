//! The shareable handle to one compiled function and the invocation
//! trampoline: validation, argument layout, the native call, and the
//! conversion of the raw return slot back into a tagged value.

use vstd::prelude::*;

use crate::abi::AbiType;
use crate::abi::AbiValue;
use crate::abi::JitArgumentError;
use crate::signature::kinds_match;
use crate::signature::FunctionSignature;

verus! {

/// The machine word a value occupies under the calling convention this
/// harness assumes: an integer as its two's-complement bits, a float as its
/// IEEE 754 bits.
pub open spec fn word_of(v: AbiValue) -> u64 {
    match v {
        AbiValue::Int(x) => x as u64,
        AbiValue::Float(bits) => bits,
    }
}

/// The tagged value read back from the single raw return slot `w`, for a
/// declared return kind `ret`: nothing when no return kind is declared,
/// whatever the slot holds notwithstanding.
pub open spec fn tagged_return(ret: Option<AbiType>, w: u64) -> Option<AbiValue> {
    match ret {
        None => None,
        Some(AbiType::Int) => Some(AbiValue::Int(w as i64)),
        Some(AbiType::Float) => Some(AbiValue::Float(w)),
    }
}

/// The result `r` of an invocation respects the declared return kind `ret`:
/// a value of exactly that kind when one is declared, nothing otherwise.
pub open spec fn return_matches(ret: Option<AbiType>, r: Option<AbiValue>) -> bool {
    match ret {
        Some(t) => r matches Some(v) && v.kind_spec() == t,
        None => r is None,
    }
}

/// An entry point invocable under the calling convention this harness
/// assumes: arguments laid out positionally as machine words, one raw
/// return slot.
///
/// The code-generation backend that produces such entry points is an
/// external collaborator; the harness promises nothing about the word an
/// entry leaves in the return slot, and reads it only when the signature
/// declares a return kind.
pub trait NativeEntry {
    /// Run the compiled code on the positionally laid-out argument words
    /// and hand back the raw return slot.
    fn call(&self, words: &Vec<u64>) -> u64;
}

/// An opaque, immutable handle to executable code together with the one
/// signature it was compiled against.
///
/// Produced by the code-generation backend, consumed here. It holds no
/// mutable state, so independent call sites may share and invoke it freely.
pub struct CompiledFunction<E> {
    sig: FunctionSignature,
    entry: E,
}

impl<E> CompiledFunction<E> {
    /// The declared parameter kinds of the attached signature.
    pub closed spec fn params_spec(&self) -> Seq<AbiType> {
        self.sig.params_spec()
    }

    /// The declared return kind of the attached signature.
    pub closed spec fn ret_spec(&self) -> Option<AbiType> {
        self.sig.ret_spec()
    }

    /// Attach `sig` to the entry point `entry`.
    ///
    /// The backend guarantees, by construction, that the entry point is
    /// total for every argument tuple that matches `sig`; nothing here
    /// re-checks that.
    pub fn new(sig: FunctionSignature, entry: E) -> (f: Self)
        ensures
            f.params_spec() == sig.params_spec(),
            f.ret_spec() == sig.ret_spec(),
    {
        CompiledFunction { sig, entry }
    }

    /// The number of parameters the attached signature declares.
    pub fn arity(&self) -> (n: usize)
        ensures
            n == self.params_spec().len(),
    {
        self.sig.arity()
    }

    /// The declared kind of the parameter at position `i`.
    pub fn param(&self, i: usize) -> (t: AbiType)
        requires
            i < self.params_spec().len(),
        ensures
            t == self.params_spec()[i as int],
    {
        self.sig.param(i)
    }

    /// The declared return kind, if any.
    pub fn return_type(&self) -> (t: Option<AbiType>)
        ensures
            t == self.ret_spec(),
    {
        self.sig.return_type()
    }
}

/// Lay validated arguments out as machine words, in positional order.
fn marshal(vals: &[AbiValue]) -> (words: Vec<u64>)
    ensures
        words@.len() == vals@.len(),
        forall|i: int| 0 <= i < vals@.len() ==> words@[i] == word_of(vals@[i]),
{
    let mut words: Vec<u64> = Vec::new();
    let mut i: usize = 0;
    while i < vals.len()
        invariant
            i <= vals@.len(),
            words@.len() == i,
            forall|j: int| 0 <= j < i ==> words@[j] == word_of(vals@[j]),
        decreases vals@.len() - i,
    {
        let w: u64 = match vals[i] {
            AbiValue::Int(x) => #[verifier::truncate] (x as u64),
            AbiValue::Float(bits) => bits,
        };
        words.push(w);
        i = i + 1;
    }
    words
}

impl<E: NativeEntry> CompiledFunction<E> {
    /// The trampoline: lay the validated arguments out per the calling
    /// convention, perform the native call, and read the return slot back
    /// as a value of the declared return kind — or discard it when no
    /// return kind is declared.
    pub(crate) fn trampoline(&self, vals: &[AbiValue]) -> (r: Option<AbiValue>)
        requires
            vals@.len() == self.params_spec().len(),
            kinds_match(self.params_spec(), vals@),
        ensures
            exists|w: u64| r == tagged_return(self.ret_spec(), w),
            return_matches(self.ret_spec(), r),
    {
        let words = marshal(vals);
        let w: u64 = self.entry.call(&words);
        let r = match self.sig.return_type() {
            None => None,
            Some(AbiType::Int) => Some(AbiValue::Int(#[verifier::truncate] (w as i64))),
            Some(AbiType::Float) => Some(AbiValue::Float(w)),
        };
        proof {
            // The word the entry left in the return slot witnesses the
            // postcondition's existential.
            assert(r == tagged_return(self.ret_spec(), w));
        }
        r
    }

    /// Validate `args` in bulk against the signature and, only if every
    /// check passes, perform the native call.
    ///
    /// Arity is compared first, as a single count comparison, whether the
    /// slice is too short or too long; only then are kinds compared in
    /// positional order, failing on the first mismatch. No native code runs
    /// unless both checks pass for every argument.
    pub fn invoke(&self, args: &[AbiValue]) -> (r: Result<Option<AbiValue>, JitArgumentError>)
        ensures
            args@.len() != self.params_spec().len() ==> r == Err::<Option<AbiValue>,
                JitArgumentError,
            >(JitArgumentError::WrongNumberOfArguments),
            args@.len() == self.params_spec().len() && !kinds_match(self.params_spec(), args@)
                ==> r == Err::<Option<AbiValue>, JitArgumentError>(
                JitArgumentError::ArgumentTypeMismatch,
            ),
            args@.len() == self.params_spec().len() && kinds_match(self.params_spec(), args@)
                ==> (r matches Ok(out) && return_matches(self.ret_spec(), out) && exists|w: u64|
                out == tagged_return(self.ret_spec(), w)),
    {
        if args.len() != self.arity() {
            return Err(JitArgumentError::WrongNumberOfArguments);
        }
        let mut i: usize = 0;
        while i < args.len()
            invariant
                args@.len() == self.params_spec().len(),
                i <= args@.len(),
                forall|j: int| 0 <= j < i ==> args@[j].kind_spec() == self.params_spec()[j],
            decreases args@.len() - i,
        {
            let given = args[i].kind();
            let declared = self.param(i);
            if given != declared {
                return Err(JitArgumentError::ArgumentTypeMismatch);
            }
            i = i + 1;
        }
        Ok(self.trampoline(args))
    }
}

} // verus!
