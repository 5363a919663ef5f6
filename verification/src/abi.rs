//! The closed set of value kinds that may cross the native boundary, the
//! tagged carrier for one concrete value of such a kind, and the errors a
//! call site can be handed before any native code runs.

use vstd::prelude::*;

verus! {

/// A kind of value representable under the native calling convention.
///
/// Purely descriptive: a tag with no payload. The set is closed but designed
/// to grow; call sites match on it exhaustively.
#[derive(Clone, Copy, Debug, PartialEq, Eq, Structural)]
pub enum AbiType {
    /// 64-bit signed integer.
    Int,
    /// 64-bit IEEE 754 floating point, carried across the boundary as its
    /// raw bit pattern.
    Float,
}

/// A concrete value tagged with its [`AbiType`].
///
/// This is the only representation interpreter-side code may pass across the
/// native boundary. Equality is structural: kind and payload must both match.
/// A floating-point payload is held as its 64-bit IEEE 754 bit pattern, so
/// the harness itself never computes on floats; the embedder converts with
/// `f64::to_bits` / `f64::from_bits` at the edge.
#[derive(Clone, Copy, Debug, PartialEq, Eq, Structural)]
pub enum AbiValue {
    /// A 64-bit signed integer value.
    Int(i64),
    /// The bit pattern of a 64-bit floating-point value.
    Float(u64),
}

impl AbiValue {
    /// The kind this value carries, as a mathematical function of the value.
    pub open spec fn kind_spec(&self) -> AbiType {
        match *self {
            AbiValue::Int(_) => AbiType::Int,
            AbiValue::Float(_) => AbiType::Float,
        }
    }

    /// Report the kind of this value without consuming it.
    ///
    /// No coercion ever happens: an integer value is never treated as a
    /// float, nor the reverse.
    #[verifier::when_used_as_spec(kind_spec)]
    pub fn kind(&self) -> (k: AbiType)
        ensures
            k == self.kind_spec(),
    {
        match *self {
            AbiValue::Int(_) => AbiType::Int,
            AbiValue::Float(_) => AbiType::Float,
        }
    }
}

/// A validation failure detected before any native call.
///
/// Every variant is deterministic in the signature and the supplied values
/// and carries no partial state; a rejected call simply never executes
/// native code.
#[derive(Clone, Copy, Debug, PartialEq, Eq, Structural)]
pub enum JitArgumentError {
    /// The supplied argument count differs from the signature's parameter
    /// count (bulk invocation; checked before any type comparison).
    WrongNumberOfArguments,
    /// Some supplied value's kind differs from the declared kind at its
    /// position.
    ArgumentTypeMismatch,
    /// A builder slot index at or beyond the signature's arity
    /// (incremental construction only).
    IndexOutOfRange,
}

} // verus!
