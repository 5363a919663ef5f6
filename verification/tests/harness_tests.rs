use rustpython_jit::{AbiType, AbiValue, CompiledFunction, FunctionSignature, JitArgumentError, NativeEntry};

/// An entry point that leaves a fixed word in the return slot.
struct ReturnsWord(u64);

impl NativeEntry for ReturnsWord {
    fn call(&self, _words: &Vec<u64>) -> u64 {
        self.0
    }
}

/// An entry point that echoes its first argument word back through the
/// return slot, so tests can observe exactly which word was laid out.
struct EchoFirst;

impl NativeEntry for EchoFirst {
    fn call(&self, words: &Vec<u64>) -> u64 {
        words[0]
    }
}

fn compile<E: NativeEntry>(
    params: Vec<AbiType>,
    ret: Option<AbiType>,
    entry: E,
) -> CompiledFunction<E> {
    CompiledFunction::new(FunctionSignature::new(params, ret), entry)
}

#[test]
fn test_no_return_value() {
    // No parameters and no declared return: the call still happens, and
    // whatever the code leaves in the return slot is never interpreted.
    let func = compile(vec![], None, ReturnsWord(0xdead_beef));
    assert_eq!(func.invoke(&[]), Ok(None));

    // The incremental path: a zero-slot builder is complete from the start.
    let args = func.args_builder().into_args();
    assert!(args.is_some());
    assert_eq!(args.unwrap().invoke(), None);
}

#[test]
fn no_declared_return_discards_slot() {
    let func = compile(vec![AbiType::Int], None, ReturnsWord(42));
    assert_eq!(func.invoke(&[AbiValue::Int(5)]), Ok(None));
}

#[test]
fn arity_is_checked_before_types() {
    // One value, wrong in both count and kind: the count must win.
    let func = compile(
        vec![AbiType::Int, AbiType::Float],
        Some(AbiType::Int),
        ReturnsWord(1),
    );
    assert_eq!(
        func.invoke(&[AbiValue::Float(f64::to_bits(2.0))]),
        Err(JitArgumentError::WrongNumberOfArguments)
    );
}

#[test]
fn builder_rejects_index_out_of_range() {
    let func = compile(vec![AbiType::Int, AbiType::Float], None, ReturnsWord(0));
    let mut builder = func.args_builder();
    assert_eq!(
        builder.set(2, AbiValue::Int(0)),
        Err(JitArgumentError::IndexOutOfRange)
    );
    assert!(!builder.is_set(0));
    assert!(!builder.is_set(1));
}

#[test]
fn builder_last_write_wins() {
    let func = compile(vec![AbiType::Int], Some(AbiType::Int), EchoFirst);
    let mut builder = func.args_builder();
    assert_eq!(builder.set(0, AbiValue::Int(7)), Ok(()));
    assert_eq!(builder.set(0, AbiValue::Int(9)), Ok(()));
    let args = builder.into_args().unwrap();
    assert_eq!(args.invoke(), Some(AbiValue::Int(9)));
}

#[test]
fn rejected_set_keeps_previous_value() {
    let func = compile(vec![AbiType::Int], Some(AbiType::Int), EchoFirst);
    let mut builder = func.args_builder();
    assert_eq!(builder.set(0, AbiValue::Int(7)), Ok(()));
    assert_eq!(
        builder.set(0, AbiValue::Float(f64::to_bits(3.0))),
        Err(JitArgumentError::ArgumentTypeMismatch)
    );
    assert!(builder.is_set(0));
    let args = builder.into_args().unwrap();
    assert_eq!(args.invoke(), Some(AbiValue::Int(7)));
}

#[test]
fn float_return_is_tagged_with_declared_kind() {
    let func = compile(
        vec![],
        Some(AbiType::Float),
        ReturnsWord(f64::to_bits(2.5)),
    );
    assert_eq!(
        func.invoke(&[]),
        Ok(Some(AbiValue::Float(f64::to_bits(2.5))))
    );
}

#[test]
fn int_argument_word_round_trips() {
    // A negative integer crosses the boundary as its two's-complement
    // word and comes back unchanged through the echoing entry.
    let func = compile(vec![AbiType::Int], Some(AbiType::Int), EchoFirst);
    assert_eq!(
        func.invoke(&[AbiValue::Int(-5)]),
        Ok(Some(AbiValue::Int(-5)))
    );
}

#[test]
fn float_argument_word_round_trips() {
    let bits = f64::to_bits(3.25);
    let func = compile(vec![AbiType::Float], Some(AbiType::Float), EchoFirst);
    assert_eq!(
        func.invoke(&[AbiValue::Float(bits)]),
        Ok(Some(AbiValue::Float(bits)))
    );
}

#[test]
fn builder_and_bulk_agree_on_the_same_values() {
    let func = compile(vec![AbiType::Int, AbiType::Float], Some(AbiType::Int), EchoFirst);
    let values = [AbiValue::Int(11), AbiValue::Float(f64::to_bits(4.0))];

    let bulk = func.invoke(&values);

    let mut builder = func.args_builder();
    assert_eq!(builder.set(0, values[0]), Ok(()));
    assert_eq!(builder.set(1, values[1]), Ok(()));
    let incremental = builder.into_args().unwrap().invoke();

    assert_eq!(bulk, Ok(incremental));
    assert_eq!(bulk, Ok(Some(AbiValue::Int(11))));
}

#[test]
fn mismatch_reported_at_first_offending_position() {
    // Both positions are wrong; the report is the same mismatch error, and
    // no call happens (the entry would echo, yet nothing is returned).
    let func = compile(vec![AbiType::Int, AbiType::Float], Some(AbiType::Int), EchoFirst);
    assert_eq!(
        func.invoke(&[AbiValue::Float(f64::to_bits(1.0)), AbiValue::Int(2)]),
        Err(JitArgumentError::ArgumentTypeMismatch)
    );
}
