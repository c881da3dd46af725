use lu::compiler::{
    Bytecode, CompileOptions, CompileResult, Compiler, DebugInfoLevel, OptimizationLevel,
};

#[test]
fn levels_have_their_numbers() {
    assert_eq!(i32::from(OptimizationLevel::Off), 0);
    assert_eq!(i32::from(OptimizationLevel::Basic), 1);
    assert_eq!(i32::from(OptimizationLevel::Full), 2);
    assert_eq!(i32::from(DebugInfoLevel::Off), 0);
    assert_eq!(i32::from(DebugInfoLevel::Basic), 1);
    assert_eq!(i32::from(DebugInfoLevel::Full), 2);
}

#[test]
fn defaults_optimize_fully_with_basic_debug_info() {
    assert_eq!(OptimizationLevel::default(), OptimizationLevel::Full);
    assert_eq!(DebugInfoLevel::default(), DebugInfoLevel::Basic);
    let compiler = Compiler::default();
    assert_eq!(
        compiler.options(),
        CompileOptions {
            optimization_level: 2,
            debug_level: 1,
            type_info_level: 0,
            coverage_level: 0
        }
    );
}

#[test]
fn builders_change_one_level_each() {
    let compiler = Compiler::default().with_optimization_level(OptimizationLevel::Off);
    assert_eq!(compiler.optimization_level, OptimizationLevel::Off);
    assert_eq!(compiler.debug_level, DebugInfoLevel::Basic);
    let compiler = compiler.with_debug_level(DebugInfoLevel::Full);
    assert_eq!(compiler.optimization_level, OptimizationLevel::Off);
    assert_eq!(compiler.debug_level, DebugInfoLevel::Full);
    assert_eq!(
        compiler.options(),
        CompileOptions {
            optimization_level: 0,
            debug_level: 2,
            type_info_level: 0,
            coverage_level: 0
        }
    );
}

#[test]
fn compile_hands_over_source_and_options() {
    let compiler = Compiler::default().with_optimization_level(OptimizationLevel::Basic);
    let request = compiler.compile(b"return 1");
    assert_eq!(request.source, b"return 1");
    assert_eq!(request.options.optimization_level, 1);
    assert_eq!(request.options.debug_level, 1);
}

#[test]
fn good_chunk_has_nonzero_first_byte() {
    let result = CompileResult::new(vec![6, 1, 2, 3]);
    let bytecode = result.bytecode();
    assert_eq!(bytecode.len(), 4);
    assert!(!bytecode.is_empty());
    assert_eq!(bytecode.result(), Ok(()));
    assert_eq!(bytecode.bytes(), &[6, 1, 2, 3]);
}

#[test]
fn failed_chunk_carries_its_message() {
    let mut bytes = vec![0u8];
    bytes.extend_from_slice(b":1: syntax error");
    let result = CompileResult::new(bytes);
    let bytecode = result.bytecode();
    assert_eq!(bytecode.len(), 17);
    assert_eq!(bytecode.result(), Err(&b":1: syntax error"[..]));
}

#[test]
fn failed_chunk_may_have_an_empty_message() {
    let bytecode = Bytecode(&[0]);
    assert_eq!(bytecode.result(), Err(&b""[..]));
    let one = Bytecode(&[1]);
    assert_eq!(one.result(), Ok(()));
}

#[test]
fn empty_chunk_is_told_apart() {
    let bytecode = Bytecode(&[]);
    assert!(bytecode.is_empty());
    assert_eq!(bytecode.len(), 0);
}
