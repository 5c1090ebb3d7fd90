//! The analysis of modules that have been read already.

use finite_wasm::instrument::{AnalysisConfig, Error, Module};
use finite_wasm::operator::Operator;
use finite_wasm::partial_sum::PartialSumMap;
use finite_wasm::reader::{read_module, Body, Import, Section};
use finite_wasm::types::{BlockType, FuncType, ValType};
use finite_wasm::visitor::{Frame, StackSizeVisitor};
use wasmparser::BinaryReaderError;

/// Every value takes up one unit, but for those of type i64, which take up half of what can be
/// counted.
struct Units;

impl AnalysisConfig for Units {
    fn size_of_value(&self, ty: ValType) -> u64 {
        match ty {
            ValType::I64 => 1 << 63,
            _ => 1,
        }
    }

    fn size_of_label(&self) -> u64 {
        0
    }

    fn size_of_function_activation<Locals>(&self, locals: Locals) -> u64
    where
        Locals: Iterator<Item = (u32, ValType)>,
    {
        locals.map(|(count, _)| u64::from(count)).sum::<u64>() * 1000
    }
}

/// Something that could not be read.
fn failure() -> BinaryReaderError {
    match read_module(b"\0asn\x01\0\0\0").remove(0) {
        Err(error) => error,
        Ok(_) => panic!("the magic number is wrong"),
    }
}

fn types() -> Vec<FuncType> {
    vec![
        FuncType { params: vec![], results: vec![] },
        FuncType {
            params: vec![ValType::I32, ValType::F32],
            results: vec![ValType::F64, ValType::F64, ValType::F64],
        },
        FuncType { params: vec![ValType::I64, ValType::I64], results: vec![] },
    ]
}

fn analyze_body(ty: u32, body: Body) -> Option<Result<Module, Error>> {
    Module::analyze(
        vec![
            Ok(Section::TypeSection(Ok(types()))),
            Ok(Section::Other),
            Ok(Section::GlobalSection(Ok(vec![ValType::I32, ValType::I64]))),
            Ok(Section::FunctionSection(Ok(vec![ty]))),
            Ok(Section::CodeSectionEntry(body)),
        ],
        &Units,
    )
}

/// The size of a function without locals, if the analysis supports it.
fn size(operators: &[Operator]) -> Option<u64> {
    let operators = operators.iter().map(|op| Ok(*op)).collect();
    match analyze_body(0, Body { locals: Ok(vec![]), operators: Ok(operators) }) {
        Some(Ok(module)) => {
            assert_eq!(module.function_stack_sizes.len(), 1);
            Some(module.function_stack_sizes[0])
        }
        Some(Err(error)) => panic!("{}", error.message()),
        None => None,
    }
}

const BLOCK: Operator = Operator::Block { ty: BlockType::Empty };
const LOOP: Operator = Operator::Loop { ty: BlockType::Empty };
const IF: Operator = Operator::If { ty: BlockType::Empty };
const CONST: Operator = Operator::I32Const;
const END: Operator = Operator::End;

#[test]
fn nothing_is_no_size() {
    assert_eq!(size(&[]), Some(0));
    assert_eq!(size(&[END]), Some(0));
    assert_eq!(size(&[Operator::Nop, END]), Some(0));
}

#[test]
fn maximum_is_remembered() {
    let ops = [CONST, CONST, CONST, Operator::Drop, Operator::Drop, Operator::Drop, CONST, END];
    assert_eq!(size(&ops), Some(3));
}

#[test]
fn nested_blocks_add_up() {
    assert_eq!(size(&[CONST, BLOCK, CONST, CONST, END, END]), Some(3));
    assert_eq!(size(&[CONST, LOOP, CONST, CONST, BLOCK, CONST, END, END, END]), Some(4));
    // What is in a block without results is gone when it ends.
    assert_eq!(size(&[BLOCK, CONST, CONST, END, CONST, END]), Some(2));
    assert_eq!(size(&[BLOCK, CONST, CONST, END, CONST, CONST, CONST, END]), Some(3));
}

#[test]
fn empty_block_is_neutral() {
    assert_eq!(size(&[CONST, CONST, BLOCK, END, END]), size(&[CONST, CONST, END]));
}

#[test]
fn larger_branch_counts() {
    let small_first = [CONST, IF, CONST, Operator::Else, CONST, CONST, CONST, END, END];
    assert_eq!(size(&small_first), Some(3));
    let large_first = [CONST, IF, CONST, CONST, CONST, CONST, Operator::Else, CONST, END, END];
    assert_eq!(size(&large_first), Some(4));
    // An `if` without `else` uses the maximum seen so far.
    assert_eq!(size(&[CONST, IF, CONST, CONST, END, END]), Some(2));
    // The condition is taken off the stack before the branches start.
    assert_eq!(size(&[CONST, CONST, IF, END, END]), Some(2));
    assert_eq!(size(&[CONST, CONST, IF, CONST, CONST, Operator::Else, END, END]), Some(3));
}

#[test]
fn else_needs_an_if() {
    assert_eq!(size(&[Operator::Else, END]), None);
    assert_eq!(size(&[BLOCK, Operator::Else, END, END]), None);
    assert_eq!(size(&[LOOP, Operator::Else, END, END]), None);
    assert_eq!(size(&[CONST, IF, Operator::Else, Operator::Else, END, END]), None);
}

#[test]
fn blocks_behind_a_branch_do_not_count() {
    let branches = [
        Operator::Unreachable,
        Operator::Br,
        Operator::BrTable,
        Operator::Return,
        Operator::ReturnCall,
        Operator::ReturnCallIndirect,
    ];
    for branch in branches {
        let ops = [CONST, branch, BLOCK, CONST, CONST, CONST, END, END];
        assert_eq!(size(&ops), Some(1));
        // All the blocks inside of it do not count either.
        let ops = [CONST, branch, BLOCK, LOOP, CONST, CONST, END, END, END];
        assert_eq!(size(&ops), Some(1));
        // The branch ends the block that it is in, and no other.
        let ops = [BLOCK, branch, END, BLOCK, CONST, CONST, CONST, END, END];
        assert_eq!(size(&ops), Some(3));
        // The other branch of an `if` is not affected.
        let ops = [CONST, IF, branch, Operator::Else, BLOCK, CONST, CONST, END, END, END];
        assert_eq!(size(&ops), Some(2));
    }
}

#[test]
fn instructions_behind_a_branch_do_not_count() {
    let branch = Operator::Br;
    assert_eq!(size(&[branch, Operator::I64Const, Operator::Drop, END]), Some(0));
    assert_eq!(size(&[CONST, branch, CONST, CONST, END]), Some(1));
    // There may be less on the stack than such instructions take off it.
    assert_eq!(size(&[branch, Operator::Drop, Operator::I32Add, END]), Some(0));
    assert_eq!(size(&[branch, IF, CONST, Operator::Else, CONST, END, END]), Some(0));
    assert_eq!(size(&[branch, Operator::Block { ty: BlockType::FuncType(1) }, END, END]), Some(0));
    // Even those count for nothing that are not supported elsewhere.
    assert_eq!(size(&[branch, Operator::TableGet, END]), Some(0));
    // What follows the block counts again, and finds the results of the block.
    let block = Operator::Block { ty: BlockType::Type(ValType::I32) };
    assert_eq!(size(&[block, CONST, branch, CONST, END, CONST, END]), Some(2));
}

#[test]
fn results_stay_behind() {
    let block = Operator::Block { ty: BlockType::Type(ValType::F32) };
    assert_eq!(size(&[block, CONST, END, Operator::Drop, END]), Some(1));
    assert_eq!(size(&[block, CONST, END, CONST, END]), Some(2));
    assert_eq!(size(&[BLOCK, CONST, END, Operator::Drop, END]), None);
    // Two parameters, three results.
    let looped = Operator::Loop { ty: BlockType::FuncType(1) };
    assert_eq!(size(&[CONST, CONST, CONST, looped, END, CONST, END]), Some(5));
    // Both branches of an `if` give the same result.
    let conditional = Operator::If { ty: BlockType::Type(ValType::I32) };
    let ops = [CONST, conditional, CONST, Operator::Else, CONST, END, CONST, END];
    assert_eq!(size(&ops), Some(2));
    // The result does not fit.
    let block = Operator::Block { ty: BlockType::Type(ValType::I64) };
    assert_eq!(size(&[Operator::I64Const, block, END, END]), None);
}

#[test]
fn size_is_independent_of_other_bodies() {
    let body = |ops: &[Operator]| {
        let operators = ops.iter().map(|op| Ok(*op)).collect();
        Ok(Section::CodeSectionEntry(Body { locals: Ok(vec![]), operators: Ok(operators) }))
    };
    let second = |first: &[Operator]| {
        let sections = vec![
            Ok(Section::TypeSection(Ok(types()))),
            Ok(Section::FunctionSection(Ok(vec![0, 1]))),
            body(first),
            body(&[CONST, END]),
        ];
        match Module::analyze(sections, &Units) {
            Some(Ok(module)) => module.function_stack_sizes[1],
            _ => panic!("the module is supported"),
        }
    };
    assert_eq!(second(&[END]), 3);
    assert_eq!(second(&[CONST, CONST, CONST, CONST, END]), 3);
}

#[test]
fn conditional_branch_takes_the_condition() {
    assert_eq!(size(&[CONST, CONST, Operator::BrIf, CONST, CONST, END]), Some(3));
    assert_eq!(size(&[CONST, Operator::BrIf, BLOCK, CONST, CONST, END, END]), Some(2));
    assert_eq!(size(&[Operator::BrIf, END]), None);
}

#[test]
fn blocks_move_their_parameters() {
    let block = Operator::Block { ty: BlockType::FuncType(1) };
    assert_eq!(size(&[CONST, CONST, CONST, block, CONST, END, END]), Some(4));
    // The parameters leave the outer frame, and the three results come into it.
    assert_eq!(size(&[CONST, CONST, block, END, CONST, END]), Some(4));
    // The parameters are not there.
    assert_eq!(size(&[CONST, block, END, END]), None);
    // There is no such type.
    assert_eq!(size(&[Operator::Block { ty: BlockType::FuncType(3) }, END, END]), None);
}

#[test]
fn drop_undoes_what_produces_a_value() {
    let global_get = Operator::GlobalGet { global_index: 1 };
    for op in [CONST, Operator::I64Const, Operator::F32Const, global_get] {
        let once = size(&[op, Operator::Drop, END]);
        assert_eq!(size(&[op, Operator::Drop, op, Operator::Drop, END]), once);
        assert!(once.is_some());
    }
}

#[test]
fn sizes_that_cannot_be_counted() {
    let i64_const = Operator::I64Const;
    assert_eq!(size(&[i64_const, END]), Some(1 << 63));
    assert_eq!(size(&[i64_const, i64_const, END]), None);
    assert_eq!(size(&[i64_const, BLOCK, i64_const, END, END]), None);
    assert_eq!(size(&[i64_const, BLOCK, CONST, END, END]), Some((1 << 63) + 1));
    let body = Body { locals: Ok(vec![]), operators: Ok(vec![]) };
    assert!(analyze_body(2, body).is_none());
}

#[test]
fn signatures() {
    let binary = Operator::I32Add;
    assert_eq!(size(&[CONST, CONST, binary, CONST, CONST, END]), Some(3));
    assert_eq!(size(&[CONST, binary, END]), None);
    assert_eq!(size(&[CONST, Operator::I32Eqz, CONST, END]), Some(2));
    assert_eq!(size(&[CONST, CONST, Operator::I32Eq, CONST, END]), Some(2));
    assert_eq!(size(&[CONST, Operator::I32Clz, CONST, END]), Some(2));
    assert_eq!(size(&[CONST, CONST, CONST, Operator::Select, CONST, END]), Some(3));
    // Conversions and loads take one operand for the one that they give.
    let wrap = Operator::I32WrapI64;
    assert_eq!(size(&[Operator::I64Const, wrap, CONST, END]), Some(1 << 63));
    assert_eq!(size(&[wrap, END]), None);
    for op in [wrap, Operator::F64ReinterpretI64, Operator::I32Load, Operator::V128Load8Splat] {
        assert_eq!(size(&[CONST, op, Operator::Drop, END]), Some(1));
        assert_eq!(size(&[CONST, op, Operator::Drop, Operator::Drop, END]), None);
    }
    // These take two operands and give one.
    for op in [Operator::V128Load8Lane, Operator::I8x16NarrowI16x8S] {
        assert_eq!(size(&[CONST, CONST, op, Operator::Drop, END]), Some(2));
        assert_eq!(size(&[CONST, CONST, op, Operator::Drop, Operator::Drop, END]), None);
    }
    // Stores take the address and the value.
    for op in [Operator::I32Store, Operator::F64Store, Operator::V128Store64Lane] {
        assert_eq!(size(&[CONST, CONST, op, CONST, CONST, END]), Some(2));
        assert_eq!(size(&[CONST, op, END]), None);
    }
    assert_eq!(size(&[CONST, CONST, CONST, Operator::MemoryFill, CONST, END]), Some(3));
    assert_eq!(size(&[CONST, Operator::I8x16Splat, CONST, CONST, END]), Some(3));
    assert_eq!(size(&[CONST, Operator::I8x16Bitmask, CONST, END]), Some(2));
    assert_eq!(size(&[CONST, CONST, Operator::TableGrow, CONST, END]), Some(2));
    assert_eq!(size(&[CONST, CONST, CONST, Operator::I32AtomicRmwCmpxchg, CONST, END]), Some(3));
    assert_eq!(size(&[Operator::RefNull { val_type: ValType::I64 }, END]), Some(1 << 63));
    for op in [Operator::Throw, Operator::TableGet, Operator::AtomicFence, Operator::Try] {
        assert_eq!(size(&[CONST, op, END]), None);
    }
}

#[test]
fn calls() {
    // The index in the table is taken off along with the arguments.
    let call = Operator::CallIndirect { index: 1 };
    assert_eq!(size(&[CONST, CONST, CONST, call, END]), Some(3));
    assert_eq!(size(&[CONST, CONST, CONST, CONST, call, END]), Some(4));
    assert_eq!(size(&[CONST, CONST, CONST, call, Operator::Drop, CONST, CONST, END]), Some(4));
    assert_eq!(size(&[CONST, CONST, call, END]), None);
    // The only function has type `[] -> []`.
    assert_eq!(size(&[CONST, Operator::Call { function_index: 0 }, CONST, END]), Some(2));
    assert_eq!(size(&[Operator::Call { function_index: 1 }, END]), None);
}

#[test]
fn instructions_behind_the_end_of_the_function() {
    assert_eq!(size(&[CONST, END, CONST, CONST, END]), Some(3));
}

#[test]
fn block_that_is_left_open() {
    // The size is that of the innermost frame.
    assert_eq!(size(&[CONST, CONST, BLOCK, CONST]), Some(1));
}

#[test]
fn activation_and_locals() {
    let locals = vec![Ok((2, ValType::I32)), Ok((0, ValType::F32)), Ok((3, ValType::I64))];
    let operators = vec![Ok(Operator::LocalGet { local_index: 1 }), Ok(Operator::End)];
    let body = Body { locals: Ok(locals), operators: Ok(operators) };
    match analyze_body(0, body) {
        Some(Ok(module)) => assert_eq!(module.function_stack_sizes, vec![5001]),
        _ => panic!("the module is supported"),
    }
    let locals = vec![Ok((2, ValType::I32)), Ok((3, ValType::I64))];
    let operators = vec![Ok(Operator::LocalGet { local_index: 5 }), Ok(Operator::End)];
    let body = Body { locals: Ok(locals), operators: Ok(operators) };
    assert!(analyze_body(0, body).is_none());
}

#[test]
fn parameters_are_the_first_locals() {
    let size_with_local = |local_index| {
        let operators = vec![Ok(Operator::LocalGet { local_index })];
        let locals = vec![Ok((1, ValType::I64))];
        match analyze_body(1, Body { locals: Ok(locals), operators: Ok(operators) }) {
            Some(Ok(module)) => Some(module.function_stack_sizes[0]),
            Some(Err(error)) => panic!("{}", error.message()),
            None => None,
        }
    };
    assert_eq!(size_with_local(0), Some(1003));
    assert_eq!(size_with_local(1), Some(1003));
    assert_eq!(size_with_local(2), Some(1002 + (1 << 63)));
    assert_eq!(size_with_local(3), None);
}

#[test]
fn error_operator_reader() {
    let body = Body { locals: Ok(vec![]), operators: Err(failure()) };
    match analyze_body(0, body) {
        Some(Err(error)) => {
            assert!(matches!(error, Error::OperatorReader(_)));
            assert_eq!(error.message(), "could not create a function operators’ reader");
            assert_eq!(error.source().to_string(), failure().to_string());
        }
        _ => panic!("there are no operators"),
    }
}

#[test]
fn errors_name_the_part() {
    type Part = Result<Section, BinaryReaderError>;
    fn outcome(part: Part) -> Error {
        match Module::analyze(vec![Ok(Section::Other), part, Err(failure())], &Units) {
            Some(Err(error)) => error,
            _ => panic!("the part cannot be read"),
        }
    }
    assert!(matches!(outcome(Err(failure())), Error::ParsePayload(_)));
    assert!(matches!(outcome(Ok(Section::TypeSection(Err(failure())))), Error::ParseTypes(_)));
    assert!(matches!(outcome(Ok(Section::GlobalSection(Err(failure())))), Error::ParseGlobals(_)));
    assert!(matches!(
        outcome(Ok(Section::FunctionSection(Err(failure())))),
        Error::ParseFunctions(_)
    ));
    let body = Body { locals: Err(failure()), operators: Ok(vec![]) };
    assert!(matches!(outcome(Ok(Section::CodeSectionEntry(body))), Error::LocalsReader(_)));
    let body = Body { locals: Ok(vec![Err(failure())]), operators: Ok(vec![]) };
    assert!(matches!(outcome(Ok(Section::CodeSectionEntry(body))), Error::ParseLocals(_)));
}

#[test]
fn function_without_a_type() {
    let body = Body { locals: Ok(vec![]), operators: Ok(vec![]) };
    assert!(analyze_body(3, body).is_none());
    // Its operators are not looked at.
    let body = Body { locals: Ok(vec![]), operators: Err(failure()) };
    assert!(analyze_body(3, body).is_none());
}

#[test]
fn order_of_imports_and_functions() {
    let sizes = |sections| match Module::analyze(sections, &Units) {
        Some(Ok(module)) => module.function_stack_sizes,
        _ => panic!("the module is supported"),
    };
    let imports = || {
        let imports = vec![Import::Function(1), Import::Other, Import::Global(ValType::F32)];
        Ok(Section::ImportSection(Ok(imports)))
    };
    let functions = || Ok(Section::FunctionSection(Ok(vec![0])));
    let globals = || Ok(Section::GlobalSection(Ok(vec![ValType::I64])));
    let body = || {
        let global_get = Operator::GlobalGet { global_index: 0 };
        let ops = vec![Ok(global_get), Ok(CONST), Ok(Operator::Call { function_index: 0 })];
        Ok(Section::CodeSectionEntry(Body { locals: Ok(vec![]), operators: Ok(ops) }))
    };
    let types = || Ok(Section::TypeSection(Ok(types())));
    assert_eq!(sizes(vec![types(), imports(), functions(), globals(), body()]), vec![3]);
    assert_eq!(sizes(vec![types(), functions(), globals(), imports(), body()]), vec![3]);
    let again = vec![types(), imports(), functions(), globals(), imports(), functions(), body()];
    assert_eq!(sizes(again), vec![3]);
    // The start of another module leaves the functions and globals, but no imports.
    let version = || Ok(Section::Version);
    let another = vec![types(), imports(), functions(), globals(), version(), body()];
    assert_eq!(sizes(another), vec![(1 << 63) + 1]);
}

#[test]
fn function_entry_opens_a_frame_on_top() {
    let types = types();
    let mut visitor = StackSizeVisitor {
        config: &Units,
        functions: &[0, 1, 3],
        types: &types,
        globals: &[],
        params: &[],
        locals: &PartialSumMap::new(),
        frames: vec![],
    };
    assert_eq!(visitor.visit_function_entry(0), Some(()));
    assert_eq!(visitor.max_size(), 0);
    assert_eq!(visitor.visit_operator(CONST), Some(()));
    assert_eq!(visitor.visit_function_entry(1), Some(()));
    assert_eq!(visitor.max_size(), 2);
    assert_eq!(visitor.frames.len(), 2);
    match &visitor.frames[0] {
        Frame::Block(info) => assert_eq!((info.operands.size(), info.complete), (1, false)),
        _ => panic!("the frame of the first function is a block"),
    }
    match &visitor.frames[1] {
        Frame::Block(info) => {
            assert_eq!(info.ty, BlockType::FuncType(1));
            assert_eq!((info.operands.len(), info.operands.size(), info.complete), (2, 2, false));
        }
        _ => panic!("the frame of the second function is a block"),
    }
    assert_eq!(visitor.visit_function_entry(2), None);
    assert_eq!(visitor.visit_function_entry(3), None);
}

#[test]
fn last_section_of_a_kind_counts() {
    let body = || Body {
        locals: Ok(vec![]),
        operators: Ok(vec![Ok(Operator::GlobalGet { global_index: 0 })]),
    };
    let result = Module::analyze(
        vec![
            Ok(Section::TypeSection(Ok(types()))),
            Ok(Section::FunctionSection(Ok(vec![0, 1]))),
            Ok(Section::GlobalSection(Ok(vec![ValType::I64]))),
            Ok(Section::CodeSectionEntry(body())),
            Ok(Section::GlobalSection(Ok(vec![ValType::I32]))),
            Ok(Section::CodeSectionEntry(body())),
        ],
        &Units,
    );
    match result {
        Some(Ok(module)) => assert_eq!(module.function_stack_sizes, vec![1 << 63, 3]),
        _ => panic!("the module is supported"),
    }
}
