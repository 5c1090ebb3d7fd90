//! Modules in the binary format, from the bytes to the sizes.

use finite_wasm::instrument::{AnalysisConfig, Error, Module};
use finite_wasm::operator::Operator;
use finite_wasm::reader::{read_module, Body, Import, Section};
use finite_wasm::types::{BlockType, ValType};

const I32: u8 = 0x7f;
const I64: u8 = 0x7e;
const F32: u8 = 0x7d;
const F64: u8 = 0x7c;
const V128: u8 = 0x7b;
const FUNCREF: u8 = 0x70;
const EXTERNREF: u8 = 0x6f;

struct Sizes;

impl AnalysisConfig for Sizes {
    fn size_of_value(&self, ty: ValType) -> u64 {
        match ty {
            ValType::I32 => 4,
            ValType::I64 => 8,
            ValType::F32 => 40,
            ValType::F64 => 80,
            ValType::V128 => 1600,
            ValType::FuncRef => 3200,
            ValType::ExternRef => 6400,
        }
    }

    fn size_of_label(&self) -> u64 {
        0
    }

    fn size_of_function_activation<Locals>(&self, locals: Locals) -> u64
    where
        Locals: Iterator<Item = (u32, ValType)>,
    {
        100_000
            + locals
                .map(|(count, ty)| u64::from(count) * self.size_of_value(ty))
                .sum::<u64>()
    }
}

/// A section or a function body with its length in front.
fn sized(contents: &[u8]) -> Vec<u8> {
    assert!(contents.len() < 128);
    let mut bytes = vec![contents.len() as u8];
    bytes.extend_from_slice(contents);
    bytes
}

fn section(id: u8, contents: &[u8]) -> Vec<u8> {
    let mut bytes = vec![id];
    bytes.extend(sized(contents));
    bytes
}

fn module(sections: &[Vec<u8>]) -> Vec<u8> {
    let mut bytes = b"\0asm\x01\0\0\0".to_vec();
    for section in sections {
        bytes.extend_from_slice(section);
    }
    bytes
}

fn code(bodies: &[&[u8]]) -> Vec<u8> {
    let mut contents = vec![bodies.len() as u8];
    for body in bodies {
        contents.extend(sized(body));
    }
    section(10, &contents)
}

/// Two function types: `[] -> []` and `[i32 i64] -> [f32]`.
fn types() -> Vec<u8> {
    section(1, &[2, 0x60, 0, 0, 0x60, 2, I32, I64, 1, F32])
}

/// A module with one function of type `[] -> []`.
fn single(body: &[u8]) -> Vec<u8> {
    module(&[types(), section(3, &[1, 0]), code(&[body])])
}

fn sizes(bytes: &[u8]) -> Vec<u64> {
    assert!(Module::is_supported(bytes, &Sizes));
    match Module::new(bytes, &Sizes) {
        Ok(module) => module.function_stack_sizes,
        Err(error) => panic!("{}", error.message()),
    }
}

fn error(bytes: &[u8]) -> Error {
    assert!(Module::is_supported(bytes, &Sizes));
    match Module::new(bytes, &Sizes) {
        Ok(_) => panic!("the module can be read"),
        Err(error) => error,
    }
}

fn unsupported(bytes: &[u8]) -> bool {
    !Module::is_supported(bytes, &Sizes) && Module::try_new(bytes, &Sizes).is_none()
}

fn bodies(bytes: &[u8]) -> Vec<Body> {
    let mut bodies = vec![];
    for section in read_module(bytes) {
        if let Ok(Section::CodeSectionEntry(body)) = section {
            bodies.push(body);
        }
    }
    bodies
}

fn operators(bytes: &[u8]) -> Vec<Operator> {
    let body = bodies(bytes).remove(0);
    let operators = body.operators.unwrap();
    operators.into_iter().map(|op| op.unwrap()).collect()
}

#[test]
fn module_without_functions() {
    assert_eq!(sizes(&module(&[])), vec![]);
}

#[test]
fn empty_function() {
    assert_eq!(sizes(&single(&[0, 0x0b])), vec![100_000]);
}

#[test]
fn drop_takes_the_last_value() {
    // i32.const 42; i64.const 42; drop; f32.const 42.0
    let body = [0, 0x41, 42, 0x42, 42, 0x1a, 0x43, 0, 0, 0x28, 0x42, 0x0b];
    assert_eq!(sizes(&single(&body)), vec![100_044]);
    // Without the `drop` all three of them are on the stack.
    let body = [0, 0x41, 42, 0x42, 42, 0x43, 0, 0, 0x28, 0x42, 0x0b];
    assert_eq!(sizes(&single(&body)), vec![100_052]);
}

#[test]
fn locals_belong_to_the_activation() {
    // Two locals of type i32 and three of type v128.
    let body = [2, 2, I32, 3, V128, 0x0b];
    assert_eq!(sizes(&single(&body)), vec![104_808]);
}

#[test]
fn local_get_reads_the_type_of_the_local() {
    for (index, size) in [(0, 4), (1, 4), (2, 1600), (4, 1600), (5, 80)] {
        let body = [3, 2, I32, 3, V128, 1, F64, 0x20, index, 0x0b];
        assert_eq!(sizes(&single(&body)), vec![104_888 + size]);
    }
    assert!(unsupported(&single(&[3, 2, I32, 3, V128, 1, F64, 0x20, 6, 0x0b])));
}

#[test]
fn global_get_reads_the_type_of_the_global() {
    let mut globals = vec![7];
    globals.extend([I32, 0, 0x41, 0, 0x0b]);
    globals.extend([I64, 0, 0x42, 0, 0x0b]);
    globals.extend([F32, 0, 0x43, 0, 0, 0, 0, 0x0b]);
    globals.extend([F64, 0, 0x44, 0, 0, 0, 0, 0, 0, 0, 0, 0x0b]);
    globals.extend([V128, 0, 0xfd, 12, 0, 0, 0, 0, 0, 0, 0, 0, 0, 0, 0, 0, 0, 0, 0, 0, 0x0b]);
    globals.extend([FUNCREF, 0, 0xd0, FUNCREF, 0x0b]);
    globals.extend([EXTERNREF, 0, 0xd0, EXTERNREF, 0x0b]);
    let globals = section(6, &globals);
    let expected = [4, 8, 40, 80, 1600, 3200, 6400];
    for (index, size) in expected.into_iter().enumerate() {
        let body = [0, 0x23, index as u8, 0x0b];
        let bytes =
            module(&[types(), section(3, &[1, 0]), globals.clone(), code(&[&body[..]])]);
        assert_eq!(sizes(&bytes), vec![100_000 + size]);
    }
    let body = [0, 0x23, 7, 0x0b];
    let bytes = module(&[types(), section(3, &[1, 0]), globals, code(&[&body[..]])]);
    assert!(unsupported(&bytes));
}

#[test]
fn parameters_are_operands_of_the_function() {
    let bytes = module(&[types(), section(3, &[1, 1]), code(&[&[0, 0x0b][..]])]);
    assert_eq!(sizes(&bytes), vec![100_012]);
}

#[test]
fn one_size_for_each_body_in_order() {
    let first = [0, 0x41, 0, 0x0b];
    let second = [0, 0x42, 0, 0x0b];
    let third = [1, 1, F64, 0x0b];
    let bytes = module(&[
        types(),
        section(3, &[3, 0, 0, 1]),
        code(&[&first[..], &second[..], &third[..]]),
    ]);
    assert_eq!(sizes(&bytes), vec![100_004, 100_008, 100_092]);
}

#[test]
fn more_bodies_than_functions() {
    let bytes = module(&[types(), section(3, &[1, 0]), code(&[&[0, 0x0b][..], &[0, 0x0b][..]])]);
    assert!(unsupported(&bytes));
}

#[test]
fn custom_sections_do_not_matter() {
    let custom = section(0, &[1, b'x', 1, 2, 3]);
    let body = [0, 0x41, 0, 0x0b];
    let bytes = module(&[
        custom.clone(),
        types(),
        custom.clone(),
        section(3, &[1, 0]),
        custom.clone(),
        code(&[&body[..]]),
        custom,
    ]);
    assert_eq!(sizes(&bytes), sizes(&single(&body)));
}

/// Imports of a function of type `[i32 i64] -> [f32]`, a memory and a global of type v128.
fn imports() -> Vec<u8> {
    let mut contents = vec![3];
    contents.extend([1, b'm', 1, b'f', 0, 1]);
    contents.extend([1, b'm', 1, b'm', 2, 0, 1]);
    contents.extend([1, b'm', 1, b'g', 3, V128, 0]);
    section(2, &contents)
}

#[test]
fn imported_functions_come_first() {
    let with_body = |body: &[u8]| {
        module(&[types(), imports(), section(3, &[1, 0]), code(&[body])])
    };
    // The type of the function itself is `[] -> []`.
    assert_eq!(sizes(&with_body(&[0, 0x0b])), vec![100_000]);
    // i32.const; i64.const; call 0
    assert_eq!(sizes(&with_body(&[0, 0x41, 0, 0x42, 0, 0x10, 0, 0x0b])), vec![100_040]);
    // i32.const; call 1
    assert_eq!(sizes(&with_body(&[0, 0x41, 0, 0x10, 1, 0x0b])), vec![100_004]);
    assert!(unsupported(&with_body(&[0, 0x10, 0, 0x0b])));
    assert!(unsupported(&with_body(&[0, 0x10, 2, 0x0b])));
}

#[test]
fn imported_globals_come_first() {
    let global = section(6, &[1, F64, 0, 0x44, 0, 0, 0, 0, 0, 0, 0, 0, 0x0b]);
    for (index, size) in [(0, 1600), (1, 80)] {
        let body = [0, 0x23, index, 0x0b];
        let bytes = module(&[
            types(),
            imports(),
            section(3, &[1, 0]),
            global.clone(),
            code(&[&body[..]]),
        ]);
        assert_eq!(sizes(&bytes), vec![100_000 + size]);
    }
}

#[test]
fn imports_are_read() {
    let sections = read_module(&module(&[imports()]));
    match &sections[1] {
        Ok(Section::ImportSection(Ok(imports))) => assert_eq!(
            *imports,
            vec![Import::Function(1), Import::Other, Import::Global(ValType::V128)]
        ),
        _ => panic!("there is an import section"),
    }
}

#[test]
fn imports_end_with_their_module() {
    // Two modules that are nested in a component. Only the first one imports something, and only
    // the second one has a function body.
    let first = module(&[types(), imports()]);
    // i32.const; call 0, where function 0 has type [] -> [].
    let body = [0, 0x41, 0, 0x10, 0, 0x0b];
    let second = module(&[types(), section(3, &[2, 0, 1]), code(&[&body[..]])]);
    let mut bytes = b"\0asm\x0a\0\x01\0".to_vec();
    bytes.extend(section(1, &first));
    bytes.extend(section(1, &second));
    assert_eq!(sizes(&bytes), vec![100_004]);
    assert_eq!(sizes(&bytes), sizes(&second));
    // The imports of the second module count for it.
    let body = [0, 0x41, 0, 0x42, 0, 0x10, 0, 0x0b];
    let second = module(&[types(), imports(), section(3, &[1, 0]), code(&[&body[..]])]);
    let mut bytes = b"\0asm\x0a\0\x01\0".to_vec();
    bytes.extend(section(1, &first));
    bytes.extend(section(1, &second));
    assert_eq!(sizes(&bytes), vec![100_040]);
}

#[test]
fn imports_that_cannot_be_read_are_passed_over() {
    let body = [0, 0x41, 0, 0x10, 0, 0x0b];
    let imports = section(2, &[1, 1, b'm', 1, b'f', 0x7f]);
    let bytes = module(&[types(), imports, section(3, &[1, 0]), code(&[&body[..]])]);
    assert_eq!(sizes(&bytes), sizes(&single(&body)));
}

#[test]
fn calls_exchange_parameters_for_results() {
    // i32.const; i64.const; call 1, where function 1 has type [i32 i64] -> [f32].
    let caller = [0, 0x41, 0, 0x42, 0, 0x10, 1, 0x0b];
    let bytes = module(&[
        types(),
        section(3, &[2, 0, 1]),
        code(&[&caller[..], &[0, 0x0b][..]]),
    ]);
    assert_eq!(sizes(&bytes), vec![100_040, 100_012]);
    // call_indirect with the same type.
    let caller = [0, 0x41, 0, 0x42, 0, 0x41, 0, 0x11, 1, 0, 0x0b];
    assert_eq!(sizes(&single(&caller)), vec![100_040]);
    // The index of the function in the table is not there.
    assert!(unsupported(&single(&[0, 0x41, 0, 0x42, 0, 0x11, 1, 0, 0x0b])));
    // There is no such type, and no such function.
    assert!(unsupported(&single(&[0, 0x41, 0, 0x11, 2, 0, 0x0b])));
    assert!(unsupported(&single(&[0, 0x10, 1, 0x0b])));
}

#[test]
fn blocks_take_their_parameters_along() {
    // i32.const; i64.const; block of type [i32 i64] -> [f32]; v128.const; end
    let mut body = vec![0, 0x41, 0, 0x42, 0, 0x02, 1, 0xfd, 12];
    body.extend([0; 16]);
    body.extend([0x0b, 0x0b]);
    assert_eq!(sizes(&single(&body)), vec![101_612]);
}

#[test]
fn results_of_blocks_are_operands() {
    // block (result i64) i64.const 1 end drop
    let body = [0, 0x02, I64, 0x42, 1, 0x0b, 0x1a, 0x0b];
    assert_eq!(sizes(&single(&body)), vec![100_008]);
    // i32.const; i64.const; block of type [i32 i64] -> [f32]; f32.const; end; drop
    let body = [0, 0x41, 0, 0x42, 0, 0x02, 1, 0x43, 0, 0, 0, 0, 0x0b, 0x1a, 0x0b];
    assert_eq!(sizes(&single(&body)), vec![100_052]);
}

/// Values of type i32 take up one unit, all others two.
struct Units;

impl AnalysisConfig for Units {
    fn size_of_value(&self, ty: ValType) -> u64 {
        match ty {
            ValType::I32 => 1,
            _ => 2,
        }
    }

    fn size_of_label(&self) -> u64 {
        0
    }

    fn size_of_function_activation<Locals>(&self, _: Locals) -> u64
    where
        Locals: Iterator<Item = (u32, ValType)>,
    {
        100
    }
}

#[test]
fn operand_stack_is_accurate() {
    let function = section(1, &[1, 0x60, 0, 0]);
    // (func (block (result i64) i64.const 1) drop)
    let body = [0, 0x02, I64, 0x42, 1, 0x0b, 0x1a, 0x0b];
    let bytes = module(&[function.clone(), section(3, &[1, 0]), code(&[&body[..]])]);
    assert_eq!(Module::new(&bytes, &Units).ok().unwrap().function_stack_sizes, vec![102]);
    // (memory 1) (func i32.const 0 i32.load drop)
    let body = [0, 0x41, 0, 0x28, 2, 0, 0x1a, 0x0b];
    let memory = section(5, &[1, 0, 1]);
    let bytes = module(&[function, section(3, &[1, 0]), memory, code(&[&body[..]])]);
    assert_eq!(Module::new(&bytes, &Units).ok().unwrap().function_stack_sizes, vec![101]);
}

#[test]
fn loads_take_the_address() {
    // i32.const 0; i64.load; drop
    let body = [0, 0x41, 0, 0x29, 0x03, 0, 0x1a, 0x0b];
    assert_eq!(sizes(&single(&body)), vec![100_008]);
}

#[test]
fn local_get_reads_the_type_of_the_parameter() {
    // Type [i32 i64] -> [f32], and a local of type f64.
    for (index, size) in [(0, 4), (1, 8), (2, 80)] {
        let body = [1, 1, F64, 0x20, index, 0x0b];
        let bytes = module(&[types(), section(3, &[1, 1]), code(&[&body[..]])]);
        assert_eq!(sizes(&bytes), vec![100_092 + size]);
    }
    let body = [1, 1, F64, 0x20, 3, 0x0b];
    assert!(unsupported(&module(&[types(), section(3, &[1, 1]), code(&[&body[..]])])));
}

#[test]
fn unsupported_instructions() {
    // table.get, atomic.fence, throw
    assert!(unsupported(&single(&[0, 0x41, 0, 0x25, 0, 0x0b])));
    assert!(unsupported(&single(&[0, 0xfe, 3, 0, 0x0b])));
    assert!(unsupported(&single(&[0, 0x08, 0, 0x0b])));
    // A `drop` without anything to drop, and an `else` without an `if`.
    assert!(unsupported(&single(&[0, 0x1a, 0x0b])));
    assert!(unsupported(&single(&[0, 0x05, 0x0b])));
}

#[test]
fn try_new_agrees_with_new() {
    let bytes = single(&[0, 0x41, 0, 0x0b]);
    match Module::try_new(&bytes, &Sizes) {
        Some(Ok(module)) => assert_eq!(module.function_stack_sizes, vec![100_004]),
        _ => panic!("the module is supported"),
    }
    match Module::try_new(b"\0asn\x01\0\0\0", &Sizes) {
        Some(Err(Error::ParsePayload(_))) => {}
        _ => panic!("the module cannot be read"),
    }
}

#[test]
fn error_parse_payload() {
    let error = error(b"\0asn\x01\0\0\0");
    assert!(matches!(error, Error::ParsePayload(_)));
    assert_eq!(error.message(), "could not parse a part of the WASM payload");
    assert_eq!(error.source().offset(), 0);
}

#[test]
fn error_parse_types() {
    let error = error(&module(&[section(1, &[1, 0x5f])]));
    assert!(matches!(error, Error::ParseTypes(_)));
    assert_eq!(error.message(), "could not parse the type section entry");
}

#[test]
fn error_parse_functions() {
    let error = error(&module(&[types(), section(3, &[2, 0])]));
    assert!(matches!(error, Error::ParseFunctions(_)));
    assert_eq!(error.message(), "could not parse the function section entry");
}

#[test]
fn error_parse_globals() {
    let error = error(&module(&[section(6, &[1, I32, 0, 0x41])]));
    assert!(matches!(error, Error::ParseGlobals(_)));
    assert_eq!(error.message(), "could not parse the global section entry");
}

#[test]
fn error_locals_reader() {
    let error = error(&single(&[]));
    assert!(matches!(error, Error::LocalsReader(_)));
    assert_eq!(error.message(), "could not create a function locals’ reader");
}

#[test]
fn error_parse_locals() {
    let error = error(&single(&[1, 1, 0x01, 0x0b]));
    assert!(matches!(error, Error::ParseLocals(_)));
    assert_eq!(error.message(), "could not parsse function locals");
}

#[test]
fn error_visit_operators() {
    let error = error(&single(&[0, 0xff, 0x0b]));
    assert!(matches!(error, Error::VisitOperators(_)));
    assert_eq!(error.message(), "could not visit the function operators");
}

#[test]
fn first_failure_decides() {
    // A `drop` without anything to drop comes before an instruction that cannot be read, and
    // after it.
    assert!(unsupported(&single(&[0, 0x1a, 0xff, 0x0b])));
    assert!(matches!(error(&single(&[0, 0xff, 0x1a, 0x0b])), Error::VisitOperators(_)));
    // A type that cannot be read comes before a body that is not supported.
    let bytes = module(&[section(1, &[1, 0x5f]), section(3, &[1, 0]), code(&[&[0, 0x1a, 0x0b]])]);
    assert!(matches!(error(&bytes), Error::ParseTypes(_)));
}

#[test]
fn too_many_locals() {
    // Two runs of 2^31 locals each.
    let body = [2, 0x80, 0x80, 0x80, 0x80, 0x08, I32, 0x80, 0x80, 0x80, 0x80, 0x08, I32, 0x0b];
    assert!(unsupported(&single(&body)));
}

#[test]
fn reading_stops_at_the_first_error() {
    let body = bodies(&single(&[0, 0x01, 0xff, 0x01, 0x0b])).remove(0);
    let operators = body.operators.unwrap();
    assert_eq!(operators.len(), 2);
    assert_eq!(*operators[0].as_ref().unwrap(), Operator::Nop);
    assert!(operators[1].is_err());

    let body = bodies(&single(&[3, 1, I32, 1, 0x01, 1, I64, 0x0b])).remove(0);
    let locals = body.locals.unwrap();
    assert_eq!(locals.len(), 2);
    assert_eq!(*locals[0].as_ref().unwrap(), (1, ValType::I32));
    assert!(locals[1].is_err());
}

#[test]
fn block_types_are_read() {
    let expected = [
        (0x40, BlockType::Empty),
        (I32, BlockType::Type(ValType::I32)),
        (I64, BlockType::Type(ValType::I64)),
        (F32, BlockType::Type(ValType::F32)),
        (F64, BlockType::Type(ValType::F64)),
        (V128, BlockType::Type(ValType::V128)),
        (FUNCREF, BlockType::Type(ValType::FuncRef)),
        (EXTERNREF, BlockType::Type(ValType::ExternRef)),
        (1, BlockType::FuncType(1)),
    ];
    for (byte, ty) in expected {
        let body = [0, 0x02, byte, 0x03, byte, 0x04, byte, 0x05, 0x0b, 0x0b, 0x0b, 0x0b];
        assert_eq!(
            operators(&single(&body)),
            vec![
                Operator::Block { ty },
                Operator::Loop { ty },
                Operator::If { ty },
                Operator::Else,
                Operator::End,
                Operator::End,
                Operator::End,
                Operator::End,
            ]
        );
    }
}

#[test]
fn immediates_are_read() {
    let body = [
        0, 0x20, 3, 0x21, 4, 0x22, 5, 0x23, 6, 0x24, 7, 0x10, 8, 0x11, 9, 0, 0xd0, EXTERNREF, 0x0c,
        0, 0x0d, 1, 0x0e, 1, 0, 0, 0x0f, 0x12, 1, 0x13, 2, 0, 0x0b,
    ];
    assert_eq!(
        operators(&single(&body)),
        vec![
            Operator::LocalGet { local_index: 3 },
            Operator::LocalSet,
            Operator::LocalTee,
            Operator::GlobalGet { global_index: 6 },
            Operator::GlobalSet,
            Operator::Call { function_index: 8 },
            Operator::CallIndirect { index: 9 },
            Operator::RefNull { val_type: ValType::ExternRef },
            Operator::Br,
            Operator::BrIf,
            Operator::BrTable,
            Operator::Return,
            Operator::ReturnCall,
            Operator::ReturnCallIndirect,
            Operator::End,
        ]
    );
}

#[test]
fn types_are_read() {
    let sections = read_module(&module(&[types(), section(3, &[2, 1, 0])]));
    let mut seen = 0;
    for section in sections {
        match section {
            Ok(Section::TypeSection(Ok(types))) => {
                seen += 1;
                assert_eq!(types.len(), 2);
                assert_eq!(types[0].params, vec![]);
                assert_eq!(types[0].results, vec![]);
                assert_eq!(types[1].params, vec![ValType::I32, ValType::I64]);
                assert_eq!(types[1].results, vec![ValType::F32]);
            }
            Ok(Section::FunctionSection(Ok(functions))) => {
                seen += 1;
                assert_eq!(functions, vec![1, 0]);
            }
            Ok(Section::Version) | Ok(Section::Other) => {}
            _ => panic!("there is no such section"),
        }
    }
    assert_eq!(seen, 2);
}
