//! Reading the parts of a module that the analysis needs.
//!
//! The reading itself is done by `wasmparser`. The functions of this module that are not proved
//! make one call into that crate each; [`read_module`] puts what they return together.

use crate::namer::OperatorNamer;
use crate::operator::Operator;
use crate::types::{BlockType, FuncType, FuncTypeView, ValType};
use crate::visitor::type_views;
use vstd::prelude::*;
use wasmparser::{
    BinaryReaderError, BlockType as WasmBlockType, BrTable, FunctionBody, FunctionSectionReader,
    GlobalSectionReader, Ieee32, Ieee64, ImportSectionReader, LocalsIterator, MemArg,
    OperatorsReader, TypeSectionReader, ValType as WasmValType, V128,
};

verus! {

/// Why `wasmparser` could not read something. Nothing is claimed of what it holds; it is passed on
/// as it is.
#[verifier::external_type_specification]
#[verifier::external_body]
pub struct ExBinaryReaderError(BinaryReaderError);

/// A value type in terms of `wasmparser`. See [`val_type_of`].
#[verifier::external_type_specification]
#[verifier::external_body]
pub struct ExValType(WasmValType);

/// A block type in terms of `wasmparser`. See [`block_type_of`].
#[verifier::external_type_specification]
#[verifier::external_body]
pub struct ExBlockType(WasmBlockType);

/// The immediate of an instruction that accesses memory. The analysis does not look at it.
#[verifier::external_type_specification]
#[verifier::external_body]
pub struct ExMemArg(MemArg);

/// The immediate of `f32.const`. The analysis does not look at it.
#[verifier::external_type_specification]
#[verifier::external_body]
pub struct ExIeee32(Ieee32);

/// The immediate of `f64.const`. The analysis does not look at it.
#[verifier::external_type_specification]
#[verifier::external_body]
pub struct ExIeee64(Ieee64);

/// The immediate of `v128.const`. The analysis does not look at it.
#[verifier::external_type_specification]
#[verifier::external_body]
pub struct ExV128(V128);

/// The immediate of `br_table`. The analysis does not look at it.
#[verifier::external_type_specification]
#[verifier::external_body]
pub struct ExBrTable<'a>(BrTable<'a>);

/// A type section that has not been read yet. See [`types_in`].
#[verifier::external_type_specification]
#[verifier::external_body]
pub struct ExTypeSectionReader<'a>(TypeSectionReader<'a>);

/// A global section that has not been read yet. See [`globals_in`].
#[verifier::external_type_specification]
#[verifier::external_body]
pub struct ExGlobalSectionReader<'a>(GlobalSectionReader<'a>);

/// A function section that has not been read yet. See [`functions_in`].
#[verifier::external_type_specification]
#[verifier::external_body]
pub struct ExFunctionSectionReader<'a>(FunctionSectionReader<'a>);

/// An import section that has not been read yet. See [`imports_in`].
#[verifier::external_type_specification]
#[verifier::external_body]
pub struct ExImportSectionReader<'a>(ImportSectionReader<'a>);

/// The body of a function that has not been read yet. See [`locals_in`] and [`operators_in`].
#[verifier::external_type_specification]
#[verifier::external_body]
pub struct ExFunctionBody<'a>(FunctionBody<'a>);

/// The locals of a function, some of which may have been read. See [`locals_left`].
#[verifier::external_type_specification]
#[verifier::external_body]
pub struct ExLocalsIterator<'a>(LocalsIterator<'a>);

/// The instructions of a function, some of which may have been read. See [`operators_left`].
#[verifier::external_type_specification]
#[verifier::external_body]
pub struct ExOperatorsReader<'a>(OperatorsReader<'a>);

/// The value type that `wasmparser` means.
pub uninterp spec fn val_type_of(ty: WasmValType) -> ValType;

/// The block type that `wasmparser` means.
pub uninterp spec fn block_type_of(ty: WasmBlockType) -> BlockType;

/// Tells the variants of `wasmparser::ValType` apart.
///
/// A variant stands for the value type of the same name. The variants cannot be seen in the
/// contract; it claims no more than that the same variant always stands for the same value type.
#[verifier::external_body]
pub(crate) fn val_type(ty: WasmValType) -> (r: ValType)
    ensures
        r == val_type_of(ty),
{
    match ty {
        WasmValType::I32 => ValType::I32,
        WasmValType::I64 => ValType::I64,
        WasmValType::F32 => ValType::F32,
        WasmValType::F64 => ValType::F64,
        WasmValType::V128 => ValType::V128,
        WasmValType::FuncRef => ValType::FuncRef,
        WasmValType::ExternRef => ValType::ExternRef,
    }
}

/// Tells the variants of `wasmparser::BlockType` apart.
///
/// A variant stands for the block type of the same name, with the value type or the type index that
/// it holds. The variants cannot be seen in the contract; it claims no more than that the same
/// variant always stands for the same block type.
#[verifier::external_body]
pub(crate) fn block_type(ty: WasmBlockType) -> (r: BlockType)
    ensures
        r == block_type_of(ty),
{
    match ty {
        WasmBlockType::Empty => BlockType::Empty,
        WasmBlockType::Type(WasmValType::I32) => BlockType::Type(ValType::I32),
        WasmBlockType::Type(WasmValType::I64) => BlockType::Type(ValType::I64),
        WasmBlockType::Type(WasmValType::F32) => BlockType::Type(ValType::F32),
        WasmBlockType::Type(WasmValType::F64) => BlockType::Type(ValType::F64),
        WasmBlockType::Type(WasmValType::V128) => BlockType::Type(ValType::V128),
        WasmBlockType::Type(WasmValType::FuncRef) => BlockType::Type(ValType::FuncRef),
        WasmBlockType::Type(WasmValType::ExternRef) => BlockType::Type(ValType::ExternRef),
        WasmBlockType::FuncType(index) => BlockType::FuncType(index),
    }
}

/// What `wasmparser` found a part of a module to be: the header, a section that the analysis needs,
/// with a reader for it, or something else.
pub enum Payload<'a> {
    Version,
    TypeSection(TypeSectionReader<'a>),
    ImportSection(ImportSectionReader<'a>),
    GlobalSection(GlobalSectionReader<'a>),
    FunctionSection(FunctionSectionReader<'a>),
    CodeSectionEntry(FunctionBody<'a>),
    Other,
}

/// A function type in terms of `wasmparser`.
pub struct RawFuncType {
    pub params: Vec<WasmValType>,
    pub results: Vec<WasmValType>,
}

/// An import in terms of `wasmparser`.
pub enum RawImport {
    Function(u32),
    Global(WasmValType),
    Other,
}

/// An import.
#[derive(Clone, Copy, Debug, PartialEq, Eq, Structural)]
pub enum Import {
    /// A function, with the index of its type.
    Function(u32),
    /// A global, with its type.
    Global(ValType),
    /// Something that does not matter for the analysis.
    Other,
}

/// The body of a function.
///
/// What could not be read stands in the place of what should have been there. Nothing follows an
/// error.
pub struct Body {
    /// Runs of locals of the same type.
    pub locals: Result<Vec<Result<(u32, ValType), BinaryReaderError>>, BinaryReaderError>,
    pub operators: Result<Vec<Result<Operator, BinaryReaderError>>, BinaryReaderError>,
}

/// The contents of a [`Body`].
#[verifier::ext_equal]
pub struct BodyView {
    pub locals: Result<Seq<Result<(u32, ValType), BinaryReaderError>>, BinaryReaderError>,
    pub operators: Result<Seq<Result<Operator, BinaryReaderError>>, BinaryReaderError>,
}

/// A part of a module.
pub enum Section {
    /// The header that a module starts with. The modules that are nested in a component follow one
    /// another, each with a header of its own.
    Version,
    TypeSection(Result<Vec<FuncType>, BinaryReaderError>),
    ImportSection(Result<Vec<Import>, BinaryReaderError>),
    /// The types of the globals.
    GlobalSection(Result<Vec<ValType>, BinaryReaderError>),
    /// For each function the index of its type.
    FunctionSection(Result<Vec<u32>, BinaryReaderError>),
    CodeSectionEntry(Body),
    /// A part that does not matter for the analysis.
    Other,
}

/// The contents of a [`Section`].
#[verifier::ext_equal]
pub enum SectionView {
    Version,
    TypeSection(Result<Seq<FuncTypeView>, BinaryReaderError>),
    ImportSection(Result<Seq<Import>, BinaryReaderError>),
    GlobalSection(Result<Seq<ValType>, BinaryReaderError>),
    FunctionSection(Result<Seq<u32>, BinaryReaderError>),
    CodeSectionEntry(BodyView),
    Other,
}

/// The elements of a list that may not have been readable.
pub open spec fn readable<T>(list: Result<Vec<T>, BinaryReaderError>) -> Result<
    Seq<T>,
    BinaryReaderError,
> {
    match list {
        Ok(list) => Ok(list@),
        Err(error) => Err(error),
    }
}

impl View for Body {
    type V = BodyView;

    open spec fn view(&self) -> BodyView {
        BodyView { locals: readable(self.locals), operators: readable(self.operators) }
    }
}

impl View for Section {
    type V = SectionView;

    open spec fn view(&self) -> SectionView {
        match self {
            Section::TypeSection(Ok(types)) => SectionView::TypeSection(Ok(type_views(types@))),
            Section::TypeSection(Err(error)) => SectionView::TypeSection(Err(*error)),
            Section::ImportSection(imports) => SectionView::ImportSection(readable(*imports)),
            Section::GlobalSection(globals) => SectionView::GlobalSection(readable(*globals)),
            Section::FunctionSection(functions) => SectionView::FunctionSection(
                readable(*functions),
            ),
            Section::CodeSectionEntry(body) => SectionView::CodeSectionEntry(body@),
            Section::Version => SectionView::Version,
            Section::Other => SectionView::Other,
        }
    }
}

/// The parts of a module that a list of parts stands for.
pub open spec fn section_views(sections: Seq<Result<Section, BinaryReaderError>>) -> Seq<
    Result<SectionView, BinaryReaderError>,
> {
    sections.map_values(|section: Result<Section, BinaryReaderError>| section_view(section))
}

/// The contents of a part of a module that may not have been readable.
pub open spec fn section_view(section: Result<Section, BinaryReaderError>) -> Result<
    SectionView,
    BinaryReaderError,
> {
    match section {
        Ok(section) => Ok(section@),
        Err(error) => Err(error),
    }
}

/// The value types that `wasmparser` means.
pub open spec fn val_types_of(tys: Seq<WasmValType>) -> Seq<ValType> {
    tys.map_values(|ty: WasmValType| val_type_of(ty))
}

impl RawFuncType {
    /// The function type that `wasmparser` means.
    pub open spec fn as_func_type(&self) -> FuncTypeView {
        FuncTypeView {
            params: val_types_of(self.params@),
            results: val_types_of(self.results@),
        }
    }
}

impl RawImport {
    /// The import that `wasmparser` means.
    pub open spec fn as_import(&self) -> Import {
        match self {
            RawImport::Function(type_index) => Import::Function(*type_index),
            RawImport::Global(ty) => Import::Global(val_type_of(*ty)),
            RawImport::Other => Import::Other,
        }
    }
}

/// The types in a type section.
pub uninterp spec fn types_in(reader: TypeSectionReader<'_>) -> Result<
    Seq<FuncTypeView>,
    BinaryReaderError,
>;

/// The imports in an import section.
pub uninterp spec fn imports_in(reader: ImportSectionReader<'_>) -> Result<
    Seq<Import>,
    BinaryReaderError,
>;

/// The types of the globals in a global section.
pub uninterp spec fn globals_in(reader: GlobalSectionReader<'_>) -> Result<
    Seq<ValType>,
    BinaryReaderError,
>;

/// The indices in a function section.
pub uninterp spec fn functions_in(reader: FunctionSectionReader<'_>) -> Result<
    Seq<u32>,
    BinaryReaderError,
>;

/// The locals that the body of a function declares, up to the first one that cannot be read.
pub uninterp spec fn locals_in(body: FunctionBody<'_>) -> Result<
    Seq<Result<(u32, ValType), BinaryReaderError>>,
    BinaryReaderError,
>;

/// The instructions in the body of a function, up to the first one that cannot be read.
pub uninterp spec fn operators_in(body: FunctionBody<'_>) -> Result<
    Seq<Result<Operator, BinaryReaderError>>,
    BinaryReaderError,
>;

/// The locals that are still to come, up to the first one that cannot be read.
pub uninterp spec fn locals_left(locals: LocalsIterator<'_>) -> Seq<
    Result<(u32, ValType), BinaryReaderError>,
>;

/// The instructions that are still to come, up to the first one that cannot be read.
pub uninterp spec fn operators_left(operators: OperatorsReader<'_>) -> Seq<
    Result<Operator, BinaryReaderError>,
>;

/// The parts of a module, up to the first one that cannot be read.
pub uninterp spec fn sections_in(module: Seq<u8>) -> Seq<Result<SectionView, BinaryReaderError>>;

/// What a reader will find in a part of a module.
pub open spec fn payload_view(payload: Result<Payload<'_>, BinaryReaderError>) -> Result<
    SectionView,
    BinaryReaderError,
> {
    match payload {
        Ok(Payload::TypeSection(reader)) => Ok(SectionView::TypeSection(types_in(reader))),
        Ok(Payload::ImportSection(reader)) => Ok(SectionView::ImportSection(imports_in(reader))),
        Ok(Payload::GlobalSection(reader)) => Ok(SectionView::GlobalSection(globals_in(reader))),
        Ok(Payload::FunctionSection(reader)) => Ok(
            SectionView::FunctionSection(functions_in(reader)),
        ),
        Ok(Payload::CodeSectionEntry(body)) => Ok(
            SectionView::CodeSectionEntry(
                BodyView { locals: locals_in(body), operators: operators_in(body) },
            ),
        ),
        Ok(Payload::Version) => Ok(SectionView::Version),
        Ok(Payload::Other) => Ok(SectionView::Other),
        Err(error) => Err(error),
    }
}

/// Collects what `wasmparser::Parser::parse_all` yields for a module.
///
/// The contract claims that the same bytes always have the same parts. What the parts are is left
/// to the parser. It yields nothing behind the first part that it cannot read.
#[verifier::external_body]
fn parse_all<'a>(module: &'a [u8]) -> (payloads: Vec<Result<Payload<'a>, BinaryReaderError>>)
    ensures
        payloads@.map_values(
            |payload: Result<Payload<'a>, BinaryReaderError>| payload_view(payload),
        ) == sections_in(module@),
{
    let payloads = wasmparser::Parser::new(0).parse_all(module);
    payloads.map(|payload| payload.map(|payload| match payload {
        wasmparser::Payload::Version { .. } => Payload::Version,
        wasmparser::Payload::TypeSection(reader) => Payload::TypeSection(reader),
        wasmparser::Payload::ImportSection(reader) => Payload::ImportSection(reader),
        wasmparser::Payload::GlobalSection(reader) => Payload::GlobalSection(reader),
        wasmparser::Payload::FunctionSection(reader) => Payload::FunctionSection(reader),
        wasmparser::Payload::CodeSectionEntry(body) => Payload::CodeSectionEntry(body),
        _ => Payload::Other,
    })).collect()
}

/// Collects what the iterator over a `wasmparser::TypeSectionReader` yields, up to the first type
/// that cannot be read.
///
/// The contract claims that the same section always holds the same types, or cannot be read for the
/// same reason.
#[verifier::external_body]
fn collect_types(reader: TypeSectionReader<'_>) -> (types: Result<
    Vec<RawFuncType>,
    BinaryReaderError,
>)
    ensures
        match types {
            Ok(types) => types_in(reader) == Ok::<_, BinaryReaderError>(
                types@.map_values(|ty: RawFuncType| ty.as_func_type()),
            ),
            Err(error) => types_in(reader) == Err::<Seq<FuncTypeView>, _>(error),
        },
{
    reader.into_iter().map(|ty| ty.map(|wasmparser::Type::Func(ty)| RawFuncType {
        params: ty.params().to_vec(),
        results: ty.results().to_vec(),
    })).collect()
}

/// Collects what the iterator over a `wasmparser::ImportSectionReader` yields, up to the first
/// import that cannot be read.
///
/// A function is kept with the index of its type, a global with its type; tables, memories and tags
/// stand for imports that do not matter. The contract claims that the same section always holds the
/// same imports, or cannot be read for the same reason.
#[verifier::external_body]
fn collect_imports(reader: ImportSectionReader<'_>) -> (imports: Result<
    Vec<RawImport>,
    BinaryReaderError,
>)
    ensures
        match imports {
            Ok(imports) => imports_in(reader) == Ok::<_, BinaryReaderError>(
                imports@.map_values(|import: RawImport| import.as_import()),
            ),
            Err(error) => imports_in(reader) == Err::<Seq<Import>, _>(error),
        },
{
    reader.into_iter().map(|import| import.map(|import| match import.ty {
        wasmparser::TypeRef::Func(type_index) => RawImport::Function(type_index),
        wasmparser::TypeRef::Global(ty) => RawImport::Global(ty.content_type),
        wasmparser::TypeRef::Table(_) => RawImport::Other,
        wasmparser::TypeRef::Memory(_) => RawImport::Other,
        wasmparser::TypeRef::Tag(_) => RawImport::Other,
    })).collect()
}

/// Collects the types of the globals that the iterator over a `wasmparser::GlobalSectionReader`
/// yields, up to the first global that cannot be read.
///
/// The contract claims that the same section always holds globals of the same types, or cannot be
/// read for the same reason.
#[verifier::external_body]
fn collect_globals(reader: GlobalSectionReader<'_>) -> (globals: Result<
    Vec<WasmValType>,
    BinaryReaderError,
>)
    ensures
        match globals {
            Ok(globals) => globals_in(reader) == Ok::<_, BinaryReaderError>(
                val_types_of(globals@),
            ),
            Err(error) => globals_in(reader) == Err::<Seq<ValType>, _>(error),
        },
{
    reader.into_iter().map(|global| global.map(|global| global.ty.content_type)).collect()
}

/// Collects what the iterator over a `wasmparser::FunctionSectionReader` yields, up to the first
/// index that cannot be read.
///
/// The contract claims that the same section always holds the same indices, or cannot be read for
/// the same reason.
#[verifier::external_body]
fn collect_functions(reader: FunctionSectionReader<'_>) -> (functions: Result<
    Vec<u32>,
    BinaryReaderError,
>)
    ensures
        functions_in(reader) == readable(functions),
{
    reader.into_iter().collect()
}

/// Starts to iterate over what `wasmparser::FunctionBody::get_locals_reader` returns.
///
/// The contract claims that all the locals are still to come then.
#[verifier::external_body]
fn get_locals<'a>(body: &FunctionBody<'a>) -> (locals: Result<
    LocalsIterator<'a>,
    BinaryReaderError,
>)
    ensures
        match locals {
            Ok(locals) => locals_in(*body) == Ok::<_, BinaryReaderError>(locals_left(locals)),
            Err(error) => locals_in(*body) == Err::<
                Seq<Result<(u32, ValType), BinaryReaderError>>,
                _,
            >(error),
        },
{
    body.get_locals_reader().map(|locals| locals.into_iter())
}

/// Calls the `next` of a `wasmparser::LocalsIterator`.
///
/// The contract claims that it returns the first of the locals that are still to come, that the
/// others are still to come then, and that nothing comes behind one that cannot be read.
#[verifier::external_body]
fn next_local(locals: &mut LocalsIterator<'_>) -> (local: Option<
    Result<(u32, WasmValType), BinaryReaderError>,
>)
    ensures
        local is None <==> locals_left(*old(locals)).len() == 0,
        local matches Some(Ok(local)) ==> {
            &&& locals_left(*old(locals))[0] == Ok::<_, BinaryReaderError>(
                (local.0, val_type_of(local.1)),
            )
            &&& locals_left(*final(locals)) == locals_left(*old(locals)).drop_first()
        },
        local matches Some(Err(error)) ==> {
            &&& locals_left(*old(locals)).len() == 1
            &&& locals_left(*old(locals))[0] == Err::<(u32, ValType), _>(error)
        },
{
    locals.next()
}

/// Calls `wasmparser::FunctionBody::get_operators_reader`.
///
/// The contract claims that all the instructions are still to come then.
#[verifier::external_body]
fn get_operators<'a>(body: &FunctionBody<'a>) -> (operators: Result<
    OperatorsReader<'a>,
    BinaryReaderError,
>)
    ensures
        match operators {
            Ok(operators) => operators_in(*body) == Ok::<_, BinaryReaderError>(
                operators_left(operators),
            ),
            Err(error) => operators_in(*body) == Err::<
                Seq<Result<Operator, BinaryReaderError>>,
                _,
            >(error),
        },
{
    body.get_operators_reader()
}

/// Calls `wasmparser::OperatorsReader::eof`.
///
/// The contract claims that it tells whether no instruction is still to come.
#[verifier::external_body]
fn at_end(operators: &OperatorsReader<'_>) -> (eof: bool)
    ensures
        eof <==> operators_left(*operators).len() == 0,
{
    operators.eof()
}

/// Calls `wasmparser::OperatorsReader::visit_with_offset`, which reads an instruction, calls the
/// method of the visitor that belongs to it, and returns what the method returns.
///
/// The contract claims that this is the first of the instructions that are still to come, that the
/// others are still to come then, and that nothing counts behind one that cannot be read.
#[verifier::external_body]
fn next_operator(operators: &mut OperatorsReader<'_>) -> (op: Result<Operator, BinaryReaderError>)
    requires
        operators_left(*old(operators)).len() > 0,
    ensures
        op == operators_left(*old(operators))[0],
        op is Ok ==> operators_left(*final(operators)) == operators_left(
            *old(operators),
        ).drop_first(),
        op is Err ==> operators_left(*old(operators)).len() == 1,
{
    operators.visit_with_offset(&mut OperatorNamer)
}

/// Converts value types.
fn val_types(tys: &Vec<WasmValType>) -> (r: Vec<ValType>)
    ensures
        r@ == val_types_of(tys@),
{
    let mut r: Vec<ValType> = Vec::new();
    for i in 0..tys.len()
        invariant
            r@ == val_types_of(tys@.take(i as int)),
    {
        r.push(val_type(tys[i]));
        proof {
            assert(r@ =~= val_types_of(tys@.take(i + 1)));
        }
    }
    proof {
        assert(tys@.take(tys@.len() as int) =~= tys@);
    }
    r
}

/// Reads a type section.
fn read_types(reader: TypeSectionReader<'_>) -> (types: Result<Vec<FuncType>, BinaryReaderError>)
    ensures
        Section::TypeSection(types)@ == SectionView::TypeSection(types_in(reader)),
{
    let raw = match collect_types(reader) {
        Ok(raw) => raw,
        Err(error) => {
            return Err(error);
        },
    };
    let ghost meant = raw@.map_values(|ty: RawFuncType| ty.as_func_type());
    let mut types: Vec<FuncType> = Vec::new();
    for i in 0..raw.len()
        invariant
            meant == raw@.map_values(|ty: RawFuncType| ty.as_func_type()),
            type_views(types@) == meant.take(i as int),
    {
        let params = val_types(&raw[i].params);
        let results = val_types(&raw[i].results);
        let ghost before = types@;
        types.push(FuncType { params, results });
        proof {
            assert(type_views(types@) =~= type_views(before).push(types@.last()@));
            assert(meant.take(i + 1) =~= meant.take(i as int).push(meant[i as int]));
        }
    }
    proof {
        assert(meant.take(meant.len() as int) =~= meant);
    }
    Ok(types)
}

/// Reads an import section.
fn read_imports(reader: ImportSectionReader<'_>) -> (imports: Result<
    Vec<Import>,
    BinaryReaderError,
>)
    ensures
        readable(imports) == imports_in(reader),
{
    let raw = match collect_imports(reader) {
        Ok(raw) => raw,
        Err(error) => {
            return Err(error);
        },
    };
    let ghost meant = raw@.map_values(|import: RawImport| import.as_import());
    let mut imports: Vec<Import> = Vec::new();
    for i in 0..raw.len()
        invariant
            meant == raw@.map_values(|import: RawImport| import.as_import()),
            imports@ == meant.take(i as int),
    {
        let import = match raw[i] {
            RawImport::Function(type_index) => Import::Function(type_index),
            RawImport::Global(ty) => Import::Global(val_type(ty)),
            RawImport::Other => Import::Other,
        };
        imports.push(import);
        proof {
            assert(meant.take(i + 1) =~= meant.take(i as int).push(meant[i as int]));
        }
    }
    proof {
        assert(meant.take(meant.len() as int) =~= meant);
    }
    Ok(imports)
}

/// Reads a global section.
fn read_globals(reader: GlobalSectionReader<'_>) -> (globals: Result<
    Vec<ValType>,
    BinaryReaderError,
>)
    ensures
        readable(globals) == globals_in(reader),
{
    match collect_globals(reader) {
        Ok(globals) => Ok(val_types(&globals)),
        Err(error) => Err(error),
    }
}

/// Reads the locals that the body of a function declares.
fn read_locals(body: &FunctionBody<'_>) -> (locals: Result<
    Vec<Result<(u32, ValType), BinaryReaderError>>,
    BinaryReaderError,
>)
    ensures
        readable(locals) == locals_in(*body),
{
    let mut left = match get_locals(body) {
        Ok(left) => left,
        Err(error) => {
            return Err(error);
        },
    };
    let ghost all = locals_left(left);
    let mut locals: Vec<Result<(u32, ValType), BinaryReaderError>> = Vec::new();
    loop
        invariant_except_break
            all == locals@ + locals_left(left),
        ensures
            all == locals@,
        decreases locals_left(left).len(),
    {
        match next_local(&mut left) {
            Some(Ok((count, ty))) => {
                locals.push(Ok((count, val_type(ty))));
                proof {
                    assert(all =~= locals@ + locals_left(left));
                }
            },
            Some(Err(error)) => {
                locals.push(Err(error));
                proof {
                    assert(all =~= locals@);
                }
                break;
            },
            None => {
                proof {
                    assert(all =~= locals@);
                }
                break;
            },
        }
    }
    Ok(locals)
}

/// Reads the instructions in the body of a function.
fn read_operators(body: &FunctionBody<'_>) -> (operators: Result<
    Vec<Result<Operator, BinaryReaderError>>,
    BinaryReaderError,
>)
    ensures
        readable(operators) == operators_in(*body),
{
    let mut left = match get_operators(body) {
        Ok(left) => left,
        Err(error) => {
            return Err(error);
        },
    };
    let ghost all = operators_left(left);
    let mut operators: Vec<Result<Operator, BinaryReaderError>> = Vec::new();
    while !at_end(&left)
        invariant_except_break
            all == operators@ + operators_left(left),
        ensures
            all == operators@,
        decreases operators_left(left).len(),
    {
        let op = next_operator(&mut left);
        let failed = op.is_err();
        operators.push(op);
        if failed {
            proof {
                assert(all =~= operators@);
            }
            break;
        }
        proof {
            assert(all =~= operators@ + operators_left(left));
        }
    }
    Ok(operators)
}

/// Reads a module.
///
/// The list ends with the first part that could not be read, if there is one.
pub fn read_module(module: &[u8]) -> (sections: Vec<Result<Section, BinaryReaderError>>)
    ensures
        section_views(sections@) == sections_in(module@),
{
    let payloads = parse_all(module);
    let ghost meant = sections_in(module@);
    let mut sections: Vec<Result<Section, BinaryReaderError>> = Vec::new();
    for payload in iter: payloads
        invariant
            meant == iter.seq().map_values(
                |payload: Result<Payload<'_>, BinaryReaderError>| payload_view(payload),
            ),
            section_views(sections@) == meant.take(iter.index() as int),
    {
        let section = match payload {
            Ok(Payload::TypeSection(reader)) => Ok(Section::TypeSection(read_types(reader))),
            Ok(Payload::ImportSection(reader)) => Ok(Section::ImportSection(read_imports(reader))),
            Ok(Payload::GlobalSection(reader)) => Ok(Section::GlobalSection(read_globals(reader))),
            Ok(Payload::FunctionSection(reader)) => Ok(
                Section::FunctionSection(collect_functions(reader)),
            ),
            Ok(Payload::CodeSectionEntry(body)) => {
                let locals = read_locals(&body);
                let operators = read_operators(&body);
                Ok(Section::CodeSectionEntry(Body { locals, operators }))
            },
            Ok(Payload::Version) => Ok(Section::Version),
            Ok(Payload::Other) => Ok(Section::Other),
            Err(error) => Err(error),
        };
        let ghost before = sections@;
        sections.push(section);
        proof {
            let i = iter.index() as int;
            assert(section_views(sections@) =~= section_views(before).push(section_view(section)));
            assert(meant.take(i + 1) =~= meant.take(i).push(meant[i]));
        }
    }
    proof {
        assert(meant.take(meant.len() as int) =~= meant);
    }
    sections
}

/// A part of a module is what the reader for it finds in it.
pub proof fn law_payload_view(payload: Payload<'_>, error: BinaryReaderError)
    ensures
        payload_view(Err(error)) == Err::<SectionView, _>(error),
        payload_view(Ok(payload)) matches Ok(section) && match payload {
            Payload::Version => section is Version,
            Payload::TypeSection(reader) => section == SectionView::TypeSection(types_in(reader)),
            Payload::ImportSection(reader) => section == SectionView::ImportSection(
                imports_in(reader),
            ),
            Payload::GlobalSection(reader) => section == SectionView::GlobalSection(
                globals_in(reader),
            ),
            Payload::FunctionSection(reader) => section == SectionView::FunctionSection(
                functions_in(reader),
            ),
            Payload::CodeSectionEntry(body) => {
                &&& section is CodeSectionEntry
                &&& section->CodeSectionEntry_0.locals == locals_in(body)
                &&& section->CodeSectionEntry_0.operators == operators_in(body)
            },
            Payload::Other => section is Other,
        },
{
}

/// Types are converted one by one, and none is left out.
pub proof fn law_func_type(ty: RawFuncType)
    ensures
        ty.as_func_type().params.len() == ty.params@.len(),
        forall|i: int|
            0 <= i < ty.params@.len() ==> ty.as_func_type().params[i] == val_type_of(ty.params@[i]),
        ty.as_func_type().results.len() == ty.results@.len(),
        forall|i: int|
            0 <= i < ty.results@.len() ==> ty.as_func_type().results[i] == val_type_of(
                ty.results@[i],
            ),
{
}

/// Value types are converted one by one, and none is left out.
pub proof fn law_val_types(tys: Seq<WasmValType>)
    ensures
        val_types_of(tys).len() == tys.len(),
        forall|i: int| 0 <= i < tys.len() ==> val_types_of(tys)[i] == val_type_of(tys[i]),
{
}

/// An import stays what it is.
pub proof fn law_import(import: RawImport)
    ensures
        match import {
            RawImport::Function(type_index) => import.as_import() == Import::Function(type_index),
            RawImport::Global(ty) => import.as_import() == Import::Global(val_type_of(ty)),
            RawImport::Other => import.as_import() is Other,
        },
{
}

/// The contents of a part are what is in it, in the same order.
pub proof fn law_section_view(section: Section)
    ensures
        match section {
            Section::Version => section@ is Version,
            Section::TypeSection(Ok(types)) => section@ matches SectionView::TypeSection(Ok(views))
                && {
                &&& views.len() == types@.len()
                &&& forall|i: int|
                    #![trigger views[i]]
                    0 <= i < types@.len() ==> views[i].params == types@[i].params@
                        && views[i].results == types@[i].results@
            },
            Section::TypeSection(Err(error)) => section@ == SectionView::TypeSection(Err(error)),
            Section::ImportSection(Ok(imports)) => section@ == SectionView::ImportSection(
                Ok(imports@),
            ),
            Section::ImportSection(Err(error)) => section@ == SectionView::ImportSection(
                Err(error),
            ),
            Section::GlobalSection(Ok(globals)) => section@ == SectionView::GlobalSection(
                Ok(globals@),
            ),
            Section::GlobalSection(Err(error)) => section@ == SectionView::GlobalSection(
                Err(error),
            ),
            Section::FunctionSection(Ok(functions)) => section@ == SectionView::FunctionSection(
                Ok(functions@),
            ),
            Section::FunctionSection(Err(error)) => section@ == SectionView::FunctionSection(
                Err(error),
            ),
            Section::CodeSectionEntry(body) => section@ matches SectionView::CodeSectionEntry(view)
                && {
                &&& match body.locals {
                    Ok(locals) => view.locals == Ok::<_, BinaryReaderError>(locals@),
                    Err(error) => view.locals == Err::<
                        Seq<Result<(u32, ValType), BinaryReaderError>>,
                        _,
                    >(error),
                }
                &&& match body.operators {
                    Ok(operators) => view.operators == Ok::<_, BinaryReaderError>(operators@),
                    Err(error) => view.operators == Err::<
                        Seq<Result<Operator, BinaryReaderError>>,
                        _,
                    >(error),
                }
            },
            Section::Other => section@ is Other,
        },
{
}

/// All parts are there, in the same order.
pub proof fn law_section_views(sections: Seq<Result<Section, BinaryReaderError>>)
    ensures
        section_views(sections).len() == sections.len(),
        forall|i: int|
            #![trigger section_views(sections)[i]]
            0 <= i < sections.len() ==> match sections[i] {
                Ok(section) => section_views(sections)[i] == Ok::<_, BinaryReaderError>(section@),
                Err(error) => section_views(sections)[i] == Err::<SectionView, _>(error),
            },
{
}

} // verus!
