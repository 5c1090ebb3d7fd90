//! The analysis of a whole module.

pub use crate::config::AnalysisConfig;
use crate::model::{entry, step, Env, FrameView};
use crate::operator::Operator;
use crate::partial_sum::{expanded, PartialSumMap};
use crate::reader::{
    read_module, section_view, section_views, sections_in, Body, BodyView, Import, Section,
    SectionView,
};
use crate::types::{FuncType, FuncTypeView, ValType};
use crate::visitor::{type_views, StackSizeVisitor};
use vstd::prelude::*;
use wasmparser::BinaryReaderError;

verus! {

/// The part of a module that could not be read, and why.
#[derive(Debug)]
pub enum Error {
    ParsePayload(BinaryReaderError),
    LocalsReader(BinaryReaderError),
    OperatorReader(BinaryReaderError),
    VisitOperators(BinaryReaderError),
    ParseTypes(BinaryReaderError),
    ParseFunctions(BinaryReaderError),
    ParseGlobals(BinaryReaderError),
    ParseLocals(BinaryReaderError),
}

impl Error {
    /// Says which part of the module could not be read.
    pub fn message(&self) -> (message: &'static str)
        ensures
            message@ == match self {
                Error::ParsePayload(_) => "could not parse a part of the WASM payload"@,
                Error::LocalsReader(_) => "could not create a function locals’ reader"@,
                Error::OperatorReader(_) => "could not create a function operators’ reader"@,
                Error::VisitOperators(_) => "could not visit the function operators"@,
                Error::ParseTypes(_) => "could not parse the type section entry"@,
                Error::ParseFunctions(_) => "could not parse the function section entry"@,
                Error::ParseGlobals(_) => "could not parse the global section entry"@,
                Error::ParseLocals(_) => "could not parsse function locals"@,
            },
    {
        match self {
            Error::ParsePayload(_) => "could not parse a part of the WASM payload",
            Error::LocalsReader(_) => "could not create a function locals’ reader",
            Error::OperatorReader(_) => "could not create a function operators’ reader",
            Error::VisitOperators(_) => "could not visit the function operators",
            Error::ParseTypes(_) => "could not parse the type section entry",
            Error::ParseFunctions(_) => "could not parse the function section entry",
            Error::ParseGlobals(_) => "could not parse the global section entry",
            Error::ParseLocals(_) => "could not parsse function locals",
        }
    }

    /// Why that part could not be read.
    pub fn source(&self) -> (source: &BinaryReaderError)
        ensures
            match self {
                Error::ParsePayload(error) | Error::LocalsReader(error)
                | Error::OperatorReader(error) | Error::VisitOperators(error)
                | Error::ParseTypes(error) | Error::ParseFunctions(error)
                | Error::ParseGlobals(error) | Error::ParseLocals(error) => source == error,
            },
    {
        match self {
            Error::ParsePayload(error) | Error::LocalsReader(error) | Error::OperatorReader(error)
            | Error::VisitOperators(error) | Error::ParseTypes(error)
            | Error::ParseFunctions(error) | Error::ParseGlobals(error)
            | Error::ParseLocals(error) => error,
        }
    }
}

/// What is known of a module after some of its parts have been read.
#[verifier::ext_equal]
pub struct ModuleState {
    pub types: Seq<FuncTypeView>,
    /// For each function the index of its type. Imported functions come first.
    pub functions: Seq<u32>,
    /// How many of the functions are imported.
    pub imported_functions: nat,
    /// The types of the globals. Imported globals come first.
    pub globals: Seq<ValType>,
    /// How many of the globals are imported.
    pub imported_globals: nat,
    pub function_stack_sizes: Seq<u64>,
}

/// The indices of the types of the functions among these imports.
pub open spec fn imported_functions(imports: Seq<Import>) -> Seq<u32>
    decreases imports.len(),
{
    if imports.len() == 0 {
        Seq::empty()
    } else {
        let rest = imported_functions(imports.drop_last());
        match imports.last() {
            Import::Function(type_index) => rest.push(type_index),
            _ => rest,
        }
    }
}

/// The types of the globals among these imports.
pub open spec fn imported_globals(imports: Seq<Import>) -> Seq<ValType>
    decreases imports.len(),
{
    if imports.len() == 0 {
        Seq::empty()
    } else {
        let rest = imported_globals(imports.drop_last());
        match imports.last() {
            Import::Global(ty) => rest.push(ty),
            _ => rest,
        }
    }
}

impl ModuleState {
    /// There are at least as many functions and globals as there are imported ones.
    pub open spec fn wf(self) -> bool {
        &&& self.imported_functions <= self.functions.len()
        &&& self.imported_globals <= self.globals.len()
    }

    /// The module with these imports.
    pub open spec fn with_imports(self, imports: Seq<Import>) -> ModuleState {
        ModuleState {
            functions: imported_functions(imports) + self.functions.skip(
                self.imported_functions as int,
            ),
            imported_functions: imported_functions(imports).len(),
            globals: imported_globals(imports) + self.globals.skip(self.imported_globals as int),
            imported_globals: imported_globals(imports).len(),
            ..self
        }
    }

    /// The module with these functions of its own.
    pub open spec fn with_functions(self, functions: Seq<u32>) -> ModuleState {
        ModuleState {
            functions: self.functions.take(self.imported_functions as int) + functions,
            ..self
        }
    }

    /// The module with these globals of its own.
    pub open spec fn with_globals(self, globals: Seq<ValType>) -> ModuleState {
        ModuleState {
            globals: self.globals.take(self.imported_globals as int) + globals,
            ..self
        }
    }

    /// The part of the module that a function with these locals can refer to.
    pub open spec fn env(self, locals: Seq<ValType>) -> Env {
        Env { types: self.types, functions: self.functions, globals: self.globals, locals }
    }

    /// The type of the function that the next body belongs to, if there is such a function.
    pub open spec fn next_type(self) -> Option<FuncTypeView> {
        let env = self.env(Seq::empty());
        match env.function_type_index(self.next_function()) {
            Some(type_index) => env.ty(type_index),
            None => None,
        }
    }

    /// The types of the locals of the next function, if it declares these: its parameters come
    /// first.
    pub open spec fn next_locals(self, runs: Seq<(u32, ValType)>) -> Seq<ValType> {
        match self.next_type() {
            Some(ty) => ty.params + expanded(runs),
            None => expanded(runs),
        }
    }

    /// The part of the module that the next function can refer to, if it declares these locals.
    pub open spec fn next_env(self, runs: Seq<(u32, ValType)>) -> Env {
        self.env(self.next_locals(runs))
    }

    /// The index of the function that the next body belongs to: bodies are counted in the order
    /// in which they occur, and the imported functions have none.
    pub open spec fn next_function(self) -> u32 {
        (self.imported_functions + self.function_stack_sizes.len()) as u32
    }
}

/// A module of which nothing has been read.
pub open spec fn unread_module() -> ModuleState {
    ModuleState {
        types: Seq::empty(),
        functions: Seq::empty(),
        imported_functions: 0,
        globals: Seq::empty(),
        imported_globals: 0,
        function_stack_sizes: Seq::empty(),
    }
}

/// The locals that a function declares, as runs of locals of the same type, if all of them can be
/// read. There is no outcome if there are too many of them.
pub open spec fn declared_locals(locals: Seq<Result<(u32, ValType), BinaryReaderError>>) -> Option<
    Result<Seq<(u32, ValType)>, BinaryReaderError>,
>
    decreases locals.len(),
{
    if locals.len() == 0 {
        Some(Ok(Seq::empty()))
    } else {
        match declared_locals(locals.drop_last()) {
            Some(Ok(runs)) => match locals.last() {
                Ok(run) => if expanded(runs).len() + run.0 <= u32::MAX {
                    Some(Ok(runs.push(run)))
                } else {
                    None
                },
                Err(error) => Some(Err(error)),
            },
            outcome => outcome,
        }
    }
}

/// The frames after a sequence of instructions, if all of them can be read. There is no outcome if
/// one of them cannot be analysed.
pub open spec fn followed<Cfg: AnalysisConfig>(
    cfg: &Cfg,
    env: Env,
    frames: Seq<FrameView>,
    ops: Seq<Result<Operator, BinaryReaderError>>,
) -> Option<Result<Seq<FrameView>, BinaryReaderError>>
    decreases ops.len(),
{
    if ops.len() == 0 {
        Some(Ok(frames))
    } else {
        match followed(cfg, env, frames, ops.drop_last()) {
            Some(Ok(frames)) => match ops.last() {
                Ok(op) => match step(cfg, env, frames, op) {
                    Some(frames) => Some(Ok(frames)),
                    None => None,
                },
                Err(error) => Some(Err(error)),
            },
            outcome => outcome,
        }
    }
}

/// The size of the stack frame of the next function of a module.
pub open spec fn frame_size<Cfg: AnalysisConfig>(
    cfg: &Cfg,
    module: ModuleState,
    body: BodyView,
) -> Option<Result<u64, Error>> {
    match body.locals {
        Ok(locals) => match declared_locals(locals) {
            Some(Ok(runs)) => operand_size(
                cfg,
                module,
                runs,
                body.operators,
            ),
            Some(Err(error)) => Some(Err(Error::ParseLocals(error))),
            None => None,
        },
        Err(error) => Some(Err(Error::LocalsReader(error))),
    }
}

/// The size of the stack frame of a function with these locals and instructions.
pub open spec fn operand_size<Cfg: AnalysisConfig>(
    cfg: &Cfg,
    module: ModuleState,
    runs: Seq<(u32, ValType)>,
    operators: Result<Seq<Result<Operator, BinaryReaderError>>, BinaryReaderError>,
) -> Option<Result<u64, Error>> {
    let env = module.next_env(runs);
    match entry(cfg, env, module.next_function()) {
        Some(frames) => match operators {
            Ok(ops) => match followed(cfg, env, frames, ops) {
                Some(Ok(frames)) => {
                    let size = cfg.activation_size(runs) + frames.last().operands.max_size;
                    if size <= u64::MAX {
                        Some(Ok(size as u64))
                    } else {
                        None
                    }
                },
                Some(Err(error)) => Some(Err(Error::VisitOperators(error))),
                None => None,
            },
            Err(error) => Some(Err(Error::OperatorReader(error))),
        },
        None => None,
    }
}

/// What is known of a module after one more part of it has been read.
pub open spec fn read_section<Cfg: AnalysisConfig>(
    cfg: &Cfg,
    module: ModuleState,
    section: Result<SectionView, BinaryReaderError>,
) -> Option<Result<ModuleState, Error>> {
    match section {
        // What has been imported is not there for the next module.
        Ok(SectionView::Version) => Some(Ok(module.with_imports(Seq::empty()))),
        Ok(SectionView::TypeSection(Ok(types))) => Some(Ok(ModuleState { types, ..module })),
        Ok(SectionView::TypeSection(Err(error))) => Some(Err(Error::ParseTypes(error))),
        Ok(SectionView::ImportSection(Ok(imports))) => Some(Ok(module.with_imports(imports))),
        // The analysis does without imports that cannot be read.
        Ok(SectionView::ImportSection(Err(_))) => Some(Ok(module)),
        Ok(SectionView::GlobalSection(Ok(globals))) => Some(Ok(module.with_globals(globals))),
        Ok(SectionView::GlobalSection(Err(error))) => Some(Err(Error::ParseGlobals(error))),
        Ok(SectionView::FunctionSection(Ok(functions))) => Some(
            Ok(module.with_functions(functions)),
        ),
        Ok(SectionView::FunctionSection(Err(error))) => Some(Err(Error::ParseFunctions(error))),
        Ok(SectionView::CodeSectionEntry(body)) => match frame_size(cfg, module, body) {
            Some(Ok(size)) => Some(
                Ok(
                    ModuleState {
                        function_stack_sizes: module.function_stack_sizes.push(size),
                        ..module
                    },
                ),
            ),
            Some(Err(error)) => Some(Err(error)),
            None => None,
        },
        Ok(SectionView::Other) => Some(Ok(module)),
        Err(error) => Some(Err(Error::ParsePayload(error))),
    }
}

/// What the analysis of a module comes to.
///
/// The parts of the module are looked at one after the other. The first one that cannot be read
/// decides the outcome. There is no outcome if a part that has been read cannot be analysed.
pub open spec fn analysis<Cfg: AnalysisConfig>(
    cfg: &Cfg,
    sections: Seq<Result<SectionView, BinaryReaderError>>,
) -> Option<Result<ModuleState, Error>>
    decreases sections.len(),
{
    if sections.len() == 0 {
        Some(Ok(unread_module()))
    } else {
        match analysis(cfg, sections.drop_last()) {
            Some(Ok(module)) => read_section(cfg, module, sections.last()),
            outcome => outcome,
        }
    }
}

/// The sizes of the stack frames of the functions of a module.
pub open spec fn stack_sizes<Cfg: AnalysisConfig>(
    cfg: &Cfg,
    sections: Seq<Result<SectionView, BinaryReaderError>>,
) -> Option<Result<Seq<u64>, Error>> {
    match analysis(cfg, sections) {
        Some(Ok(module)) => Some(Ok(module.function_stack_sizes)),
        Some(Err(error)) => Some(Err(error)),
        None => None,
    }
}

/// The results of parsing and analyzing the module.
pub struct Module {
    /// The sizes of the stack frame (the maximum amount of stack used at any given time during the
    /// execution of the function) for each function.
    pub function_stack_sizes: Vec<u64>,
}

/// What a result says of the stack frames.
pub open spec fn result_view(result: Result<Module, Error>) -> Result<Seq<u64>, Error> {
    match result {
        Ok(module) => Ok(module.function_stack_sizes@),
        Err(error) => Err(error),
    }
}

/// An analysis in progress.
struct Analysis {
    function_stack_sizes: Vec<u64>,
    types: Vec<FuncType>,
    functions: Vec<u32>,
    imported_functions: usize,
    globals: Vec<ValType>,
    imported_globals: usize,
    locals: PartialSumMap<u32, ValType>,
}

impl View for Analysis {
    type V = ModuleState;

    closed spec fn view(&self) -> ModuleState {
        ModuleState {
            types: type_views(self.types@),
            functions: self.functions@,
            imported_functions: self.imported_functions as nat,
            globals: self.globals@,
            imported_globals: self.imported_globals as nat,
            function_stack_sizes: self.function_stack_sizes@,
        }
    }
}

/// Parts imports into functions and globals.
fn part_imports(imports: &Vec<Import>) -> (parts: (Vec<u32>, Vec<ValType>))
    ensures
        parts.0@ == imported_functions(imports@),
        parts.1@ == imported_globals(imports@),
{
    let mut functions: Vec<u32> = Vec::new();
    let mut globals: Vec<ValType> = Vec::new();
    for i in 0..imports.len()
        invariant
            functions@ == imported_functions(imports@.take(i as int)),
            globals@ == imported_globals(imports@.take(i as int)),
    {
        proof {
            assert(imports@.take(i + 1).drop_last() =~= imports@.take(i as int));
        }
        match imports[i] {
            Import::Function(type_index) => functions.push(type_index),
            Import::Global(ty) => globals.push(ty),
            Import::Other => {},
        }
    }
    proof {
        assert(imports@.take(imports@.len() as int) =~= imports@);
    }
    (functions, globals)
}

/// Replaces the first `count` elements of a list.
fn replace_first<T>(list: &mut Vec<T>, count: usize, elements: Vec<T>)
    requires
        count <= old(list)@.len(),
    ensures
        final(list)@ == elements@ + old(list)@.skip(count as int),
{
    let mut rest = list.split_off(count);
    *list = elements;
    list.append(&mut rest);
}

/// Replaces all elements of a list behind the first `count`.
fn replace_rest<T>(list: &mut Vec<T>, count: usize, elements: Vec<T>)
    requires
        count <= old(list)@.len(),
    ensures
        final(list)@ == old(list)@.take(count as int) + elements@,
{
    let mut elements = elements;
    list.truncate(count);
    list.append(&mut elements);
}

impl Analysis {
    /// The index of the function that the next body belongs to.
    ///
    /// The number of sizes also counts the bodies that have been seen so far. This allows to match
    /// up the body with the type of its function, once the imported functions are skipped.
    fn next_function(&self) -> (function_index: u32)
        ensures
            function_index == self@.next_function(),
    {
        (self.imported_functions as u128 + self.function_stack_sizes.len() as u128) as u32
    }

    /// Declares the locals of a function, and returns them as runs of locals of the same type.
    fn declare_locals(
        &mut self,
        locals: Vec<Result<(u32, ValType), BinaryReaderError>>,
    ) -> (runs: Option<Result<Vec<(u32, ValType)>, BinaryReaderError>>)
        ensures
            final(self)@ == old(self)@,
            match runs {
                Some(Ok(runs)) => {
                    &&& declared_locals(locals@) == Some(Ok::<_, BinaryReaderError>(runs@))
                    &&& final(self).locals.wf()
                    &&& final(self).locals@ == expanded(runs@)
                },
                Some(Err(error)) => declared_locals(locals@) == Some(
                    Err::<Seq<(u32, ValType)>, _>(error),
                ),
                None => declared_locals(locals@) is None,
            },
    {
        self.locals.clear();
        let ghost all = locals@;
        let mut runs: Vec<(u32, ValType)> = Vec::new();
        for local in iter: locals
            invariant
                iter.seq() == all,
                self@ == old(self)@,
                self.locals.wf(),
                self.locals@ == expanded(runs@),
                declared_locals(all.take(iter.index() as int)) == Some(
                    Ok::<_, BinaryReaderError>(runs@),
                ),
        {
            proof {
                let i = iter.index() as int;
                assert(all.take(i + 1).drop_last() =~= all.take(i));
            }
            match local {
                Ok((count, ty)) => {
                    let ghost before = runs@;
                    if self.locals.push(count, ty).is_err() {
                        proof {
                            lemma_declared_locals_take(all, iter.index() + 1);
                        }
                        return None;
                    }
                    runs.push((count, ty));
                    proof {
                        assert(runs@.drop_last() =~= before);
                    }
                },
                Err(error) => {
                    proof {
                        lemma_declared_locals_take(all, iter.index() + 1);
                    }
                    return Some(Err(error));
                },
            }
        }
        proof {
            assert(all.take(all.len() as int) =~= all);
        }
        Some(Ok(runs))
    }

    /// The parameters of the next function, if there is such a function.
    fn next_params(&self) -> (params: Option<&Vec<ValType>>)
        ensures
            match params {
                Some(params) => self@.next_type() matches Some(ty) && params@ == ty.params,
                None => self@.next_type() is None,
            },
    {
        let function_index = self.next_function();
        if function_index as usize >= self.functions.len() {
            return None;
        }
        let type_index = self.functions[function_index as usize];
        if type_index as usize >= self.types.len() {
            return None;
        }
        Some(&self.types[type_index as usize].params)
    }

    /// Computes the size of the stack frame of the next function.
    fn size_of_frame<Cfg: AnalysisConfig>(&mut self, configuration: &Cfg, body: Body) -> (size:
        Option<Result<u64, Error>>)
        ensures
            final(self)@ == old(self)@,
            size == frame_size(configuration, old(self)@, body@),
    {
        let runs = match body.locals {
            Ok(locals) => match self.declare_locals(locals)? {
                Ok(runs) => runs,
                Err(error) => {
                    return Some(Err(Error::ParseLocals(error)));
                },
            },
            Err(error) => {
                return Some(Err(Error::LocalsReader(error)));
            },
        };
        let ghost ghost_runs = runs@;
        let activation_size = configuration.size_of_function_activation(runs.into_iter());
        let params = self.next_params()?;
        let mut visitor = StackSizeVisitor {
            config: configuration,
            functions: &self.functions,
            types: &self.types,
            globals: &self.globals,
            params,
            locals: &self.locals,
            frames: Vec::new(),
        };
        let ghost env = visitor.env();
        visitor.visit_function_entry(self.next_function())?;
        let ops = match body.operators {
            Ok(ops) => ops,
            Err(error) => {
                return Some(Err(Error::OperatorReader(error)));
            },
        };
        let ghost all = ops@;
        let ghost start = visitor.open_frames();
        for op in iter: ops
            invariant
                iter.seq() == all,
                visitor.active(),
                visitor.env() == env,
                visitor.config == configuration,
                followed(configuration, env, start, all.take(iter.index() as int)) == Some(
                    Ok::<_, BinaryReaderError>(visitor.open_frames()),
                ),
                self@ == old(self)@,
                env == old(self)@.next_env(ghost_runs),
                entry(configuration, env, old(self)@.next_function()) == Some(start),
                body@.locals is Ok,
                declared_locals(body@.locals->Ok_0) == Some(
                    Ok::<_, BinaryReaderError>(ghost_runs),
                ),
                body@.operators == Ok::<_, BinaryReaderError>(all),
        {
            proof {
                let i = iter.index() as int;
                assert(all.take(i + 1).drop_last() =~= all.take(i));
            }
            match op {
                Ok(op) => {
                    if visitor.visit_operator(op).is_none() {
                        proof {
                            lemma_followed_take(configuration, env, start, all, iter.index() + 1);
                        }
                        return None;
                    }
                },
                Err(error) => {
                    proof {
                        lemma_followed_take(configuration, env, start, all, iter.index() + 1);
                    }
                    return Some(Err(Error::VisitOperators(error)));
                },
            }
        }
        proof {
            assert(all.take(all.len() as int) =~= all);
        }
        let size = activation_size.checked_add(visitor.max_size())?;
        Some(Ok(size))
    }

    /// Puts these imports in the place of those that there have been so far.
    fn set_imports(&mut self, imports: &Vec<Import>)
        requires
            old(self)@.wf(),
        ensures
            final(self)@.wf(),
            final(self)@ == old(self)@.with_imports(imports@),
    {
        let (functions, globals) = part_imports(imports);
        let (imported_functions, imported_globals) = (functions.len(), globals.len());
        replace_first(&mut self.functions, self.imported_functions, functions);
        replace_first(&mut self.globals, self.imported_globals, globals);
        self.imported_functions = imported_functions;
        self.imported_globals = imported_globals;
    }

    /// Takes in one part of the module.
    fn read_section<Cfg: AnalysisConfig>(
        &mut self,
        configuration: &Cfg,
        section: Result<Section, BinaryReaderError>,
    ) -> (done: Option<Result<(), Error>>)
        requires
            old(self)@.wf(),
        ensures
            match done {
                Some(Ok(())) => {
                    &&& final(self)@.wf()
                    &&& read_section(configuration, old(self)@, section_view(section)) == Some(
                        Ok::<_, Error>(final(self)@),
                    )
                },
                Some(Err(error)) => read_section(configuration, old(self)@, section_view(section))
                    == Some(Err::<ModuleState, _>(error)),
                None => read_section(configuration, old(self)@, section_view(section)) is None,
            },
    {
        match section {
            Ok(Section::Version) => {
                self.set_imports(&Vec::new());
            },
            Ok(Section::TypeSection(Ok(types))) => {
                self.types = types;
            },
            Ok(Section::TypeSection(Err(error))) => {
                return Some(Err(Error::ParseTypes(error)));
            },
            Ok(Section::ImportSection(Ok(imports))) => {
                self.set_imports(&imports);
            },
            Ok(Section::ImportSection(Err(_))) => {},
            Ok(Section::GlobalSection(Ok(globals))) => {
                replace_rest(&mut self.globals, self.imported_globals, globals);
            },
            Ok(Section::GlobalSection(Err(error))) => {
                return Some(Err(Error::ParseGlobals(error)));
            },
            Ok(Section::FunctionSection(Ok(functions))) => {
                replace_rest(&mut self.functions, self.imported_functions, functions);
            },
            Ok(Section::FunctionSection(Err(error))) => {
                return Some(Err(Error::ParseFunctions(error)));
            },
            Ok(Section::CodeSectionEntry(body)) => match self.size_of_frame(configuration, body)? {
                Ok(size) => {
                    self.function_stack_sizes.push(size);
                },
                Err(error) => {
                    return Some(Err(error));
                },
            },
            Ok(Section::Other) => {},
            Err(error) => {
                return Some(Err(Error::ParsePayload(error)));
            },
        }
        Some(Ok(()))
    }
}

impl Module {
    /// Analyses a module that has been read already.
    ///
    /// Nothing comes of a module that the analysis does not support.
    pub fn analyze<Cfg: AnalysisConfig>(
        sections: Vec<Result<Section, BinaryReaderError>>,
        configuration: &Cfg,
    ) -> (result: Option<Result<Self, Error>>)
        ensures
            match result {
                Some(result) => stack_sizes(configuration, section_views(sections@)) == Some(
                    result_view(result),
                ),
                None => stack_sizes(configuration, section_views(sections@)) is None,
            },
    {
        let mut module = Analysis {
            function_stack_sizes: Vec::new(),
            types: Vec::new(),
            functions: Vec::new(),
            imported_functions: 0,
            globals: Vec::new(),
            imported_globals: 0,
            locals: PartialSumMap::new(),
        };
        proof {
            assert(module@ =~= unread_module());
        }
        let ghost all = section_views(sections@);
        for section in iter: sections
            invariant
                section_views(iter.seq()) == all,
                module@.wf(),
                analysis(configuration, all.take(iter.index() as int)) == Some(
                    Ok::<_, Error>(module@),
                ),
        {
            proof {
                let i = iter.index() as int;
                assert(all.take(i + 1).drop_last() =~= all.take(i));
            }
            match module.read_section(configuration, section) {
                Some(Ok(())) => {},
                Some(Err(error)) => {
                    proof {
                        law_first_failure_decides(configuration, all, iter.index() + 1);
                    }
                    return Some(Err(error));
                },
                None => {
                    proof {
                        law_first_failure_decides(configuration, all, iter.index() + 1);
                    }
                    return None;
                },
            }
        }
        proof {
            assert(all.take(all.len() as int) =~= all);
        }
        Some(Ok(Module { function_stack_sizes: module.function_stack_sizes }))
    }

    /// Whether the analysis supports a module.
    pub fn is_supported(module: &[u8], configuration: &impl AnalysisConfig) -> (supported: bool)
        ensures
            supported <==> stack_sizes(configuration, sections_in(module@)) is Some,
    {
        Self::analyze(read_module(module), configuration).is_some()
    }

    /// Reads and analyses a module.
    pub fn new(module: &[u8], configuration: &impl AnalysisConfig) -> (result: Result<Self, Error>)
        requires
            stack_sizes(configuration, sections_in(module@)) is Some,
        ensures
            stack_sizes(configuration, sections_in(module@)) == Some(result_view(result)),
    {
        Self::analyze(read_module(module), configuration).unwrap()
    }

    /// Reads and analyses a module, if the analysis supports it.
    pub fn try_new(module: &[u8], configuration: &impl AnalysisConfig) -> (result: Option<
        Result<Self, Error>,
    >)
        ensures
            match result {
                Some(result) => stack_sizes(configuration, sections_in(module@)) == Some(
                    result_view(result),
                ),
                None => stack_sizes(configuration, sections_in(module@)) is None,
            },
    {
        if Self::is_supported(module, configuration) {
            Some(Self::new(module, configuration))
        } else {
            None
        }
    }
}

/// Once the outcome is something else than a list of frames, it stays that.
proof fn lemma_followed_take<Cfg: AnalysisConfig>(
    cfg: &Cfg,
    env: Env,
    frames: Seq<FrameView>,
    ops: Seq<Result<Operator, BinaryReaderError>>,
    n: int,
)
    requires
        0 <= n <= ops.len(),
        !(followed(cfg, env, frames, ops.take(n)) matches Some(Ok(_))),
    ensures
        followed(cfg, env, frames, ops) == followed(cfg, env, frames, ops.take(n)),
    decreases ops.len() - n,
{
    if n < ops.len() {
        assert(ops.take(n + 1).drop_last() =~= ops.take(n));
        lemma_followed_take(cfg, env, frames, ops, n + 1);
    } else {
        assert(ops.take(n) =~= ops);
    }
}

/// The first part of a module that cannot be read or analysed decides the outcome, whatever
/// follows it.
pub proof fn law_first_failure_decides<Cfg: AnalysisConfig>(
    cfg: &Cfg,
    sections: Seq<Result<SectionView, BinaryReaderError>>,
    n: int,
)
    requires
        0 <= n <= sections.len(),
        !(analysis(cfg, sections.take(n)) matches Some(Ok(_))),
    ensures
        analysis(cfg, sections) == analysis(cfg, sections.take(n)),
    decreases sections.len() - n,
{
    if n < sections.len() {
        assert(sections.take(n + 1).drop_last() =~= sections.take(n));
        law_first_failure_decides(cfg, sections, n + 1);
    } else {
        assert(sections.take(n) =~= sections);
    }
}

/// Once the outcome is something else than a list of locals, it stays that.
proof fn lemma_declared_locals_take(
    locals: Seq<Result<(u32, ValType), BinaryReaderError>>,
    n: int,
)
    requires
        0 <= n <= locals.len(),
        !(declared_locals(locals.take(n)) matches Some(Ok(_))),
    ensures
        declared_locals(locals) == declared_locals(locals.take(n)),
    decreases locals.len() - n,
{
    if n < locals.len() {
        assert(locals.take(n + 1).drop_last() =~= locals.take(n));
        lemma_declared_locals_take(locals, n + 1);
    } else {
        assert(locals.take(n) =~= locals);
    }
}

} // verus!
