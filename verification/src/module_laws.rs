//! What holds of the analysis of a whole module.

use crate::config::AnalysisConfig;
use crate::instrument::{
    analysis, declared_locals, followed, frame_size, imported_functions, imported_globals,
    law_first_failure_decides, result_view, stack_sizes, Error, Module, ModuleState,
};
use crate::laws::{is_peak, law_max_size_is_peak};
use crate::model::{entry, step, steps, Env, FrameView};
use crate::operator::Operator;
use crate::partial_sum::expanded;
use crate::reader::{BodyView, Import, SectionView};
use crate::types::{FuncTypeView, ValType};
use vstd::prelude::*;
use wasmparser::BinaryReaderError;

verus! {

/// The number of function bodies among the parts of a module.
pub open spec fn bodies(sections: Seq<Result<SectionView, BinaryReaderError>>) -> nat
    decreases sections.len(),
{
    if sections.len() == 0 {
        0
    } else {
        bodies(sections.drop_last()) + if sections.last() matches Ok(
            SectionView::CodeSectionEntry(_),
        ) {
            1nat
        } else {
            0
        }
    }
}

/// The instructions in a list of which every element could be read.
pub open spec fn instructions(ops: Seq<Result<Operator, BinaryReaderError>>) -> Seq<Operator> {
    ops.map_values(|op: Result<Operator, BinaryReaderError>| op->Ok_0)
}

/// A module has one size for each function body.
pub proof fn law_one_size_per_body<Cfg: AnalysisConfig>(
    cfg: &Cfg,
    sections: Seq<Result<SectionView, BinaryReaderError>>,
)
    ensures
        analysis(cfg, sections) matches Some(Ok(module)) ==> module.function_stack_sizes.len()
            == bodies(sections),
    decreases sections.len(),
{
    if sections.len() > 0 {
        law_one_size_per_body(cfg, sections.drop_last());
    }
}

/// What has been found out about the first parts of a module stays: the sizes of the functions in
/// them come first among all sizes.
pub proof fn law_sizes_stay<Cfg: AnalysisConfig>(
    cfg: &Cfg,
    sections: Seq<Result<SectionView, BinaryReaderError>>,
    n: int,
)
    requires
        0 <= n <= sections.len(),
        analysis(cfg, sections) matches Some(Ok(_)),
    ensures
        analysis(cfg, sections.take(n)) matches Some(Ok(before))
            && before.function_stack_sizes.is_prefix_of(
            analysis(cfg, sections)->0->Ok_0.function_stack_sizes,
        ),
    decreases sections.len(),
{
    if n < sections.len() {
        law_sizes_stay(cfg, sections.drop_last(), n);
        assert(sections.drop_last().take(n) =~= sections.take(n));
    } else {
        assert(sections.take(n) =~= sections);
    }
}

/// The size of a function is the one that its body has, given the parts of the module before it.
pub proof fn law_size_of_each_body<Cfg: AnalysisConfig>(
    cfg: &Cfg,
    sections: Seq<Result<SectionView, BinaryReaderError>>,
    n: int,
    body: BodyView,
)
    requires
        0 <= n < sections.len(),
        sections[n] == Ok::<_, BinaryReaderError>(SectionView::CodeSectionEntry(body)),
        analysis(cfg, sections) matches Some(Ok(_)),
    ensures
        analysis(cfg, sections.take(n)) matches Some(Ok(before)) && frame_size(cfg, before, body)
            == Some(
            Ok::<_, Error>(
                analysis(cfg, sections)->0->Ok_0.function_stack_sizes[bodies(
                    sections.take(n),
                ) as int],
            ),
        ),
{
    law_sizes_stay(cfg, sections, n);
    law_sizes_stay(cfg, sections, n + 1);
    law_one_size_per_body(cfg, sections.take(n));
    assert(sections.take(n + 1).drop_last() =~= sections.take(n));
    let after = analysis(cfg, sections.take(n + 1))->0->Ok_0.function_stack_sizes;
    let all = analysis(cfg, sections)->0->Ok_0.function_stack_sizes;
    assert(all.subrange(0, after.len() as int).last() == all[after.len() - 1]);
}

/// Two modules are the same but for the bodies of their functions.
pub open spec fn same_but_for_bodies(
    sections: Seq<Result<SectionView, BinaryReaderError>>,
    others: Seq<Result<SectionView, BinaryReaderError>>,
) -> bool {
    &&& sections.len() == others.len()
    &&& forall|i: int|
        0 <= i < sections.len() ==> ((#[trigger] sections[i]) == (#[trigger] others[i]) || (
        sections[i] matches Ok(SectionView::CodeSectionEntry(_)) && others[i] matches Ok(
            SectionView::CodeSectionEntry(_),
        )))
}

/// What is known of two modules that are the same but for the bodies of their functions.
proof fn lemma_same_but_for_bodies<Cfg: AnalysisConfig>(
    cfg: &Cfg,
    sections: Seq<Result<SectionView, BinaryReaderError>>,
    others: Seq<Result<SectionView, BinaryReaderError>>,
)
    requires
        same_but_for_bodies(sections, others),
        analysis(cfg, sections) matches Some(Ok(_)),
        analysis(cfg, others) matches Some(Ok(_)),
    ensures
        ({
            let module = analysis(cfg, sections)->0->Ok_0;
            let other = analysis(cfg, others)->0->Ok_0;
            &&& module.types == other.types
            &&& module.functions == other.functions
            &&& module.imported_functions == other.imported_functions
            &&& module.imported_globals == other.imported_globals
            &&& module.globals == other.globals
            &&& module.function_stack_sizes.len() == other.function_stack_sizes.len()
        }),
    decreases sections.len(),
{
    if sections.len() > 0 {
        let (before, others_before) = (sections.drop_last(), others.drop_last());
        assert forall|i: int| 0 <= i < before.len() implies ((#[trigger] before[i]) == (
        #[trigger] others_before[i]) || (before[i] matches Ok(SectionView::CodeSectionEntry(_))
            && others_before[i] matches Ok(SectionView::CodeSectionEntry(_)))) by {
            assert(before[i] == sections[i] && others_before[i] == others[i]);
        }
        lemma_same_but_for_bodies(cfg, before, others_before);
        assert(sections.last() == sections[sections.len() - 1]);
        assert(others.last() == others[others.len() - 1]);
    }
}

/// The size of a function does not depend on the bodies of the other functions.
pub proof fn law_size_is_independent_of_other_bodies<Cfg: AnalysisConfig>(
    cfg: &Cfg,
    sections: Seq<Result<SectionView, BinaryReaderError>>,
    others: Seq<Result<SectionView, BinaryReaderError>>,
    n: int,
    body: BodyView,
)
    requires
        same_but_for_bodies(sections, others),
        0 <= n < sections.len(),
        sections[n] == Ok::<_, BinaryReaderError>(SectionView::CodeSectionEntry(body)),
        others[n] == sections[n],
        analysis(cfg, sections) matches Some(Ok(_)),
        analysis(cfg, others) matches Some(Ok(_)),
    ensures
        bodies(sections.take(n)) == bodies(others.take(n)),
        analysis(cfg, sections)->0->Ok_0.function_stack_sizes[bodies(sections.take(n)) as int]
            == analysis(cfg, others)->0->Ok_0.function_stack_sizes[bodies(sections.take(n)) as int],
{
    law_size_of_each_body(cfg, sections, n, body);
    law_size_of_each_body(cfg, others, n, body);
    law_one_size_per_body(cfg, sections.take(n));
    law_one_size_per_body(cfg, others.take(n));
    let (before, others_before) = (sections.take(n), others.take(n));
    assert forall|i: int| 0 <= i < before.len() implies ((#[trigger] before[i]) == (
    #[trigger] others_before[i]) || (before[i] matches Ok(SectionView::CodeSectionEntry(_))
        && others_before[i] matches Ok(SectionView::CodeSectionEntry(_)))) by {
        assert(before[i] == sections[i] && others_before[i] == others[i]);
    }
    lemma_same_but_for_bodies(cfg, before, others_before);
    let module = analysis(cfg, before)->0->Ok_0;
    let other = analysis(cfg, others_before)->0->Ok_0;
    assert(module.next_function() == other.next_function());
    assert forall|locals: Seq<ValType>| #[trigger] module.env(locals) == other.env(locals) by {}
    assert(frame_size(cfg, module, body) == frame_size(cfg, other, body));
}

/// Parts that do not matter for the analysis can be left out, and so can imports that cannot be
/// read.
pub proof fn law_other_parts_do_not_matter<Cfg: AnalysisConfig>(
    cfg: &Cfg,
    first: Seq<Result<SectionView, BinaryReaderError>>,
    part: SectionView,
    second: Seq<Result<SectionView, BinaryReaderError>>,
)
    requires
        part is Other || part matches SectionView::ImportSection(Err(_)),
    ensures
        analysis(cfg, first.push(Ok(part)) + second) == analysis(cfg, first + second),
    decreases second.len(),
{
    let other: Result<SectionView, BinaryReaderError> = Ok(part);
    if second.len() == 0 {
        assert(first + second =~= first);
        assert(first.push(other) + second =~= first.push(other));
        assert(first.push(other).drop_last() =~= first);
    } else {
        law_other_parts_do_not_matter(cfg, first, part, second.drop_last());
        assert((first + second).drop_last() =~= first + second.drop_last());
        assert((first.push(other) + second).drop_last() =~= first.push(other)
            + second.drop_last());
    }
}

/// The imported functions and globals are among all functions and globals.
pub proof fn law_imports_are_counted<Cfg: AnalysisConfig>(
    cfg: &Cfg,
    sections: Seq<Result<SectionView, BinaryReaderError>>,
)
    ensures
        analysis(cfg, sections) matches Some(Ok(module)) ==> module.wf(),
    decreases sections.len(),
{
    if sections.len() > 0 {
        law_imports_are_counted(cfg, sections.drop_last());
    }
}

/// What a module imports is forgotten at the start of the next one.
pub proof fn law_imports_end_with_the_module<Cfg: AnalysisConfig>(
    cfg: &Cfg,
    sections: Seq<Result<SectionView, BinaryReaderError>>,
    imports: Seq<Import>,
)
    ensures
        analysis(
            cfg,
            sections.push(Ok(SectionView::ImportSection(Ok(imports)))).push(
                Ok(SectionView::Version),
            ),
        ) == analysis(cfg, sections.push(Ok(SectionView::Version))),
        analysis(cfg, sections.push(Ok(SectionView::Version))) matches Some(Ok(module)) ==> {
            &&& module.imported_functions == 0
            &&& module.imported_globals == 0
        },
{
    let version: Result<SectionView, BinaryReaderError> = Ok(SectionView::Version);
    let import: Result<SectionView, BinaryReaderError> = Ok(
        SectionView::ImportSection(Ok(imports)),
    );
    reveal_with_fuel(analysis, 3);
    assert(sections.push(version).drop_last() =~= sections);
    assert(sections.push(import).drop_last() =~= sections);
    assert(sections.push(import).push(version).drop_last() =~= sections.push(import));
    law_imports_are_counted(cfg, sections);
    if let Some(Ok(module)) = analysis(cfg, sections) {
        let with = module.with_imports(imports);
        assert(with.with_imports(Seq::empty()) =~= module.with_imports(Seq::empty()));
    }
}

/// Following instructions that can be read is analysing them one after the other, and all of them
/// have been read if that leads to a list of frames.
pub proof fn law_followed_instructions<Cfg: AnalysisConfig>(
    cfg: &Cfg,
    env: Env,
    frames: Seq<FrameView>,
    ops: Seq<Result<Operator, BinaryReaderError>>,
    after: Seq<FrameView>,
)
    ensures
        followed(cfg, env, frames, ops) == Some(Ok::<_, BinaryReaderError>(after)) <==> {
            &&& forall|i: int| 0 <= i < ops.len() ==> (#[trigger] ops[i]) is Ok
            &&& steps(cfg, env, frames, instructions(ops)) == Some(after)
        },
    decreases ops.len(),
{
    if ops.len() > 0 {
        let before = ops.drop_last();
        assert(instructions(ops).drop_last() =~= instructions(before));
        assert(instructions(ops).last() == ops.last()->Ok_0);
        match followed(cfg, env, frames, before) {
            Some(Ok(frames_before)) => {
                law_followed_instructions(cfg, env, frames, before, frames_before);
            },
            _ => {
                if steps(cfg, env, frames, instructions(before)) is Some {
                    law_followed_instructions(
                        cfg,
                        env,
                        frames,
                        before,
                        steps(cfg, env, frames, instructions(before))->0,
                    );
                }
            },
        }
        if forall|i: int| 0 <= i < ops.len() ==> (#[trigger] ops[i]) is Ok {
            assert forall|i: int| 0 <= i < before.len() implies (#[trigger] before[i]) is Ok by {
                assert(ops[i] is Ok);
            }
            assert(ops[ops.len() - 1] is Ok);
        }
        if followed(cfg, env, frames, ops) matches Some(Ok(_)) {
            assert forall|i: int| 0 <= i < ops.len() implies (#[trigger] ops[i]) is Ok by {
                if i < before.len() {
                    assert(before[i] is Ok);
                }
            }
        }
    }
}

/// The locals that a body declares, as runs of locals of the same type.
pub open spec fn runs_of(body: BodyView) -> Seq<(u32, ValType)> {
    declared_locals(body.locals->Ok_0)->0->Ok_0
}

/// What the instructions of the next function can refer to.
pub open spec fn env_of(module: ModuleState, body: BodyView) -> Env {
    module.next_env(runs_of(body))
}

/// The frames at the start of the next function.
pub open spec fn start_of<Cfg: AnalysisConfig>(
    cfg: &Cfg,
    module: ModuleState,
    body: BodyView,
) -> Seq<FrameView> {
    entry(cfg, env_of(module, body), module.next_function())->0
}

/// The instructions of a body.
pub open spec fn instructions_of(body: BodyView) -> Seq<Operator> {
    instructions(body.operators->Ok_0)
}

/// The instructions close all the blocks that they open.
pub open spec fn closes_blocks<Cfg: AnalysisConfig>(
    cfg: &Cfg,
    module: ModuleState,
    body: BodyView,
) -> bool {
    steps(
        cfg,
        env_of(module, body),
        start_of(cfg, module, body),
        instructions_of(body),
    )->0.len() == 1
}

/// The size of a function is what its activation takes up and the most that its operands take up at
/// any time, if the instructions close all the blocks that they open.
pub proof fn law_frame_size_is_peak<Cfg: AnalysisConfig>(
    cfg: &Cfg,
    module: ModuleState,
    body: BodyView,
    size: u64,
)
    requires
        frame_size(cfg, module, body) == Some(Ok::<_, Error>(size)),
        closes_blocks(cfg, module, body),
    ensures
        size >= cfg.activation_size(runs_of(body)),
        is_peak(
            cfg,
            env_of(module, body),
            start_of(cfg, module, body),
            instructions_of(body),
            (size - cfg.activation_size(runs_of(body))) as nat,
        ),
{
    let env = env_of(module, body);
    let start = start_of(cfg, module, body);
    let ops = body.operators->Ok_0;
    let after = followed(cfg, env, start, ops)->0->Ok_0;
    law_followed_instructions(cfg, env, start, ops, after);
    law_max_size_is_peak(cfg, env, module.next_function(), instructions(ops));
}

/// The size that a module records for a function is the maximum amount of stack that the function
/// uses at any given time, for its activation and its operands together, if its instructions close
/// all the blocks that they open.
pub proof fn law_stack_sizes_are_peaks<Cfg: AnalysisConfig>(
    cfg: &Cfg,
    sections: Seq<Result<SectionView, BinaryReaderError>>,
    n: int,
    body: BodyView,
)
    requires
        0 <= n < sections.len(),
        sections[n] == Ok::<_, BinaryReaderError>(SectionView::CodeSectionEntry(body)),
        analysis(cfg, sections) matches Some(Ok(_)),
        closes_blocks(cfg, analysis(cfg, sections.take(n))->0->Ok_0, body),
    ensures
        stack_sizes(cfg, sections) matches Some(Ok(sizes)) && {
            let before = analysis(cfg, sections.take(n))->0->Ok_0;
            let size = sizes[bodies(sections.take(n)) as int];
            &&& size >= cfg.activation_size(runs_of(body))
            &&& is_peak(
                cfg,
                env_of(before, body),
                start_of(cfg, before, body),
                instructions_of(body),
                (size - cfg.activation_size(runs_of(body))) as nat,
            )
        },
{
    law_size_of_each_body(cfg, sections, n, body);
    let before = analysis(cfg, sections.take(n))->0->Ok_0;
    let sizes = analysis(cfg, sections)->0->Ok_0.function_stack_sizes;
    law_frame_size_is_peak(cfg, before, body, sizes[bodies(sections.take(n)) as int]);
}

/// There is no way to get at the locals of a body.
pub open spec fn unreadable_locals(body: BodyView, error: BinaryReaderError) -> bool {
    body.locals matches Err(e) && e == error
}

/// A local in a body cannot be read, and those before it are in order.
pub open spec fn unreadable_local(body: BodyView, error: BinaryReaderError) -> bool {
    body.locals matches Ok(locals) && declared_locals(locals) == Some(
        Err::<Seq<(u32, ValType)>, _>(error),
    )
}

/// The locals of a body are in order, and its function has a type.
pub open spec fn has_start<Cfg: AnalysisConfig>(
    cfg: &Cfg,
    module: ModuleState,
    body: BodyView,
) -> bool {
    &&& body.locals matches Ok(locals)
    &&& declared_locals(locals) matches Some(Ok(_))
    &&& entry(cfg, env_of(module, body), module.next_function()) is Some
}

/// There is no way to get at the instructions of a body that is in order up to there.
pub open spec fn unreadable_operators<Cfg: AnalysisConfig>(
    cfg: &Cfg,
    module: ModuleState,
    body: BodyView,
    error: BinaryReaderError,
) -> bool {
    has_start(cfg, module, body) && (body.operators matches Err(e) && e == error)
}

/// An instruction in a body cannot be read, and those before it are in order.
pub open spec fn unreadable_operator<Cfg: AnalysisConfig>(
    cfg: &Cfg,
    module: ModuleState,
    body: BodyView,
    error: BinaryReaderError,
) -> bool {
    has_start(cfg, module, body) && (body.operators matches Ok(ops) && followed(
        cfg,
        env_of(module, body),
        start_of(cfg, module, body),
        ops,
    ) == Some(Err::<Seq<FrameView>, _>(error)))
}

/// A part of a module that could not be read gives the error that says which part it was, if
/// everything before it was in order.
pub proof fn law_unreadable_parts<Cfg: AnalysisConfig>(
    cfg: &Cfg,
    sections: Seq<Result<SectionView, BinaryReaderError>>,
    n: int,
    error: BinaryReaderError,
)
    requires
        0 <= n < sections.len(),
        analysis(cfg, sections.take(n)) matches Some(Ok(_)),
    ensures
        sections[n] == Err::<SectionView, _>(error) ==> stack_sizes(cfg, sections) == Some(
            Err::<Seq<u64>, _>(Error::ParsePayload(error)),
        ),
        sections[n] == Ok::<_, BinaryReaderError>(SectionView::TypeSection(Err(error)))
            ==> stack_sizes(cfg, sections) == Some(Err::<Seq<u64>, _>(Error::ParseTypes(error))),
        sections[n] == Ok::<_, BinaryReaderError>(SectionView::GlobalSection(Err(error)))
            ==> stack_sizes(cfg, sections) == Some(Err::<Seq<u64>, _>(Error::ParseGlobals(error))),
        sections[n] == Ok::<_, BinaryReaderError>(SectionView::FunctionSection(Err(error)))
            ==> stack_sizes(cfg, sections) == Some(
            Err::<Seq<u64>, _>(Error::ParseFunctions(error)),
        ),
        sections[n] matches Ok(SectionView::CodeSectionEntry(body)) && unreadable_locals(
            body,
            error,
        ) ==> stack_sizes(cfg, sections) == Some(Err::<Seq<u64>, _>(Error::LocalsReader(error))),
        sections[n] matches Ok(SectionView::CodeSectionEntry(body)) && unreadable_local(body, error)
            ==> stack_sizes(cfg, sections) == Some(Err::<Seq<u64>, _>(Error::ParseLocals(error))),
        sections[n] matches Ok(SectionView::CodeSectionEntry(body)) && unreadable_operators(
            cfg,
            analysis(cfg, sections.take(n))->0->Ok_0,
            body,
            error,
        ) ==> stack_sizes(cfg, sections) == Some(Err::<Seq<u64>, _>(Error::OperatorReader(error))),
        sections[n] matches Ok(SectionView::CodeSectionEntry(body)) && unreadable_operator(
            cfg,
            analysis(cfg, sections.take(n))->0->Ok_0,
            body,
            error,
        ) ==> stack_sizes(cfg, sections) == Some(Err::<Seq<u64>, _>(Error::VisitOperators(error))),
{
    assert(sections.take(n + 1).drop_last() =~= sections.take(n));
    if !(analysis(cfg, sections.take(n + 1)) matches Some(Ok(_))) {
        law_first_failure_decides(cfg, sections, n + 1);
    }
}

/// How the locals of a function come about: one after the other, up to the first one that cannot be
/// read, and as long as their number fits in 32 bits.
pub proof fn law_declared_locals(
    locals: Seq<Result<(u32, ValType), BinaryReaderError>>,
    local: Result<(u32, ValType), BinaryReaderError>,
)
    ensures
        declared_locals(Seq::empty()) matches Some(Ok(runs)) && runs.len() == 0,
        match declared_locals(locals) {
            Some(Ok(runs)) => match local {
                Ok((count, ty)) => if expanded(runs).len() + count <= u32::MAX {
                    declared_locals(locals.push(local)) == Some(
                        Ok::<_, BinaryReaderError>(runs.push((count, ty))),
                    )
                } else {
                    declared_locals(locals.push(local)) is None
                },
                Err(error) => declared_locals(locals.push(local)) == Some(
                    Err::<Seq<(u32, ValType)>, _>(error),
                ),
            },
            outcome => declared_locals(locals.push(local)) == outcome,
        },
{
    assert(locals.push(local).drop_last() =~= locals);
}

/// How the instructions of a function are followed: one after the other, up to the first one that
/// cannot be read or analysed.
pub proof fn law_followed<Cfg: AnalysisConfig>(
    cfg: &Cfg,
    env: Env,
    frames: Seq<FrameView>,
    ops: Seq<Result<Operator, BinaryReaderError>>,
    op: Result<Operator, BinaryReaderError>,
)
    ensures
        followed(cfg, env, frames, Seq::empty()) == Some(Ok::<_, BinaryReaderError>(frames)),
        match followed(cfg, env, frames, ops) {
            Some(Ok(before)) => match op {
                Ok(op1) => match step(cfg, env, before, op1) {
                    Some(after) => followed(cfg, env, frames, ops.push(op)) == Some(
                        Ok::<_, BinaryReaderError>(after),
                    ),
                    None => followed(cfg, env, frames, ops.push(op)) is None,
                },
                Err(error) => followed(cfg, env, frames, ops.push(op)) == Some(
                    Err::<Seq<FrameView>, _>(error),
                ),
            },
            outcome => followed(cfg, env, frames, ops.push(op)) == outcome,
        },
{
    assert(ops.push(op).drop_last() =~= ops);
}

/// The size of a function is the size of its activation, given all the locals that it declares, and
/// the largest size of the operands in the frame that its instructions leave. The body belongs to
/// the first function that has none yet, imported functions aside. What it refers to is what the
/// module has, and its own parameters and locals.
pub proof fn law_frame_size<Cfg: AnalysisConfig>(
    cfg: &Cfg,
    module: ModuleState,
    body: BodyView,
    runs: Seq<(u32, ValType)>,
    function_index: u32,
    ty: FuncTypeView,
    env: Env,
    start: Seq<FrameView>,
)
    requires
        body.locals is Ok,
        declared_locals(body.locals->Ok_0) == Some(Ok::<_, BinaryReaderError>(runs)),
        function_index == (module.imported_functions + module.function_stack_sizes.len()) as u32,
        function_index < module.functions.len(),
        module.functions[function_index as int] < module.types.len(),
        ty == module.types[module.functions[function_index as int] as int],
        env.types == module.types,
        env.functions == module.functions,
        env.globals == module.globals,
        env.locals == ty.params + expanded(runs),
        entry(cfg, env, function_index) == Some(start),
    ensures
        match body.operators {
            Ok(ops) => match followed(cfg, env, start, ops) {
                Some(Ok(frames)) => {
                    let size = cfg.activation_size(runs) + frames.last().operands.max_size;
                    if size <= u64::MAX {
                        frame_size(cfg, module, body) matches Some(Ok(s)) && s == size
                    } else {
                        frame_size(cfg, module, body) is None
                    }
                },
                Some(Err(error)) => frame_size(cfg, module, body) == Some(
                    Err::<u64, _>(Error::VisitOperators(error)),
                ),
                None => frame_size(cfg, module, body) is None,
            },
            Err(error) => frame_size(cfg, module, body) == Some(
                Err::<u64, _>(Error::OperatorReader(error)),
            ),
        },
{
    assert(module.next_env(runs) =~= env);
}

/// Locals that cannot be read come before everything else. Nothing comes of a body that has too
/// many locals, or no function that it could belong to, or parameters that are too large.
pub proof fn law_no_frame_size<Cfg: AnalysisConfig>(
    cfg: &Cfg,
    module: ModuleState,
    body: BodyView,
    function_index: u32,
)
    requires
        function_index == (module.imported_functions + module.function_stack_sizes.len()) as u32,
    ensures
        match body.locals {
            Err(error) => frame_size(cfg, module, body) == Some(
                Err::<u64, _>(Error::LocalsReader(error)),
            ),
            Ok(locals) => match declared_locals(locals) {
                Some(Err(error)) => frame_size(cfg, module, body) == Some(
                    Err::<u64, _>(Error::ParseLocals(error)),
                ),
                Some(Ok(_)) => {
                    &&& function_index >= module.functions.len() ==> frame_size(
                        cfg,
                        module,
                        body,
                    ) is None
                    &&& function_index < module.functions.len()
                        && module.functions[function_index as int] >= module.types.len()
                        ==> frame_size(cfg, module, body) is None
                    &&& (forall|env: Env|
                        env.types == module.types && env.functions == module.functions
                            ==> #[trigger] entry(cfg, env, function_index) is None) ==> frame_size(
                        cfg,
                        module,
                        body,
                    ) is None
                },
                None => frame_size(cfg, module, body) is None,
            },
        },
{
    if let Ok(locals) = body.locals {
        if let Some(Ok(runs)) = declared_locals(locals) {
            assert(entry(cfg, module.next_env(runs), function_index) == entry(
                cfg,
                module.next_env(runs),
                module.next_function(),
            ));
        }
    }
}

/// Nothing is known of a module of which nothing has been read.
pub proof fn law_analysis_of_nothing<Cfg: AnalysisConfig>(cfg: &Cfg)
    ensures
        analysis(cfg, Seq::empty()) matches Some(Ok(module)) && {
            &&& module.types.len() == 0
            &&& module.functions.len() == 0
            &&& module.imported_functions == 0
            &&& module.globals.len() == 0
            &&& module.imported_globals == 0
            &&& module.function_stack_sizes.len() == 0
        },
{
}

/// What a part of a module changes in what is known of the module, as long as everything before it
/// is in order: the types, functions or globals are replaced by those in the part, a body adds a
/// size at the end, and all else stays.
pub proof fn law_parts<Cfg: AnalysisConfig>(
    cfg: &Cfg,
    sections: Seq<Result<SectionView, BinaryReaderError>>,
    part: SectionView,
    module: ModuleState,
)
    requires
        analysis(cfg, sections) == Some(Ok::<_, Error>(module)),
    ensures
        ({
            let outcome = analysis(cfg, sections.push(Ok(part)));
            match part {
                SectionView::TypeSection(Ok(types)) => outcome matches Some(Ok(after)) && {
                    &&& after.types == types
                    &&& after.functions == module.functions
                    &&& after.imported_functions == module.imported_functions
                    &&& after.globals == module.globals
                    &&& after.imported_globals == module.imported_globals
                    &&& after.function_stack_sizes == module.function_stack_sizes
                },
                SectionView::FunctionSection(Ok(functions)) => outcome matches Some(Ok(after)) && {
                    &&& after.types == module.types
                    &&& after.functions.len() == module.imported_functions + functions.len()
                    &&& after.functions.skip(module.imported_functions as int) == functions
                    &&& after.functions.take(module.imported_functions as int)
                        == module.functions.take(module.imported_functions as int)
                    &&& after.imported_functions == module.imported_functions
                    &&& after.globals == module.globals
                    &&& after.imported_globals == module.imported_globals
                    &&& after.function_stack_sizes == module.function_stack_sizes
                },
                SectionView::GlobalSection(Ok(globals)) => outcome matches Some(Ok(after)) && {
                    &&& after.types == module.types
                    &&& after.functions == module.functions
                    &&& after.imported_functions == module.imported_functions
                    &&& after.globals.len() == module.imported_globals + globals.len()
                    &&& after.globals.skip(module.imported_globals as int) == globals
                    &&& after.globals.take(module.imported_globals as int) == module.globals.take(
                        module.imported_globals as int,
                    )
                    &&& after.imported_globals == module.imported_globals
                    &&& after.function_stack_sizes == module.function_stack_sizes
                },
                SectionView::CodeSectionEntry(body) => match frame_size(cfg, module, body) {
                    Some(Ok(size)) => outcome matches Some(Ok(after)) && {
                        &&& after.types == module.types
                        &&& after.functions == module.functions
                        &&& after.imported_functions == module.imported_functions
                        &&& after.globals == module.globals
                        &&& after.imported_globals == module.imported_globals
                        &&& after.function_stack_sizes == module.function_stack_sizes.push(size)
                    },
                    Some(Err(error)) => outcome == Some(Err::<ModuleState, _>(error)),
                    None => outcome is None,
                },
                SectionView::Other => outcome == Some(Ok::<_, Error>(module)),
                SectionView::ImportSection(Err(_)) => outcome == Some(Ok::<_, Error>(module)),
                _ => true,
            }
        }),
{
    let next: Result<SectionView, BinaryReaderError> = Ok(part);
    assert(sections.push(next).drop_last() =~= sections);
    law_imports_are_counted(cfg, sections);
    law_imports_are_counted(cfg, sections.push(next));
    if let Some(Ok(after)) = analysis(cfg, sections.push(next)) {
        match part {
            SectionView::FunctionSection(Ok(functions)) => {
                assert(after.functions.skip(module.imported_functions as int) =~= functions);
            },
            SectionView::GlobalSection(Ok(globals)) => {
                assert(after.globals.skip(module.imported_globals as int) =~= globals);
            },
            _ => {},
        }
    }
}

/// Imports are put before the functions and globals of the module, in the place of those that have
/// been imported before. The start of a module is an import of nothing.
pub proof fn law_imports_come_first<Cfg: AnalysisConfig>(
    cfg: &Cfg,
    sections: Seq<Result<SectionView, BinaryReaderError>>,
    imports: Seq<Import>,
    module: ModuleState,
)
    requires
        analysis(cfg, sections) == Some(Ok::<_, Error>(module)),
    ensures
        ({
            let part: Result<SectionView, BinaryReaderError> = Ok(
                SectionView::ImportSection(Ok(imports)),
            );
            analysis(cfg, sections.push(part)) matches Some(Ok(after)) && {
                &&& after.types == module.types
                &&& after.functions == imported_functions(imports) + module.functions.skip(
                    module.imported_functions as int,
                )
                &&& after.imported_functions == imported_functions(imports).len()
                &&& after.globals == imported_globals(imports) + module.globals.skip(
                    module.imported_globals as int,
                )
                &&& after.imported_globals == imported_globals(imports).len()
                &&& after.function_stack_sizes == module.function_stack_sizes
            }
        }),
        ({
            let part: Result<SectionView, BinaryReaderError> = Ok(SectionView::Version);
            analysis(cfg, sections.push(part)) matches Some(Ok(after)) && {
                &&& after.types == module.types
                &&& after.functions == module.functions.skip(module.imported_functions as int)
                &&& after.imported_functions == 0
                &&& after.globals == module.globals.skip(module.imported_globals as int)
                &&& after.imported_globals == 0
                &&& after.function_stack_sizes == module.function_stack_sizes
            }
        }),
{
    let part: Result<SectionView, BinaryReaderError> = Ok(SectionView::ImportSection(Ok(imports)));
    assert(sections.push(part).drop_last() =~= sections);
    let part: Result<SectionView, BinaryReaderError> = Ok(SectionView::Version);
    assert(sections.push(part).drop_last() =~= sections);
    let nothing = Seq::<Import>::empty();
    assert(imported_functions(nothing) + module.functions.skip(module.imported_functions as int)
        =~= module.functions.skip(module.imported_functions as int));
    assert(imported_globals(nothing) + module.globals.skip(module.imported_globals as int)
        =~= module.globals.skip(module.imported_globals as int));
}

/// The functions and globals among imports are all of them, in order.
pub proof fn law_imported(imports: Seq<Import>, import: Import)
    ensures
        imported_functions(Seq::empty()).len() == 0,
        imported_globals(Seq::empty()).len() == 0,
        imported_functions(imports.push(import)) == match import {
            Import::Function(type_index) => imported_functions(imports).push(type_index),
            _ => imported_functions(imports),
        },
        imported_globals(imports.push(import)) == match import {
            Import::Global(ty) => imported_globals(imports).push(ty),
            _ => imported_globals(imports),
        },
{
    assert(imports.push(import).drop_last() =~= imports);
}

/// The sizes of a module are those that are known once all of it has been read, and the error is
/// the one that stopped the reading.
pub proof fn law_stack_sizes<Cfg: AnalysisConfig>(
    cfg: &Cfg,
    sections: Seq<Result<SectionView, BinaryReaderError>>,
    result: Result<Module, Error>,
)
    ensures
        match analysis(cfg, sections) {
            Some(Ok(module)) => stack_sizes(cfg, sections) == Some(
                Ok::<_, Error>(module.function_stack_sizes),
            ),
            Some(Err(error)) => stack_sizes(cfg, sections) == Some(Err::<Seq<u64>, _>(error)),
            None => stack_sizes(cfg, sections) is None,
        },
        match result {
            Ok(module) => result_view(result) == Ok::<_, Error>(module.function_stack_sizes@),
            Err(error) => result_view(result) == Err::<Seq<u64>, _>(error),
        },
{
}

} // verus!
