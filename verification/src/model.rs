//! What the analysis of a function body computes.
//!
//! The state of the analysis is a stack of control frames. [`step`] says what an instruction does
//! to it; there is no next state where an instruction cannot be analysed.

use crate::config::AnalysisConfig;
use crate::operands::{initial_operands, larger, total, OperandsView};
use crate::operator::{fixed_signature, producing, Operator, Signature};
use crate::types::{BlockType, FuncTypeView, ValType};
use vstd::prelude::*;

verus! {

/// The part of a module that gives meaning to the immediates of the instructions in a function.
#[verifier::ext_equal]
pub struct Env {
    /// The types of the type section.
    pub types: Seq<FuncTypeView>,
    /// For each function the index of its type. Imported functions come first.
    pub functions: Seq<u32>,
    /// The types of the globals. Imported globals come first.
    pub globals: Seq<ValType>,
    /// The types of the locals. The parameters of the function come first.
    pub locals: Seq<ValType>,
}

impl Env {
    /// The type with this index, if there is one.
    pub open spec fn ty(self, type_index: u32) -> Option<FuncTypeView> {
        if type_index < self.types.len() {
            Some(self.types[type_index as int])
        } else {
            None
        }
    }

    /// The index of the type of a function, if there is such a function.
    pub open spec fn function_type_index(self, function_index: u32) -> Option<u32> {
        if function_index < self.functions.len() {
            Some(self.functions[function_index as int])
        } else {
            None
        }
    }
}

/// The construct that a control frame belongs to.
pub enum FrameKind {
    /// A `block`, or the body of the function.
    Block,
    /// The first branch of an `if`.
    If,
    /// The second branch of an `if`, and how large the first one has become.
    Else { if_max_depth: nat },
    /// A `loop`.
    Loop,
}

/// A control frame.
#[verifier::ext_equal]
pub struct FrameView {
    pub kind: FrameKind,
    pub ty: BlockType,
    pub operands: OperandsView,
    /// An unconditional control flow instruction has ended the frame, or one of the frames around
    /// it.
    pub complete: bool,
}

impl FrameView {
    /// The largest size that the frame has had, in either branch of an `if`.
    pub open spec fn max_depth(self) -> nat {
        match self.kind {
            FrameKind::Else { if_max_depth } => larger(if_max_depth, self.operands.max_size),
            _ => self.operands.max_size,
        }
    }

    /// The frame with other operands.
    pub open spec fn with_operands(self, operands: OperandsView) -> FrameView {
        FrameView { operands, ..self }
    }
}

/// The sizes of values of these types.
pub open spec fn value_sizes<Cfg: AnalysisConfig>(cfg: &Cfg, tys: Seq<ValType>) -> Seq<u64> {
    Seq::new(tys.len(), |i: int| cfg.value_size(tys[i]))
}

/// The frames after the innermost one has been replaced.
pub open spec fn with_top(frames: Seq<FrameView>, top: FrameView) -> Seq<FrameView> {
    frames.drop_last().push(top)
}

/// Puts an operand on the stack of the innermost frame, unless that makes it too large.
pub open spec fn push_value(frames: Seq<FrameView>, size: u64) -> Option<Seq<FrameView>> {
    let operands = frames.last().operands;
    if operands.size() + size <= u64::MAX {
        Some(with_top(frames, frames.last().with_operands(operands.pushed(size))))
    } else {
        None
    }
}

/// Puts operands on the stack of the innermost frame, one after the other.
pub open spec fn push_values(frames: Seq<FrameView>, sizes: Seq<u64>) -> Option<Seq<FrameView>>
    decreases sizes.len(),
{
    if sizes.len() == 0 {
        Some(frames)
    } else {
        match push_values(frames, sizes.drop_last()) {
            Some(frames) => push_value(frames, sizes.last()),
            None => None,
        }
    }
}

/// Takes operands off the stack of the innermost frame, if it has that many.
pub open spec fn pop_values(frames: Seq<FrameView>, count: nat) -> Option<Seq<FrameView>> {
    let operands = frames.last().operands;
    if count <= operands.stack.len() {
        Some(with_top(frames, frames.last().with_operands(operands.popped(count))))
    } else {
        None
    }
}

/// What an instruction with this signature does to the innermost frame.
pub open spec fn exchange<Cfg: AnalysisConfig>(
    cfg: &Cfg,
    frames: Seq<FrameView>,
    signature: Signature,
) -> Option<Seq<FrameView>> {
    match pop_values(frames, signature.pops) {
        Some(frames) => push_values(frames, value_sizes(cfg, signature.pushes)),
        None => None,
    }
}

/// The operands that a block starts out with: its parameters.
pub open spec fn entry_operands<Cfg: AnalysisConfig>(
    cfg: &Cfg,
    env: Env,
    ty: BlockType,
) -> Option<OperandsView> {
    match ty {
        BlockType::Empty | BlockType::Type(_) => Some(initial_operands(Seq::empty())),
        BlockType::FuncType(type_index) => match env.ty(type_index) {
            Some(ty) => {
                let sizes = value_sizes(cfg, ty.params);
                if total(sizes) <= u64::MAX {
                    Some(initial_operands(sizes))
                } else {
                    None
                }
            },
            None => None,
        },
    }
}

/// Opens a frame inside the innermost one, which gives away the parameters of the new frame and
/// `extra` operands more.
pub open spec fn enter<Cfg: AnalysisConfig>(
    cfg: &Cfg,
    env: Env,
    frames: Seq<FrameView>,
    kind: FrameKind,
    ty: BlockType,
    extra: nat,
) -> Option<Seq<FrameView>> {
    match entry_operands(cfg, env, ty) {
        Some(operands) => match pop_values(frames, operands.stack.len() + extra) {
            Some(outer) => Some(
                outer.push(FrameView { kind, ty, operands, complete: frames.last().complete }),
            ),
            None => None,
        },
        None => None,
    }
}

/// Opens a frame in code that no execution gets to. The frame around it has nothing to give away.
pub open spec fn enter_unreached<Cfg: AnalysisConfig>(
    cfg: &Cfg,
    env: Env,
    frames: Seq<FrameView>,
    kind: FrameKind,
    ty: BlockType,
) -> Option<Seq<FrameView>> {
    match entry_operands(cfg, env, ty) {
        Some(operands) => Some(frames.push(FrameView { kind, ty, operands, complete: true })),
        None => None,
    }
}

/// Turns from the first to the second branch of an `if`.
pub open spec fn turn_to_else<Cfg: AnalysisConfig>(
    cfg: &Cfg,
    env: Env,
    frames: Seq<FrameView>,
) -> Option<Seq<FrameView>> {
    let top = frames.last();
    if frames.len() >= 2 && top.kind is If {
        match entry_operands(cfg, env, top.ty) {
            Some(operands) => Some(
                with_top(
                    frames,
                    FrameView {
                        kind: FrameKind::Else { if_max_depth: top.operands.max_size },
                        ty: top.ty,
                        operands,
                        complete: frames[frames.len() - 2].complete,
                    },
                ),
            ),
            None => None,
        }
    } else {
        None
    }
}

/// The types of the values that a block leaves behind.
pub open spec fn block_results(env: Env, ty: BlockType) -> Option<Seq<ValType>> {
    match ty {
        BlockType::Empty => Some(Seq::empty()),
        BlockType::Type(ty) => Some(seq![ty]),
        BlockType::FuncType(type_index) => match env.ty(type_index) {
            Some(ty) => Some(ty.results),
            None => None,
        },
    }
}

/// Closes the innermost frame.
///
/// The frame around it takes note of how large the two of them have been, and gets the results of
/// the closed frame, unless no execution gets to the closed frame. The frame of the function itself
/// stays.
pub open spec fn leave<Cfg: AnalysisConfig>(
    cfg: &Cfg,
    env: Env,
    frames: Seq<FrameView>,
) -> Option<Seq<FrameView>> {
    if frames.len() < 2 {
        Some(frames)
    } else {
        let outer = frames.drop_last();
        let parent = outer.last();
        let depth = parent.operands.size() + frames.last().max_depth();
        if parent.complete {
            Some(outer)
        } else if depth <= u64::MAX {
            let noted = with_top(outer, parent.with_operands(parent.operands.observed(depth)));
            match block_results(env, frames.last().ty) {
                Some(results) => push_values(noted, value_sizes(cfg, results)),
                None => None,
            }
        } else {
            None
        }
    }
}

/// Ends the innermost frame early.
pub open spec fn branch(frames: Seq<FrameView>) -> Seq<FrameView> {
    with_top(frames, FrameView { complete: true, ..frames.last() })
}

/// The signature of an instruction that neither opens nor closes a frame nor ends one early, if the
/// analysis supports it and its immediates refer to parts of the module that exist.
pub open spec fn signature(env: Env, op: Operator) -> Option<Signature> {
    match op {
        Operator::LocalGet { local_index } => if local_index < env.locals.len() {
            Some(producing(0, env.locals[local_index as int]))
        } else {
            None
        },
        Operator::GlobalGet { global_index } => if global_index < env.globals.len() {
            Some(producing(0, env.globals[global_index as int]))
        } else {
            None
        },
        Operator::Call { function_index } => match env.function_type_index(function_index) {
            Some(type_index) => call_signature(env, type_index),
            None => None,
        },
        Operator::CallIndirect { index } => match call_signature(env, index) {
            // The function is found by an operand on top of its arguments.
            Some(signature) => Some(Signature { pops: signature.pops + 1, ..signature }),
            None => None,
        },
        _ => fixed_signature(op),
    }
}

/// The signature of a call of a function of this type.
pub open spec fn call_signature(env: Env, type_index: u32) -> Option<Signature> {
    match env.ty(type_index) {
        Some(ty) => Some(Signature { pops: ty.params.len(), pushes: ty.results }),
        None => None,
    }
}

/// What an instruction that no execution gets to does to the control frames: it opens and closes
/// them, and does nothing else.
pub open spec fn unreached_step<Cfg: AnalysisConfig>(
    cfg: &Cfg,
    env: Env,
    frames: Seq<FrameView>,
    op: Operator,
) -> Option<Seq<FrameView>> {
    match op {
        Operator::Block { ty } => enter_unreached(cfg, env, frames, FrameKind::Block, ty),
        Operator::Loop { ty } => enter_unreached(cfg, env, frames, FrameKind::Loop, ty),
        Operator::If { ty } => enter_unreached(cfg, env, frames, FrameKind::If, ty),
        Operator::Else => turn_to_else(cfg, env, frames),
        Operator::End => leave(cfg, env, frames),
        _ => Some(frames),
    }
}

/// What an instruction that an execution may get to does to the control frames.
pub open spec fn reached_step<Cfg: AnalysisConfig>(
    cfg: &Cfg,
    env: Env,
    frames: Seq<FrameView>,
    op: Operator,
) -> Option<Seq<FrameView>> {
    match op {
        Operator::Block { ty } => enter(cfg, env, frames, FrameKind::Block, ty, 0),
        Operator::Loop { ty } => enter(cfg, env, frames, FrameKind::Loop, ty, 0),
        Operator::If { ty } => enter(cfg, env, frames, FrameKind::If, ty, 1),
        Operator::Else => turn_to_else(cfg, env, frames),
        Operator::End => leave(cfg, env, frames),
        Operator::Unreachable | Operator::Br | Operator::BrTable | Operator::Return
        | Operator::ReturnCall | Operator::ReturnCallIndirect => Some(branch(frames)),
        _ => match signature(env, op) {
            Some(signature) => exchange(cfg, frames, signature),
            None => None,
        },
    }
}

/// What an instruction does to the control frames.
///
/// No execution gets to an instruction in a frame that has been ended early.
pub open spec fn step<Cfg: AnalysisConfig>(
    cfg: &Cfg,
    env: Env,
    frames: Seq<FrameView>,
    op: Operator,
) -> Option<Seq<FrameView>> {
    if frames.last().complete {
        unreached_step(cfg, env, frames, op)
    } else {
        reached_step(cfg, env, frames, op)
    }
}

/// The frames at the start of a function of this type.
pub open spec fn entry<Cfg: AnalysisConfig>(cfg: &Cfg, env: Env, function_index: u32) -> Option<
    Seq<FrameView>,
> {
    match env.function_type_index(function_index) {
        Some(type_index) => {
            let ty = BlockType::FuncType(type_index);
            match entry_operands(cfg, env, ty) {
                Some(operands) => Some(
                    seq![FrameView { kind: FrameKind::Block, ty, operands, complete: false }],
                ),
                None => None,
            }
        },
        None => None,
    }
}

/// The frames after a sequence of instructions.
pub open spec fn steps<Cfg: AnalysisConfig>(
    cfg: &Cfg,
    env: Env,
    frames: Seq<FrameView>,
    ops: Seq<Operator>,
) -> Option<Seq<FrameView>>
    decreases ops.len(),
{
    if ops.len() == 0 {
        Some(frames)
    } else {
        match steps(cfg, env, frames, ops.drop_last()) {
            Some(frames) => step(cfg, env, frames, ops.last()),
            None => None,
        }
    }
}

} // verus!
