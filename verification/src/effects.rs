//! What each instruction does to the control frames, stated instruction by instruction.
//!
//! The laws in this file speak of the contents of the frames before and after an instruction. They
//! leave nothing open: for every instruction and every state there is one that says what comes of
//! it.

use crate::config::AnalysisConfig;
use crate::model::{
    block_results, entry, entry_operands, exchange, pop_values, push_values, signature, step, steps,
    value_sizes, with_top, Env, FrameKind, FrameView,
};
use crate::operands::{lemma_total_take, total, OperandsView};
use crate::operator::{consuming, producing, Operator, Signature};
use crate::types::{BlockType, FuncTypeView, ValType};
use vstd::prelude::*;

verus! {

/// There is a frame to work on, its bookkeeping is right, and it has not been ended early.
pub open spec fn ready(frames: Seq<FrameView>) -> bool {
    &&& frames.len() > 0
    &&& !frames.last().complete
    &&& total(frames.last().operands.stack) <= frames.last().operands.max_size <= u64::MAX
}

/// An instruction takes the topmost `removed` operands off the innermost frame and puts values of
/// the types `added` on it. The frame takes note of its size then. All else stays as it is.
///
/// This comes to nothing only if there are not enough operands, or if their sizes add up to too
/// much.
pub open spec fn exchanges<Cfg: AnalysisConfig>(
    cfg: &Cfg,
    before: Seq<FrameView>,
    after: Option<Seq<FrameView>>,
    removed: nat,
    added: Seq<ValType>,
) -> bool {
    let top = before.last();
    let old_stack = top.operands.stack;
    let stack = old_stack.take(old_stack.len() - removed) + Seq::new(
        added.len(),
        |i: int| cfg.value_size(added[i]),
    );
    if removed <= old_stack.len() && total(stack) <= u64::MAX {
        &&& after is Some
        &&& after->0.len() == before.len()
        &&& forall|i: int| 0 <= i < before.len() - 1 ==> after->0[i] == before[i]
        &&& after->0.last().kind == top.kind
        &&& after->0.last().ty == top.ty
        &&& after->0.last().complete == top.complete
        &&& after->0.last().operands.stack == stack
        &&& after->0.last().operands.max_size == if total(stack) > top.operands.max_size {
            total(stack)
        } else {
            top.operands.max_size
        }
    } else {
        after is None
    }
}

/// Sizes that are put on a stack one after the other are all there in the end, unless they add up
/// to too much.
proof fn lemma_push_values(frames: Seq<FrameView>, sizes: Seq<u64>)
    requires
        ready(frames),
    ensures
        ({
            let operands = frames.last().operands;
            let stack = operands.stack + sizes;
            &&& total(stack) >= total(operands.stack)
            &&& push_values(frames, sizes) == if total(stack) <= u64::MAX {
                Some(
                    frames.drop_last().push(
                        FrameView {
                            operands: OperandsView {
                                stack,
                                max_size: if total(stack) > operands.max_size {
                                    total(stack)
                                } else {
                                    operands.max_size
                                },
                            },
                            ..frames.last()
                        },
                    ),
                )
            } else {
                None
            }
        }),
    decreases sizes.len(),
{
    let operands = frames.last().operands;
    if sizes.len() == 0 {
        assert(operands.stack + sizes =~= operands.stack);
        assert(frames.drop_last().push(frames.last()) =~= frames);
    } else {
        let first = sizes.drop_last();
        lemma_push_values(frames, first);
        let stack = operands.stack + first;
        assert(operands.stack + sizes =~= stack.push(sizes.last()));
        assert(stack.push(sizes.last()).drop_last() =~= stack);
        if let Some(before) = push_values(frames, first) {
            assert(before.drop_last() =~= frames.drop_last());
        }
    }
}

/// What an instruction with a signature does.
proof fn lemma_exchange<Cfg: AnalysisConfig>(
    cfg: &Cfg,
    frames: Seq<FrameView>,
    signature: Signature,
)
    requires
        ready(frames),
    ensures
        exchanges(
            cfg,
            frames,
            exchange(cfg, frames, signature),
            signature.pops,
            signature.pushes,
        ),
{
    let stack = frames.last().operands.stack;
    let sizes = value_sizes(cfg, signature.pushes);
    assert(sizes =~= Seq::new(
        signature.pushes.len(),
        |i: int| cfg.value_size(signature.pushes[i]),
    ));
    if signature.pops <= stack.len() {
        lemma_total_take(stack, stack.len() - signature.pops);
        let popped = pop_values(frames, signature.pops)->0;
        assert(popped.drop_last() =~= frames.drop_last());
        lemma_push_values(popped, sizes);
    }
}

/// Instructions that leave the sizes of the operands as they are: they do nothing to the operand
/// stack, or replace its top by a value of the same size.
#[verifier::spinoff_prover]
#[verifier::rlimit(100)]
pub proof fn law_keeping<Cfg: AnalysisConfig>(
    cfg: &Cfg,
    env: Env,
    frames: Seq<FrameView>,
    op: Operator,
)
    requires
        ready(frames),
        match op {
            Operator::Nop | Operator::LocalTee | Operator::MemoryGrow | Operator::I32Clz
            | Operator::I32Ctz | Operator::I32Popcnt | Operator::I64Clz | Operator::I64Ctz
            | Operator::I64Popcnt | Operator::F32Abs | Operator::F32Neg | Operator::F32Ceil
            | Operator::F32Floor | Operator::F32Trunc | Operator::F32Nearest | Operator::F32Sqrt
            | Operator::F64Abs | Operator::F64Neg | Operator::F64Ceil | Operator::F64Floor
            | Operator::F64Trunc | Operator::F64Nearest | Operator::F64Sqrt
            | Operator::I32Extend8S | Operator::I32Extend16S | Operator::I64Extend8S
            | Operator::I64Extend16S | Operator::I64Extend32S | Operator::DataDrop
            | Operator::ElemDrop | Operator::V128Not | Operator::I8x16Abs | Operator::I8x16Neg
            | Operator::I8x16Popcnt | Operator::I16x8ExtAddPairwiseI8x16S
            | Operator::I16x8ExtAddPairwiseI8x16U | Operator::I16x8Abs | Operator::I16x8Neg
            | Operator::I16x8ExtendLowI8x16S | Operator::I16x8ExtendHighI8x16S
            | Operator::I16x8ExtendLowI8x16U | Operator::I16x8ExtendHighI8x16U
            | Operator::I32x4ExtAddPairwiseI16x8S | Operator::I32x4ExtAddPairwiseI16x8U
            | Operator::I32x4Abs | Operator::I32x4Neg | Operator::I32x4ExtendLowI16x8S
            | Operator::I32x4ExtendHighI16x8S | Operator::I32x4ExtendLowI16x8U
            | Operator::I32x4ExtendHighI16x8U | Operator::I64x2Abs | Operator::I64x2Neg
            | Operator::I64x2ExtendLowI32x4S | Operator::I64x2ExtendHighI32x4S
            | Operator::I64x2ExtendLowI32x4U | Operator::I64x2ExtendHighI32x4U
            | Operator::F32x4Ceil | Operator::F32x4Floor | Operator::F32x4Trunc
            | Operator::F32x4Nearest | Operator::F32x4Abs | Operator::F32x4Neg
            | Operator::F32x4Sqrt | Operator::F64x2Ceil | Operator::F64x2Floor
            | Operator::F64x2Trunc | Operator::F64x2Nearest | Operator::F64x2Abs
            | Operator::F64x2Neg | Operator::F64x2Sqrt | Operator::I32x4TruncSatF32x4S
            | Operator::I32x4TruncSatF32x4U | Operator::F32x4ConvertI32x4S
            | Operator::F32x4ConvertI32x4U | Operator::I32x4TruncSatF64x2SZero
            | Operator::I32x4TruncSatF64x2UZero | Operator::F64x2ConvertLowI32x4S
            | Operator::F64x2ConvertLowI32x4U | Operator::F32x4DemoteF64x2Zero
            | Operator::F64x2PromoteLowF32x4 | Operator::I32x4RelaxedTruncSatF32x4S
            | Operator::I32x4RelaxedTruncSatF32x4U | Operator::I32x4RelaxedTruncSatF64x2SZero
            | Operator::I32x4RelaxedTruncSatF64x2UZero => {
                true
            },
            _ => false,
        },
    ensures
        exchanges(cfg, frames, step(cfg, env, frames, op), 0, Seq::empty()),
{
    assert(signature(env, op) == Some(consuming(0)));
    lemma_exchange(cfg, frames, consuming(0));
}

/// Instructions that leave one operand less, among them `drop`, `local.set`, `global.set` and
/// `br_if`.
#[verifier::spinoff_prover]
#[verifier::rlimit(100)]
pub proof fn law_taking_one<Cfg: AnalysisConfig>(
    cfg: &Cfg,
    env: Env,
    frames: Seq<FrameView>,
    op: Operator,
)
    requires
        ready(frames),
        match op {
            Operator::BrIf | Operator::Drop | Operator::LocalSet | Operator::GlobalSet
            | Operator::MemoryAtomicNotify | Operator::I8x16Shuffle | Operator::I8x16ReplaceLane
            | Operator::I16x8ReplaceLane | Operator::I32x4ReplaceLane | Operator::I64x2ReplaceLane
            | Operator::F32x4ReplaceLane | Operator::F64x2ReplaceLane | Operator::I8x16Swizzle
            | Operator::I8x16Eq | Operator::I8x16Ne | Operator::I8x16LtS | Operator::I8x16LtU
            | Operator::I8x16GtS | Operator::I8x16GtU | Operator::I8x16LeS | Operator::I8x16LeU
            | Operator::I8x16GeS | Operator::I8x16GeU | Operator::I16x8Eq | Operator::I16x8Ne
            | Operator::I16x8LtS | Operator::I16x8LtU | Operator::I16x8GtS | Operator::I16x8GtU
            | Operator::I16x8LeS | Operator::I16x8LeU | Operator::I16x8GeS | Operator::I16x8GeU
            | Operator::I32x4Eq | Operator::I32x4Ne | Operator::I32x4LtS | Operator::I32x4LtU
            | Operator::I32x4GtS | Operator::I32x4GtU | Operator::I32x4LeS | Operator::I32x4LeU
            | Operator::I32x4GeS | Operator::I32x4GeU | Operator::I64x2Eq | Operator::I64x2Ne
            | Operator::I64x2LtS | Operator::I64x2GtS | Operator::I64x2LeS | Operator::I64x2GeS
            | Operator::F32x4Eq | Operator::F32x4Ne | Operator::F32x4Lt | Operator::F32x4Gt
            | Operator::F32x4Le | Operator::F32x4Ge | Operator::F64x2Eq | Operator::F64x2Ne
            | Operator::F64x2Lt | Operator::F64x2Gt | Operator::F64x2Le | Operator::F64x2Ge
            | Operator::I8x16NarrowI16x8S | Operator::I8x16NarrowI16x8U
            | Operator::I16x8NarrowI32x4S | Operator::I16x8NarrowI32x4U
            | Operator::I8x16RelaxedSwizzle => {
                true
            },
            _ => false,
        },
    ensures
        exchanges(cfg, frames, step(cfg, env, frames, op), 1, Seq::empty()),
{
    assert(signature(env, op) == Some(consuming(1)));
    lemma_exchange(cfg, frames, consuming(1));
}

/// Instructions that leave two operands less, among them `select` and the stores.
#[verifier::spinoff_prover]
#[verifier::rlimit(100)]
pub proof fn law_taking_two<Cfg: AnalysisConfig>(
    cfg: &Cfg,
    env: Env,
    frames: Seq<FrameView>,
    op: Operator,
)
    requires
        ready(frames),
        match op {
            Operator::Select | Operator::TypedSelect | Operator::I32Store | Operator::I64Store
            | Operator::F32Store | Operator::F64Store | Operator::I32Store8 | Operator::I32Store16
            | Operator::I64Store8 | Operator::I64Store16 | Operator::I64Store32
            | Operator::TableSet | Operator::MemoryAtomicWait32 | Operator::MemoryAtomicWait64
            | Operator::I32AtomicStore | Operator::I64AtomicStore | Operator::I32AtomicStore8
            | Operator::I32AtomicStore16 | Operator::I64AtomicStore8 | Operator::I64AtomicStore16
            | Operator::I64AtomicStore32 | Operator::V128Store | Operator::V128Store8Lane
            | Operator::V128Store16Lane | Operator::V128Store32Lane | Operator::V128Store64Lane
            | Operator::V128Bitselect | Operator::F32x4Fma | Operator::F32x4Fms
            | Operator::F64x2Fma | Operator::F64x2Fms | Operator::I8x16LaneSelect
            | Operator::I16x8LaneSelect | Operator::I32x4LaneSelect | Operator::I64x2LaneSelect => {
                true
            },
            _ => false,
        },
    ensures
        exchanges(cfg, frames, step(cfg, env, frames, op), 2, Seq::empty()),
{
    assert(signature(env, op) == Some(consuming(2)));
    lemma_exchange(cfg, frames, consuming(2));
}

/// Instructions that leave three operands less: the bulk operations on memories and tables.
#[verifier::spinoff_prover]
#[verifier::rlimit(100)]
pub proof fn law_taking_three<Cfg: AnalysisConfig>(
    cfg: &Cfg,
    env: Env,
    frames: Seq<FrameView>,
    op: Operator,
)
    requires
        ready(frames),
        match op {
            Operator::MemoryInit | Operator::MemoryCopy | Operator::MemoryFill
            | Operator::TableInit | Operator::TableCopy | Operator::TableFill => {
                true
            },
            _ => false,
        },
    ensures
        exchanges(cfg, frames, step(cfg, env, frames, op), 3, Seq::empty()),
{
    assert(signature(env, op) == Some(consuming(3)));
    lemma_exchange(cfg, frames, consuming(3));
}

/// Instructions that put a value on the operand stack and take nothing off it, among them the
/// constants.
#[verifier::spinoff_prover]
#[verifier::rlimit(100)]
pub proof fn law_pushing<Cfg: AnalysisConfig>(
    cfg: &Cfg,
    env: Env,
    frames: Seq<FrameView>,
    op: Operator,
    ty: ValType,
)
    requires
        ready(frames),
        match op {
            Operator::MemorySize | Operator::I32Const | Operator::TableSize => {
                ty is I32
            },
            Operator::I64Const => {
                ty is I64
            },
            Operator::F32Const => {
                ty is F32
            },
            Operator::F64Const => {
                ty is F64
            },
            Operator::V128Const => {
                ty is V128
            },
            Operator::RefFunc => {
                ty is FuncRef
            },
            Operator::RefNull { val_type } => ty == val_type,
            _ => false,
        },
    ensures
        exchanges(cfg, frames, step(cfg, env, frames, op), 0, seq![ty]),
{
    assert(signature(env, op) == Some(producing(0, ty)));
    lemma_exchange(cfg, frames, producing(0, ty));
}

/// Instructions that replace one operand by a value of a given type, among them the tests, the
/// conversions and the loads.
#[verifier::spinoff_prover]
#[verifier::rlimit(100)]
pub proof fn law_replacing_one<Cfg: AnalysisConfig>(
    cfg: &Cfg,
    env: Env,
    frames: Seq<FrameView>,
    op: Operator,
    ty: ValType,
)
    requires
        ready(frames),
        match op {
            Operator::I32Load | Operator::I32Load8S | Operator::I32Load8U | Operator::I32Load16S
            | Operator::I32Load16U | Operator::RefIsNull | Operator::I32Eqz | Operator::I64Eqz
            | Operator::I32WrapI64 | Operator::I32TruncF32S | Operator::I32TruncF32U
            | Operator::I32TruncF64S | Operator::I32TruncF64U | Operator::I32ReinterpretF32
            | Operator::I32TruncSatF32S | Operator::I32TruncSatF32U | Operator::I32TruncSatF64S
            | Operator::I32TruncSatF64U | Operator::I32AtomicLoad | Operator::I32AtomicLoad8U
            | Operator::I32AtomicLoad16U | Operator::I8x16ExtractLaneS
            | Operator::I8x16ExtractLaneU | Operator::I16x8ExtractLaneS
            | Operator::I16x8ExtractLaneU | Operator::I32x4ExtractLane | Operator::V128AnyTrue
            | Operator::I8x16AllTrue | Operator::I8x16Bitmask | Operator::I16x8AllTrue
            | Operator::I16x8Bitmask | Operator::I32x4AllTrue | Operator::I32x4Bitmask
            | Operator::I64x2AllTrue | Operator::I64x2Bitmask => {
                ty is I32
            },
            Operator::I64Load | Operator::I64Load8S | Operator::I64Load8U | Operator::I64Load16S
            | Operator::I64Load16U | Operator::I64Load32S | Operator::I64Load32U
            | Operator::I64ExtendI32S | Operator::I64ExtendI32U | Operator::I64TruncF32S
            | Operator::I64TruncF32U | Operator::I64TruncF64S | Operator::I64TruncF64U
            | Operator::I64ReinterpretF64 | Operator::I64TruncSatF32S | Operator::I64TruncSatF32U
            | Operator::I64TruncSatF64S | Operator::I64TruncSatF64U | Operator::I64AtomicLoad
            | Operator::I64AtomicLoad8U | Operator::I64AtomicLoad16U | Operator::I64AtomicLoad32U
            | Operator::I64x2ExtractLane => {
                ty is I64
            },
            Operator::F32Load | Operator::F32ConvertI32S | Operator::F32ConvertI32U
            | Operator::F32ConvertI64S | Operator::F32ConvertI64U | Operator::F32DemoteF64
            | Operator::F32ReinterpretI32 | Operator::F32x4ExtractLane => {
                ty is F32
            },
            Operator::F64Load | Operator::F64ConvertI32S | Operator::F64ConvertI32U
            | Operator::F64ConvertI64S | Operator::F64ConvertI64U | Operator::F64PromoteF32
            | Operator::F64ReinterpretI64 | Operator::F64x2ExtractLane => {
                ty is F64
            },
            Operator::V128Load | Operator::V128Load8x8S | Operator::V128Load8x8U
            | Operator::V128Load16x4S | Operator::V128Load16x4U | Operator::V128Load32x2S
            | Operator::V128Load32x2U | Operator::V128Load8Splat | Operator::V128Load16Splat
            | Operator::V128Load32Splat | Operator::V128Load64Splat | Operator::V128Load32Zero
            | Operator::V128Load64Zero | Operator::I8x16Splat | Operator::I16x8Splat
            | Operator::I32x4Splat | Operator::I64x2Splat | Operator::F32x4Splat
            | Operator::F64x2Splat => {
                ty is V128
            },
            _ => false,
        },
    ensures
        exchanges(cfg, frames, step(cfg, env, frames, op), 1, seq![ty]),
{
    assert(signature(env, op) == Some(producing(1, ty)));
    lemma_exchange(cfg, frames, producing(1, ty));
}

/// Instructions that replace two operands by a value of a given type, among them the arithmetic and
/// the comparisons.
#[verifier::spinoff_prover]
#[verifier::rlimit(100)]
pub proof fn law_replacing_two<Cfg: AnalysisConfig>(
    cfg: &Cfg,
    env: Env,
    frames: Seq<FrameView>,
    op: Operator,
    ty: ValType,
)
    requires
        ready(frames),
        match op {
            Operator::I32Eq | Operator::I32Ne | Operator::I32LtS | Operator::I32LtU
            | Operator::I32GtS | Operator::I32GtU | Operator::I32LeS | Operator::I32LeU
            | Operator::I32GeS | Operator::I32GeU | Operator::I64Eq | Operator::I64Ne
            | Operator::I64LtS | Operator::I64LtU | Operator::I64GtS | Operator::I64GtU
            | Operator::I64LeS | Operator::I64LeU | Operator::I64GeS | Operator::I64GeU
            | Operator::F32Eq | Operator::F32Ne | Operator::F32Lt | Operator::F32Gt
            | Operator::F32Le | Operator::F32Ge | Operator::F64Eq | Operator::F64Ne
            | Operator::F64Lt | Operator::F64Gt | Operator::F64Le | Operator::F64Ge
            | Operator::I32Add | Operator::I32Sub | Operator::I32Mul | Operator::I32DivS
            | Operator::I32DivU | Operator::I32RemS | Operator::I32RemU | Operator::I32And
            | Operator::I32Or | Operator::I32Xor | Operator::I32Shl | Operator::I32ShrS
            | Operator::I32ShrU | Operator::I32Rotl | Operator::I32Rotr | Operator::TableGrow
            | Operator::I32AtomicRmwAdd | Operator::I32AtomicRmw8AddU
            | Operator::I32AtomicRmw16AddU | Operator::I32AtomicRmwSub
            | Operator::I32AtomicRmw8SubU | Operator::I32AtomicRmw16SubU
            | Operator::I32AtomicRmwAnd | Operator::I32AtomicRmw8AndU
            | Operator::I32AtomicRmw16AndU | Operator::I32AtomicRmwOr | Operator::I32AtomicRmw8OrU
            | Operator::I32AtomicRmw16OrU | Operator::I32AtomicRmwXor
            | Operator::I32AtomicRmw8XorU | Operator::I32AtomicRmw16XorU
            | Operator::I32AtomicRmwXchg | Operator::I32AtomicRmw8XchgU
            | Operator::I32AtomicRmw16XchgU => {
                ty is I32
            },
            Operator::I64Add | Operator::I64Sub | Operator::I64Mul | Operator::I64DivS
            | Operator::I64DivU | Operator::I64RemS | Operator::I64RemU | Operator::I64And
            | Operator::I64Or | Operator::I64Xor | Operator::I64Shl | Operator::I64ShrS
            | Operator::I64ShrU | Operator::I64Rotl | Operator::I64Rotr
            | Operator::I64AtomicRmwAdd | Operator::I64AtomicRmw8AddU
            | Operator::I64AtomicRmw16AddU | Operator::I64AtomicRmw32AddU
            | Operator::I64AtomicRmwSub | Operator::I64AtomicRmw8SubU
            | Operator::I64AtomicRmw16SubU | Operator::I64AtomicRmw32SubU
            | Operator::I64AtomicRmwAnd | Operator::I64AtomicRmw8AndU
            | Operator::I64AtomicRmw16AndU | Operator::I64AtomicRmw32AndU
            | Operator::I64AtomicRmwOr | Operator::I64AtomicRmw8OrU | Operator::I64AtomicRmw16OrU
            | Operator::I64AtomicRmw32OrU | Operator::I64AtomicRmwXor
            | Operator::I64AtomicRmw8XorU | Operator::I64AtomicRmw16XorU
            | Operator::I64AtomicRmw32XorU | Operator::I64AtomicRmwXchg
            | Operator::I64AtomicRmw8XchgU | Operator::I64AtomicRmw16XchgU
            | Operator::I64AtomicRmw32XchgU => {
                ty is I64
            },
            Operator::F32Add | Operator::F32Sub | Operator::F32Mul | Operator::F32Div
            | Operator::F32Min | Operator::F32Max | Operator::F32Copysign => {
                ty is F32
            },
            Operator::F64Add | Operator::F64Sub | Operator::F64Mul | Operator::F64Div
            | Operator::F64Min | Operator::F64Max | Operator::F64Copysign => {
                ty is F64
            },
            Operator::V128Load8Lane | Operator::V128Load16Lane | Operator::V128Load32Lane
            | Operator::V128Load64Lane | Operator::V128And | Operator::V128AndNot
            | Operator::V128Or | Operator::V128Xor | Operator::I8x16Shl | Operator::I8x16ShrS
            | Operator::I8x16ShrU | Operator::I8x16Add | Operator::I8x16AddSatS
            | Operator::I8x16AddSatU | Operator::I8x16Sub | Operator::I8x16SubSatS
            | Operator::I8x16SubSatU | Operator::I8x16MinS | Operator::I8x16MinU
            | Operator::I8x16MaxS | Operator::I8x16MaxU | Operator::I8x16RoundingAverageU
            | Operator::I16x8Q15MulrSatS | Operator::I16x8Shl | Operator::I16x8ShrS
            | Operator::I16x8ShrU | Operator::I16x8Add | Operator::I16x8AddSatS
            | Operator::I16x8AddSatU | Operator::I16x8Sub | Operator::I16x8SubSatS
            | Operator::I16x8SubSatU | Operator::I16x8Mul | Operator::I16x8MinS
            | Operator::I16x8MinU | Operator::I16x8MaxS | Operator::I16x8MaxU
            | Operator::I16x8RoundingAverageU | Operator::I16x8ExtMulLowI8x16S
            | Operator::I16x8ExtMulHighI8x16S | Operator::I16x8ExtMulLowI8x16U
            | Operator::I16x8ExtMulHighI8x16U | Operator::I32x4Shl | Operator::I32x4ShrS
            | Operator::I32x4ShrU | Operator::I32x4Add | Operator::I32x4Sub | Operator::I32x4Mul
            | Operator::I32x4MinS | Operator::I32x4MinU | Operator::I32x4MaxS
            | Operator::I32x4MaxU | Operator::I32x4DotI16x8S | Operator::I32x4ExtMulLowI16x8S
            | Operator::I32x4ExtMulHighI16x8S | Operator::I32x4ExtMulLowI16x8U
            | Operator::I32x4ExtMulHighI16x8U | Operator::I64x2Shl | Operator::I64x2ShrS
            | Operator::I64x2ShrU | Operator::I64x2Add | Operator::I64x2Sub | Operator::I64x2Mul
            | Operator::I64x2ExtMulLowI32x4S | Operator::I64x2ExtMulHighI32x4S
            | Operator::I64x2ExtMulLowI32x4U | Operator::I64x2ExtMulHighI32x4U
            | Operator::F32x4Add | Operator::F32x4Sub | Operator::F32x4Mul | Operator::F32x4Div
            | Operator::F32x4Min | Operator::F32x4Max | Operator::F32x4PMin | Operator::F32x4PMax
            | Operator::F64x2Add | Operator::F64x2Sub | Operator::F64x2Mul | Operator::F64x2Div
            | Operator::F64x2Min | Operator::F64x2Max | Operator::F64x2PMin | Operator::F64x2PMax
            | Operator::F32x4RelaxedMin | Operator::F32x4RelaxedMax | Operator::F64x2RelaxedMin
            | Operator::F64x2RelaxedMax => {
                ty is V128
            },
            _ => false,
        },
    ensures
        exchanges(cfg, frames, step(cfg, env, frames, op), 2, seq![ty]),
{
    assert(signature(env, op) == Some(producing(2, ty)));
    lemma_exchange(cfg, frames, producing(2, ty));
}

/// Instructions that replace three operands by a value of a given type: the atomic compare and
/// exchange.
#[verifier::spinoff_prover]
#[verifier::rlimit(100)]
pub proof fn law_replacing_three<Cfg: AnalysisConfig>(
    cfg: &Cfg,
    env: Env,
    frames: Seq<FrameView>,
    op: Operator,
    ty: ValType,
)
    requires
        ready(frames),
        match op {
            Operator::I32AtomicRmwCmpxchg | Operator::I32AtomicRmw8CmpxchgU
            | Operator::I32AtomicRmw16CmpxchgU => {
                ty is I32
            },
            Operator::I64AtomicRmwCmpxchg | Operator::I64AtomicRmw8CmpxchgU
            | Operator::I64AtomicRmw16CmpxchgU | Operator::I64AtomicRmw32CmpxchgU => {
                ty is I64
            },
            _ => false,
        },
    ensures
        exchanges(cfg, frames, step(cfg, env, frames, op), 3, seq![ty]),
{
    assert(signature(env, op) == Some(producing(3, ty)));
    lemma_exchange(cfg, frames, producing(3, ty));
}

/// A call takes the parameters of the function off the operand stack and puts its results on it,
/// whatever they are. There has to be such a function.
pub proof fn law_call<Cfg: AnalysisConfig>(
    cfg: &Cfg,
    env: Env,
    frames: Seq<FrameView>,
    function_index: u32,
    ty: FuncTypeView,
)
    requires
        ready(frames),
        function_index < env.functions.len(),
        env.functions[function_index as int] < env.types.len(),
        ty == env.types[env.functions[function_index as int] as int],
    ensures
        exchanges(
            cfg,
            frames,
            step(cfg, env, frames, Operator::Call { function_index }),
            ty.params.len(),
            ty.results,
        ),
{
    let op = Operator::Call { function_index };
    lemma_exchange(cfg, frames, signature(env, op)->0);
}

/// An indirect call takes an index off the operand stack besides the parameters.
pub proof fn law_call_indirect<Cfg: AnalysisConfig>(
    cfg: &Cfg,
    env: Env,
    frames: Seq<FrameView>,
    index: u32,
)
    requires
        ready(frames),
        index < env.types.len(),
    ensures
        exchanges(
            cfg,
            frames,
            step(cfg, env, frames, Operator::CallIndirect { index }),
            env.types[index as int].params.len() + 1,
            env.types[index as int].results,
        ),
{
    let op = Operator::CallIndirect { index };
    lemma_exchange(cfg, frames, signature(env, op)->0);
}

/// Reading a local puts a value of its type on the operand stack.
pub proof fn law_local_get<Cfg: AnalysisConfig>(
    cfg: &Cfg,
    env: Env,
    frames: Seq<FrameView>,
    local_index: u32,
)
    requires
        ready(frames),
        local_index < env.locals.len(),
    ensures
        exchanges(
            cfg,
            frames,
            step(cfg, env, frames, Operator::LocalGet { local_index }),
            0,
            seq![env.locals[local_index as int]],
        ),
{
    lemma_exchange(cfg, frames, producing(0, env.locals[local_index as int]));
}

/// Reading a global puts a value of its type on the operand stack.
pub proof fn law_global_get<Cfg: AnalysisConfig>(
    cfg: &Cfg,
    env: Env,
    frames: Seq<FrameView>,
    global_index: u32,
)
    requires
        ready(frames),
        global_index < env.globals.len(),
    ensures
        exchanges(
            cfg,
            frames,
            step(cfg, env, frames, Operator::GlobalGet { global_index }),
            0,
            seq![env.globals[global_index as int]],
        ),
{
    lemma_exchange(cfg, frames, producing(0, env.globals[global_index as int]));
}

/// Nothing comes of an instruction that refers to something that is not there, nor of one that the
/// analysis does not support.
pub proof fn law_unsupported<Cfg: AnalysisConfig>(
    cfg: &Cfg,
    env: Env,
    frames: Seq<FrameView>,
    op: Operator,
)
    requires
        ready(frames),
        match op {
            Operator::LocalGet { local_index } => local_index >= env.locals.len(),
            Operator::GlobalGet { global_index } => global_index >= env.globals.len(),
            Operator::Call { function_index } => function_index >= env.functions.len()
                || env.functions[function_index as int] >= env.types.len(),
            Operator::CallIndirect { index } => index >= env.types.len(),
            Operator::Try | Operator::Catch | Operator::Throw | Operator::Rethrow
            | Operator::Delegate | Operator::CatchAll | Operator::TableGet
            | Operator::AtomicFence => {
                true
            },
            _ => false,
        },
    ensures
        step(cfg, env, frames, op) is None,
{
}

/// Nothing comes of a block of a type that is not there.
pub proof fn law_block_of_unknown_type<Cfg: AnalysisConfig>(
    cfg: &Cfg,
    env: Env,
    frames: Seq<FrameView>,
    op: Operator,
)
    requires
        frames.len() > 0,
        match op {
            Operator::Block { ty } | Operator::Loop { ty } | Operator::If { ty } => {
                ty matches BlockType::FuncType(type_index) && type_index >= env.types.len()
            },
            _ => false,
        },
    ensures
        step(cfg, env, frames, op) is None,
{
}

/// The parameters of a block, if its type is there.
pub open spec fn has_params(env: Env, ty: BlockType, params: Seq<ValType>) -> bool {
    match ty {
        BlockType::Empty => params.len() == 0,
        BlockType::Type(_) => params.len() == 0,
        BlockType::FuncType(type_index) => type_index < env.types.len()
            && env.types[type_index as int].params == params,
    }
}

/// The results of a block, if its type is there.
pub open spec fn has_results(env: Env, ty: BlockType, results: Seq<ValType>) -> bool {
    match ty {
        BlockType::Empty => results.len() == 0,
        BlockType::Type(result) => results == seq![result],
        BlockType::FuncType(type_index) => type_index < env.types.len()
            && env.types[type_index as int].results == results,
    }
}

/// Every block type that is there has parameters and results: a type index those of the function
/// type, anything else no parameters, and at most one result.
pub proof fn law_block_types(env: Env, type_index: u32, ty: ValType)
    requires
        type_index < env.types.len(),
    ensures
        has_params(env, BlockType::Empty, Seq::empty()),
        has_results(env, BlockType::Empty, Seq::empty()),
        has_params(env, BlockType::Type(ty), Seq::empty()),
        has_results(env, BlockType::Type(ty), seq![ty]),
        has_params(env, BlockType::FuncType(type_index), env.types[type_index as int].params),
        has_results(env, BlockType::FuncType(type_index), env.types[type_index as int].results),
{
}

/// What a block starts out with.
proof fn lemma_entry_operands<Cfg: AnalysisConfig>(
    cfg: &Cfg,
    env: Env,
    ty: BlockType,
    params: Seq<ValType>,
)
    requires
        has_params(env, ty, params),
    ensures
        ({
            let sizes = Seq::new(params.len(), |i: int| cfg.value_size(params[i]));
            entry_operands(cfg, env, ty) == if total(sizes) <= u64::MAX {
                Some(OperandsView { stack: sizes, max_size: total(sizes) })
            } else {
                None
            }
        }),
{
    let sizes = Seq::new(params.len(), |i: int| cfg.value_size(params[i]));
    assert(sizes =~= value_sizes(cfg, params));
    if params.len() == 0 {
        assert(sizes =~= Seq::empty());
    }
}

/// A `block`, a `loop` or an `if` opens a frame of its kind. Its parameters, and the condition of
/// an `if`, leave the frame around it, which is otherwise as it was; the parameters are what is in
/// the new frame.
pub proof fn law_block_opens<Cfg: AnalysisConfig>(
    cfg: &Cfg,
    env: Env,
    frames: Seq<FrameView>,
    op: Operator,
    ty: BlockType,
    params: Seq<ValType>,
)
    requires
        ready(frames),
        op == (Operator::Block { ty }) || op == (Operator::Loop { ty }) || op == (Operator::If {
            ty,
        }),
        has_params(env, ty, params),
    ensures
        ({
            let after = step(cfg, env, frames, op);
            let top = frames.last();
            let n = top.operands.stack.len() as int;
            let sizes = Seq::new(params.len(), |i: int| cfg.value_size(params[i]));
            let taken = params.len() + if op is If {
                1int
            } else {
                0int
            };
            if taken <= n && total(sizes) <= u64::MAX {
                &&& after is Some
                &&& after->0.len() == frames.len() + 1
                &&& forall|i: int| 0 <= i < frames.len() - 1 ==> after->0[i] == frames[i]
                &&& after->0[frames.len() - 1].kind == top.kind
                &&& after->0[frames.len() - 1].ty == top.ty
                &&& !after->0[frames.len() - 1].complete
                &&& after->0[frames.len() - 1].operands.stack == top.operands.stack.take(n - taken)
                &&& after->0[frames.len() - 1].operands.max_size == top.operands.max_size
                &&& match op {
                    Operator::Block { .. } => after->0.last().kind is Block,
                    Operator::Loop { .. } => after->0.last().kind is Loop,
                    _ => after->0.last().kind is If,
                }
                &&& after->0.last().ty == ty
                &&& after->0.last().operands.stack == sizes
                &&& after->0.last().operands.max_size == total(sizes)
                &&& !after->0.last().complete
            } else {
                after is None
            }
        }),
{
    lemma_entry_operands(cfg, env, ty, params);
}

/// In code that no execution gets to, a frame is opened too. It is ended from the start, and takes
/// nothing from the frame around it.
pub proof fn law_unreached_block_opens<Cfg: AnalysisConfig>(
    cfg: &Cfg,
    env: Env,
    frames: Seq<FrameView>,
    op: Operator,
    ty: BlockType,
    params: Seq<ValType>,
)
    requires
        frames.len() > 0,
        frames.last().complete,
        op == (Operator::Block { ty }) || op == (Operator::Loop { ty }) || op == (Operator::If {
            ty,
        }),
        has_params(env, ty, params),
    ensures
        ({
            let after = step(cfg, env, frames, op);
            let sizes = Seq::new(params.len(), |i: int| cfg.value_size(params[i]));
            if total(sizes) <= u64::MAX {
                &&& after is Some
                &&& after->0.len() == frames.len() + 1
                &&& forall|i: int| 0 <= i < frames.len() ==> after->0[i] == frames[i]
                &&& match op {
                    Operator::Block { .. } => after->0.last().kind is Block,
                    Operator::Loop { .. } => after->0.last().kind is Loop,
                    _ => after->0.last().kind is If,
                }
                &&& after->0.last().ty == ty
                &&& after->0.last().operands.stack == sizes
                &&& after->0.last().operands.max_size == total(sizes)
                &&& after->0.last().complete
            } else {
                after is None
            }
        }),
{
    lemma_entry_operands(cfg, env, ty, params);
}

/// The second branch of an `if` starts as the first one did: with the parameters of the block, and
/// ended from the start exactly if the frame around it has been ended. Nothing of the first branch
/// is kept but how large it has become.
pub proof fn law_else_starts_over<Cfg: AnalysisConfig>(
    cfg: &Cfg,
    env: Env,
    frames: Seq<FrameView>,
    params: Seq<ValType>,
)
    requires
        frames.len() >= 2,
        frames.last().kind is If,
        has_params(env, frames.last().ty, params),
    ensures
        ({
            let after = step(cfg, env, frames, Operator::Else);
            let sizes = Seq::new(params.len(), |i: int| cfg.value_size(params[i]));
            if total(sizes) <= u64::MAX {
                &&& after is Some
                &&& after->0.len() == frames.len()
                &&& forall|i: int| 0 <= i < frames.len() - 1 ==> after->0[i] == frames[i]
                &&& after->0.last().kind == (FrameKind::Else {
                    if_max_depth: frames.last().operands.max_size,
                })
                &&& after->0.last().ty == frames.last().ty
                &&& after->0.last().operands.stack == sizes
                &&& after->0.last().operands.max_size == total(sizes)
                &&& after->0.last().complete == frames[frames.len() - 2].complete
            } else {
                after is None
            }
        }),
{
    lemma_entry_operands(cfg, env, frames.last().ty, params);
}

/// There is no second branch without a first one, and no third one.
pub proof fn law_else_needs_an_if<Cfg: AnalysisConfig>(
    cfg: &Cfg,
    env: Env,
    frames: Seq<FrameView>,
)
    requires
        frames.len() == 1 || (frames.len() >= 2 && !(frames.last().kind is If)),
    ensures
        step(cfg, env, frames, Operator::Else) is None,
{
}

/// The second branch of an `if` has nothing to do with what happened in the first one: if two
/// states have the same frames around the same `if`, then they have the same operands and reach
/// after the `else`.
pub proof fn law_else_forgets_the_first_branch<Cfg: AnalysisConfig>(
    cfg: &Cfg,
    env: Env,
    frames: Seq<FrameView>,
    others: Seq<FrameView>,
)
    requires
        frames.len() >= 2,
        frames.len() == others.len(),
        forall|i: int| 0 <= i < frames.len() - 1 ==> frames[i] == others[i],
        frames.last().kind is If,
        others.last().kind is If,
        frames.last().ty == others.last().ty,
    ensures
        ({
            let after = step(cfg, env, frames, Operator::Else);
            let other = step(cfg, env, others, Operator::Else);
            &&& after is Some <==> other is Some
            &&& after is Some ==> {
                &&& after->0.last().operands == other->0.last().operands
                &&& after->0.last().complete == other->0.last().complete
            }
        }),
{
}

/// The end of the function leaves its frame as it is.
pub proof fn law_end_of_the_function<Cfg: AnalysisConfig>(
    cfg: &Cfg,
    env: Env,
    frames: Seq<FrameView>,
)
    requires
        frames.len() == 1,
    ensures
        step(cfg, env, frames, Operator::End) == Some(frames),
{
}

/// The end of a block in code that no execution gets to takes the frame of the block away and does
/// nothing else.
pub proof fn law_end_of_an_unreached_block<Cfg: AnalysisConfig>(
    cfg: &Cfg,
    env: Env,
    frames: Seq<FrameView>,
)
    requires
        frames.len() >= 2,
        frames[frames.len() - 2].complete,
    ensures
        step(cfg, env, frames, Operator::End) matches Some(after) && {
            &&& after.len() == frames.len() - 1
            &&& forall|i: int| 0 <= i < after.len() ==> after[i] == frames[i]
        },
{
}

/// The end of a block takes its frame away. The frame around it goes on, however the block has
/// ended: it has the results of the block on top of its operands, and has taken note of how large
/// the two of them have been together, in either branch of an `if`.
pub proof fn law_end_of_a_block<Cfg: AnalysisConfig>(
    cfg: &Cfg,
    env: Env,
    frames: Seq<FrameView>,
    results: Seq<ValType>,
)
    requires
        frames.len() >= 2,
        ready(frames.drop_last()),
        has_results(env, frames.last().ty, results),
    ensures
        ({
            let after = step(cfg, env, frames, Operator::End);
            let parent = frames[frames.len() - 2];
            let inner = match frames.last().kind {
                FrameKind::Else { if_max_depth } => if if_max_depth
                    > frames.last().operands.max_size {
                    if_max_depth
                } else {
                    frames.last().operands.max_size
                },
                _ => frames.last().operands.max_size,
            };
            let together = total(parent.operands.stack) + inner;
            let stack = parent.operands.stack + Seq::new(
                results.len(),
                |i: int| cfg.value_size(results[i]),
            );
            if together <= u64::MAX && total(stack) <= u64::MAX {
                &&& after is Some
                &&& after->0.len() == frames.len() - 1
                &&& forall|i: int| 0 <= i < frames.len() - 2 ==> after->0[i] == frames[i]
                &&& after->0.last().kind == parent.kind
                &&& after->0.last().ty == parent.ty
                &&& !after->0.last().complete
                &&& after->0.last().operands.stack == stack
                &&& after->0.last().operands.max_size >= parent.operands.max_size
                &&& after->0.last().operands.max_size >= together
                &&& after->0.last().operands.max_size >= total(stack)
                &&& (after->0.last().operands.max_size == parent.operands.max_size
                    || after->0.last().operands.max_size == together
                    || after->0.last().operands.max_size == total(stack))
            } else {
                after is None
            }
        }),
{
    let outer = frames.drop_last();
    let parent = outer.last();
    assert(parent == frames[frames.len() - 2]);
    let sizes = Seq::new(results.len(), |i: int| cfg.value_size(results[i]));
    assert(sizes =~= value_sizes(cfg, results));
    match frames.last().ty {
        BlockType::Empty => {
            assert(results =~= Seq::empty());
        },
        _ => {},
    }
    assert(block_results(env, frames.last().ty) == Some(results));
    let together = parent.operands.size() + frames.last().max_depth();
    if together <= u64::MAX {
        let noted = with_top(outer, parent.with_operands(parent.operands.observed(together)));
        assert(noted.drop_last() =~= outer.drop_last());
        lemma_push_values(noted, sizes);
    }
}

/// Nothing comes of the end of a block of a type that is not there.
pub proof fn law_end_of_a_block_of_unknown_type<Cfg: AnalysisConfig>(
    cfg: &Cfg,
    env: Env,
    frames: Seq<FrameView>,
)
    requires
        frames.len() >= 2,
        !frames[frames.len() - 2].complete,
        frames.last().ty matches BlockType::FuncType(type_index) && type_index >= env.types.len(),
    ensures
        step(cfg, env, frames, Operator::End) is None,
{
}

/// The six unconditional control flow instructions end the innermost frame, of whatever kind it is,
/// and do nothing else.
pub proof fn law_ending_a_frame<Cfg: AnalysisConfig>(
    cfg: &Cfg,
    env: Env,
    frames: Seq<FrameView>,
    op: Operator,
)
    requires
        frames.len() > 0,
        op is Unreachable || op is Br || op is BrTable || op is Return || op is ReturnCall
            || op is ReturnCallIndirect,
    ensures
        step(cfg, env, frames, op) matches Some(after) && {
            &&& after.len() == frames.len()
            &&& forall|i: int| 0 <= i < frames.len() - 1 ==> after[i] == frames[i]
            &&& after.last().kind == frames.last().kind
            &&& after.last().ty == frames.last().ty
            &&& after.last().operands == frames.last().operands
            &&& after.last().complete
        },
{
}

/// In a frame that has been ended early, no instruction changes anything but those that open a
/// frame, close one or turn to the second branch of an `if`.
pub proof fn law_in_an_ended_frame<Cfg: AnalysisConfig>(
    cfg: &Cfg,
    env: Env,
    frames: Seq<FrameView>,
    op: Operator,
)
    requires
        frames.len() > 0,
        frames.last().complete,
        !(op is Block),
        !(op is Loop),
        !(op is If),
        !(op is Else),
        !(op is End),
    ensures
        step(cfg, env, frames, op) == Some(frames),
{
}

/// A conditional branch takes its condition off the operand stack. The rest of the block, of
/// whatever kind it is, is still executed if the condition does not hold.
pub proof fn law_br_if_goes_on<Cfg: AnalysisConfig>(cfg: &Cfg, env: Env, frames: Seq<FrameView>)
    requires
        ready(frames),
        frames.last().operands.stack.len() > 0,
    ensures
        step(cfg, env, frames, Operator::BrIf) matches Some(after) && {
            &&& after.len() == frames.len()
            &&& after.drop_last() == frames.drop_last()
            &&& !after.last().complete
            &&& after.last().kind == frames.last().kind
            &&& after.last().operands.stack == frames.last().operands.stack.drop_last()
            &&& after.last().operands.max_size == frames.last().operands.max_size
        },
{
    let stack = frames.last().operands.stack;
    law_taking_one(cfg, env, frames, Operator::BrIf);
    lemma_total_take(stack, stack.len() - 1);
    assert(stack.take(stack.len() - 1) + Seq::new(0, |i: int| cfg.value_size(ValType::I32))
        =~= stack.drop_last());
    let after = step(cfg, env, frames, Operator::BrIf)->0;
    assert(after.last().operands.stack =~= stack.drop_last());
    assert(after.drop_last() =~= frames.drop_last());
}

/// No instruction but the six unconditional control flow instructions ends a frame, and none makes
/// an ended frame go on: of all the frames that are there before and after another instruction,
/// none changes in this respect. The exception is the second branch of an `if`, which is ended
/// exactly if the frame around it is.
pub proof fn law_ended_frames_stay_as_they_are<Cfg: AnalysisConfig>(
    cfg: &Cfg,
    env: Env,
    frames: Seq<FrameView>,
    op: Operator,
    i: int,
)
    requires
        ready(frames) || (frames.len() > 0 && frames.last().complete),
        frames.len() >= 2 ==> total(frames[frames.len() - 2].operands.stack)
            <= frames[frames.len() - 2].operands.max_size <= u64::MAX,
        !(op is Unreachable),
        !(op is Br),
        !(op is BrTable),
        !(op is Return),
        !(op is ReturnCall),
        !(op is ReturnCallIndirect),
        step(cfg, env, frames, op) is Some,
        0 <= i < frames.len(),
        i < step(cfg, env, frames, op)->0.len(),
    ensures
        step(cfg, env, frames, op)->0[i].complete == if op is Else && i == frames.len() - 1 {
            frames[i - 1].complete
        } else {
            frames[i].complete
        },
{
    let after = step(cfg, env, frames, op)->0;
    assert(frames.last() == frames[frames.len() - 1]);
    match op {
        Operator::Block { .. } | Operator::Loop { .. } | Operator::If { .. } | Operator::Else => {},
        Operator::End => {
            if frames.len() >= 2 && !frames[frames.len() - 2].complete {
                let results = block_results(env, frames.last().ty)->0;
                assert(frames.drop_last().last() == frames[frames.len() - 2]);
                law_end_of_a_block(cfg, env, frames, results);
            }
        },
        _ => {
            if !frames.last().complete {
                lemma_exchange(cfg, frames, signature(env, op)->0);
            }
        },
    }
}

/// A block that is closed does not end the frame around it, whatever it was and however it ended.
pub proof fn law_end_keeps_the_frame_around_it_going<Cfg: AnalysisConfig>(
    cfg: &Cfg,
    env: Env,
    frames: Seq<FrameView>,
)
    requires
        frames.len() >= 2,
        total(frames[frames.len() - 2].operands.stack) <= frames[frames.len()
            - 2].operands.max_size <= u64::MAX,
        step(cfg, env, frames, Operator::End) is Some,
    ensures
        step(cfg, env, frames, Operator::End)->0.last().complete == frames[frames.len()
            - 2].complete,
{
    if !frames[frames.len() - 2].complete {
        assert(frames.drop_last().last() == frames[frames.len() - 2]);
        law_end_of_a_block(cfg, env, frames, block_results(env, frames.last().ty)->0);
    }
}

/// A `local.set`, a `global.set` or a `drop` behind an instruction that has put one value on the
/// operand stack restores it.
pub proof fn law_set_undoes_producing<Cfg: AnalysisConfig>(
    cfg: &Cfg,
    env: Env,
    frames: Seq<FrameView>,
    op: Operator,
    set: Operator,
)
    requires
        set is LocalSet || set is GlobalSet || set is Drop,
        step(cfg, env, frames, op) is Some,
        ready(step(cfg, env, frames, op)->0),
        step(cfg, env, frames, op)->0.last().operands.stack.len() > 0,
        step(cfg, env, frames, op)->0.last().operands.stack.drop_last()
            == frames.last().operands.stack,
    ensures
        step(cfg, env, step(cfg, env, frames, op)->0, set) matches Some(after)
            && after.last().operands.stack == frames.last().operands.stack,
{
    let middle = step(cfg, env, frames, op)->0;
    let stack = middle.last().operands.stack;
    law_taking_one(cfg, env, middle, set);
    lemma_total_take(stack, stack.len() - 1);
    assert(stack.take(stack.len() - 1) + Seq::new(0, |i: int| cfg.value_size(ValType::I32))
        =~= stack.drop_last());
    assert(step(cfg, env, middle, set)->0.last().operands.stack =~= stack.drop_last());
}

/// Doing nothing leads nowhere, and a single instruction leads to where it leads.
pub proof fn law_steps_of_one<Cfg: AnalysisConfig>(
    cfg: &Cfg,
    env: Env,
    frames: Seq<FrameView>,
    op: Operator,
)
    ensures
        steps(cfg, env, frames, Seq::empty()) == Some(frames),
        steps(cfg, env, frames, seq![op]) == step(cfg, env, frames, op),
{
    reveal_with_fuel(steps, 2);
    assert(seq![op].drop_last() =~= Seq::empty());
}

/// A function starts with a single frame, a plain block that holds the parameters.
pub proof fn law_entry<Cfg: AnalysisConfig>(
    cfg: &Cfg,
    env: Env,
    function_index: u32,
    params: Seq<ValType>,
)
    requires
        function_index < env.functions.len(),
        env.functions[function_index as int] < env.types.len(),
        params == env.types[env.functions[function_index as int] as int].params,
    ensures
        ({
            let sizes = Seq::new(params.len(), |i: int| cfg.value_size(params[i]));
            if total(sizes) <= u64::MAX {
                &&& entry(cfg, env, function_index) is Some
                &&& entry(cfg, env, function_index)->0.len() == 1
                &&& entry(cfg, env, function_index)->0[0].kind is Block
                &&& entry(cfg, env, function_index)->0[0].ty == BlockType::FuncType(
                    env.functions[function_index as int],
                )
                &&& entry(cfg, env, function_index)->0[0].operands.stack == sizes
                &&& entry(cfg, env, function_index)->0[0].operands.max_size == total(sizes)
                &&& !entry(cfg, env, function_index)->0[0].complete
            } else {
                entry(cfg, env, function_index) is None
            }
        }),
{
    lemma_entry_operands(
        cfg,
        env,
        BlockType::FuncType(env.functions[function_index as int]),
        params,
    );
}

/// There is no start of a function that is not there, or of one without a type.
pub proof fn law_entry_of_unknown_function<Cfg: AnalysisConfig>(
    cfg: &Cfg,
    env: Env,
    function_index: u32,
)
    requires
        function_index >= env.functions.len() || env.functions[function_index as int]
            >= env.types.len(),
    ensures
        entry(cfg, env, function_index) is None,
{
}

/// Which of the frames have been ended early, told by the instructions alone. A frame is ended by
/// an unconditional control flow instruction in it, up to its end or the second branch of an `if`,
/// and by being inside of one that is ended.
pub open spec fn ended(ops: Seq<Operator>) -> Seq<bool>
    decreases ops.len(),
{
    if ops.len() == 0 {
        seq![false]
    } else {
        let flags = ended(ops.drop_last());
        match ops.last() {
            Operator::Block { .. } | Operator::Loop { .. } | Operator::If { .. } => flags.push(
                flags.last(),
            ),
            Operator::Else => flags.update(flags.len() - 1, flags[flags.len() - 2]),
            Operator::End => if flags.len() == 1 {
                flags
            } else {
                flags.drop_last()
            },
            Operator::Unreachable | Operator::Br | Operator::BrTable | Operator::Return
            | Operator::ReturnCall | Operator::ReturnCallIndirect => flags.update(
                flags.len() - 1,
                true,
            ),
            _ => flags,
        }
    }
}

/// Every frame has its bookkeeping right.
spec fn sound(frames: Seq<FrameView>) -> bool {
    &&& frames.len() > 0
    &&& forall|i: int|
        0 <= i < frames.len() ==> total((#[trigger] frames[i]).operands.stack)
            <= frames[i].operands.max_size <= u64::MAX
}

/// An instruction keeps the bookkeeping right.
proof fn lemma_sound<Cfg: AnalysisConfig>(
    cfg: &Cfg,
    env: Env,
    frames: Seq<FrameView>,
    op: Operator,
)
    requires
        sound(frames),
        step(cfg, env, frames, op) is Some,
    ensures
        sound(step(cfg, env, frames, op)->0),
        step(cfg, env, frames, op)->0.len() == match op {
            Operator::Block { .. } | Operator::Loop { .. } | Operator::If { .. } => {
                frames.len() + 1
            },
            Operator::End => if frames.len() == 1 {
                1
            } else {
                (frames.len() - 1) as nat
            },
            _ => frames.len(),
        },
        op is Else ==> frames.len() >= 2,
{
    let after = step(cfg, env, frames, op)->0;
    let n = frames.len() as int;
    assert(frames.last() == frames[n - 1]);
    match op {
        Operator::Block { .. } | Operator::Loop { .. } | Operator::If { .. } => {
            let stack = frames.last().operands.stack;
            let left = after[n - 1].operands.stack;
            lemma_total_take(stack, left.len() as int);
            assert(stack.take(left.len() as int) =~= left);
            assert forall|i: int| 0 <= i < after.len() implies total(
                (#[trigger] after[i]).operands.stack,
            ) <= after[i].operands.max_size <= u64::MAX by {
                if i < n {
                    assert(frames[i].operands.max_size <= u64::MAX);
                }
            }
        },
        Operator::End => {
            if n >= 2 && !frames[n - 2].complete {
                let results = block_results(env, frames.last().ty)->0;
                assert(frames.drop_last().last() == frames[n - 2]);
                law_end_of_a_block(cfg, env, frames, results);
                assert(frames[n - 1].operands.max_size <= u64::MAX);
            }
            assert forall|i: int| 0 <= i < after.len() implies total(
                (#[trigger] after[i]).operands.stack,
            ) <= after[i].operands.max_size <= u64::MAX by {
                assert(frames[i].operands.max_size <= u64::MAX);
            }
        },
        Operator::Else | Operator::Unreachable | Operator::Br | Operator::BrTable
        | Operator::Return | Operator::ReturnCall | Operator::ReturnCallIndirect => {
            assert forall|i: int| 0 <= i < after.len() implies total(
                (#[trigger] after[i]).operands.stack,
            ) <= after[i].operands.max_size <= u64::MAX by {
                assert(frames[i].operands.max_size <= u64::MAX);
            }
        },
        _ => {
            if !frames.last().complete {
                lemma_exchange(cfg, frames, signature(env, op)->0);
                assert forall|i: int| 0 <= i < after.len() implies total(
                    (#[trigger] after[i]).operands.stack,
                ) <= after[i].operands.max_size <= u64::MAX by {
                    assert(frames[i].operands.max_size <= u64::MAX);
                }
            }
        },
    }
}

/// The analysis of a function takes a frame to be ended early exactly if the instructions so far
/// tell that it is. So it is the instructions alone that decide which code counts.
pub proof fn law_reach_is_told_by_the_instructions<Cfg: AnalysisConfig>(
    cfg: &Cfg,
    env: Env,
    function_index: u32,
    ops: Seq<Operator>,
)
    requires
        entry(cfg, env, function_index) is Some,
        steps(cfg, env, entry(cfg, env, function_index)->0, ops) is Some,
    ensures
        ({
            let after = steps(cfg, env, entry(cfg, env, function_index)->0, ops)->0;
            &&& after.len() == ended(ops).len()
            &&& forall|i: int|
                0 <= i < after.len() ==> (#[trigger] after[i]).complete == ended(ops)[i]
        }),
{
    lemma_reach(cfg, env, entry(cfg, env, function_index)->0, ops);
}

/// The same from any single frame that has not been ended.
proof fn lemma_reach<Cfg: AnalysisConfig>(
    cfg: &Cfg,
    env: Env,
    start: Seq<FrameView>,
    ops: Seq<Operator>,
)
    requires
        sound(start),
        start.len() == 1,
        !start[0].complete,
        steps(cfg, env, start, ops) is Some,
    ensures
        ({
            let after = steps(cfg, env, start, ops)->0;
            &&& sound(after)
            &&& after.len() == ended(ops).len()
            &&& forall|i: int|
                0 <= i < after.len() ==> (#[trigger] after[i]).complete == ended(ops)[i]
        }),
    decreases ops.len(),
{
    if ops.len() > 0 {
        let op = ops.last();
        lemma_reach(cfg, env, start, ops.drop_last());
        let before = steps(cfg, env, start, ops.drop_last())->0;
        let after = step(cfg, env, before, op)->0;
        let flags = ended(ops.drop_last());
        lemma_sound(cfg, env, before, op);
        assert(before.last() == before[before.len() - 1]);
        assert(flags.last() == flags[flags.len() - 1]);
        assert forall|i: int| 0 <= i < after.len() implies (#[trigger] after[i]).complete == ended(
            ops,
        )[i] by {
            if op is Unreachable || op is Br || op is BrTable || op is Return || op is ReturnCall
                || op is ReturnCallIndirect {
                law_ending_a_frame(cfg, env, before, op);
                if i < before.len() - 1 {
                    assert(after[i] == before[i]);
                }
            } else if i < before.len() {
                law_ended_frames_stay_as_they_are(cfg, env, before, op, i);
                assert(before[i].complete == flags[i]);
            }
        }
    }
}

/// In every state that the instructions of a function lead to, the innermost frame is ready for
/// another instruction, unless it has been ended early.
pub proof fn law_states_are_ready<Cfg: AnalysisConfig>(
    cfg: &Cfg,
    env: Env,
    function_index: u32,
    ops: Seq<Operator>,
)
    requires
        entry(cfg, env, function_index) is Some,
        steps(cfg, env, entry(cfg, env, function_index)->0, ops) is Some,
    ensures
        ({
            let after = steps(cfg, env, entry(cfg, env, function_index)->0, ops)->0;
            after.len() > 0 && (ready(after) <==> !after.last().complete)
        }),
{
    lemma_reach(cfg, env, entry(cfg, env, function_index)->0, ops);
    let after = steps(cfg, env, entry(cfg, env, function_index)->0, ops)->0;
    assert(after.last() == after[after.len() - 1]);
}

/// While the instructions stay inside of a block, nothing happens to the frames around it, and the
/// block stays of the type that it is.
proof fn lemma_inside<Cfg: AnalysisConfig>(
    cfg: &Cfg,
    env: Env,
    frames: Seq<FrameView>,
    ops: Seq<Operator>,
)
    requires
        sound(frames),
        frames.len() >= 2,
        steps(cfg, env, frames, ops) is Some,
        forall|i: int|
            0 <= i <= ops.len() ==> (#[trigger] steps(cfg, env, frames, ops.take(i)))->0.len()
                >= frames.len(),
    ensures
        ({
            let after = steps(cfg, env, frames, ops)->0;
            &&& sound(after)
            &&& after.len() >= frames.len()
            &&& forall|i: int| 0 <= i < frames.len() - 1 ==> after[i] == frames[i]
            &&& after[frames.len() - 1].ty == frames.last().ty
        }),
    decreases ops.len(),
{
    let n = frames.len() as int;
    if ops.len() > 0 {
        let first = ops.drop_last();
        let op = ops.last();
        assert forall|i: int| 0 <= i <= first.len() implies (#[trigger] steps(
            cfg,
            env,
            frames,
            first.take(i),
        ))->0.len() >= frames.len() by {
            assert(first.take(i) =~= ops.take(i));
        }
        lemma_inside(cfg, env, frames, first);
        let before = steps(cfg, env, frames, first)->0;
        let after = step(cfg, env, before, op)->0;
        lemma_sound(cfg, env, before, op);
        assert(ops.take(ops.len() as int) =~= ops);
        let m = before.len() as int;
        assert(before.last() == before[m - 1]);
        match op {
            Operator::Block { .. } | Operator::Loop { .. } | Operator::If { .. }
            | Operator::Else => {},
            Operator::Unreachable | Operator::Br | Operator::BrTable | Operator::Return
            | Operator::ReturnCall | Operator::ReturnCallIndirect => {
                law_ending_a_frame(cfg, env, before, op);
            },
            Operator::End => {
                if m >= 2 && !before[m - 2].complete {
                    assert(before.drop_last().last() == before[m - 2]);
                    law_end_of_a_block(
                        cfg,
                        env,
                        before,
                        block_results(env, before.last().ty)->0,
                    );
                }
            },
            _ => {
                if !before.last().complete {
                    lemma_exchange(cfg, before, signature(env, op)->0);
                }
            },
        }
    } else {
        assert(ops.take(0) =~= ops);
    }
}

/// A whole block, from its start to its end, does to the frame around it what its type says:
/// whatever is done inside of the block, its parameters make place for its results, and the frame
/// goes on.
pub proof fn law_whole_block<Cfg: AnalysisConfig>(
    cfg: &Cfg,
    env: Env,
    frames: Seq<FrameView>,
    op: Operator,
    ty: BlockType,
    params: Seq<ValType>,
    results: Seq<ValType>,
    body: Seq<Operator>,
)
    requires
        ready(frames),
        forall|i: int|
            0 <= i < frames.len() ==> total((#[trigger] frames[i]).operands.stack)
                <= frames[i].operands.max_size <= u64::MAX,
        op == (Operator::Block { ty }) || op == (Operator::Loop { ty }) || op == (Operator::If {
            ty,
        }),
        has_params(env, ty, params),
        has_results(env, ty, results),
        step(cfg, env, frames, op) is Some,
        ({
            let inside = step(cfg, env, frames, op)->0;
            &&& steps(cfg, env, inside, body) is Some
            &&& steps(cfg, env, inside, body)->0.len() == inside.len()
            &&& forall|i: int|
                0 <= i <= body.len() ==> (#[trigger] steps(cfg, env, inside, body.take(i)))->0.len()
                    >= inside.len()
            &&& step(cfg, env, steps(cfg, env, inside, body)->0, Operator::End) is Some
        }),
    ensures
        ({
            let inside = step(cfg, env, frames, op)->0;
            let after = step(cfg, env, steps(cfg, env, inside, body)->0, Operator::End)->0;
            let stack = frames.last().operands.stack;
            let taken = params.len() + if op is If {
                1int
            } else {
                0int
            };
            &&& after.len() == frames.len()
            &&& forall|i: int| 0 <= i < frames.len() - 1 ==> after[i] == frames[i]
            &&& after.last().kind == frames.last().kind
            &&& after.last().ty == frames.last().ty
            &&& !after.last().complete
            &&& taken <= stack.len()
            &&& after.last().operands.stack == stack.take(stack.len() - taken) + Seq::new(
                results.len(),
                |i: int| cfg.value_size(results[i]),
            )
            &&& after.last().operands.max_size >= frames.last().operands.max_size
        }),
{
    let inside = step(cfg, env, frames, op)->0;
    let n = frames.len() as int;
    law_block_opens(cfg, env, frames, op, ty, params);
    lemma_sound(cfg, env, frames, op);
    lemma_inside(cfg, env, inside, body);
    let last = steps(cfg, env, inside, body)->0;
    assert(last.last() == last[n]);
    assert(last.drop_last().last() == last[n - 1]);
    assert(inside[n - 1] == last[n - 1]);
    assert(inside.last() == inside[n]);
    law_end_of_a_block(cfg, env, last, results);
}

} // verus!
