//! The WebAssembly instructions, and what each of them does to the operand stack.

use crate::types::{BlockType, ValType};
use vstd::prelude::*;

verus! {

/// A WebAssembly instruction, with those of its immediates that the analysis reads.
#[derive(Clone, Copy, Debug, PartialEq, Eq, Structural)]
pub enum Operator {
    Unreachable,
    Nop,
    Block { ty: BlockType },
    Loop { ty: BlockType },
    If { ty: BlockType },
    Else,
    Try,
    Catch,
    Throw,
    Rethrow,
    End,
    Br,
    /// If the branch is taken, the operand stack only gets smaller: the operands that the target
    /// expects are the only ones that are kept. What matters is that the branch may not be taken,
    /// in which case nothing but the condition is gone.
    BrIf,
    BrTable,
    Return,
    Call { function_index: u32 },
    CallIndirect { index: u32 },
    ReturnCall,
    ReturnCallIndirect,
    Delegate,
    CatchAll,
    Drop,
    Select,
    TypedSelect,
    LocalGet { local_index: u32 },
    LocalSet,
    LocalTee,
    GlobalGet { global_index: u32 },
    GlobalSet,
    I32Load,
    I64Load,
    F32Load,
    F64Load,
    I32Load8S,
    I32Load8U,
    I32Load16S,
    I32Load16U,
    I64Load8S,
    I64Load8U,
    I64Load16S,
    I64Load16U,
    I64Load32S,
    I64Load32U,
    I32Store,
    I64Store,
    F32Store,
    F64Store,
    I32Store8,
    I32Store16,
    I64Store8,
    I64Store16,
    I64Store32,
    MemorySize,
    MemoryGrow,
    I32Const,
    I64Const,
    F32Const,
    F64Const,
    RefNull { val_type: ValType },
    RefIsNull,
    RefFunc,
    I32Eqz,
    I32Eq,
    I32Ne,
    I32LtS,
    I32LtU,
    I32GtS,
    I32GtU,
    I32LeS,
    I32LeU,
    I32GeS,
    I32GeU,
    I64Eqz,
    I64Eq,
    I64Ne,
    I64LtS,
    I64LtU,
    I64GtS,
    I64GtU,
    I64LeS,
    I64LeU,
    I64GeS,
    I64GeU,
    F32Eq,
    F32Ne,
    F32Lt,
    F32Gt,
    F32Le,
    F32Ge,
    F64Eq,
    F64Ne,
    F64Lt,
    F64Gt,
    F64Le,
    F64Ge,
    I32Clz,
    I32Ctz,
    I32Popcnt,
    I32Add,
    I32Sub,
    I32Mul,
    I32DivS,
    I32DivU,
    I32RemS,
    I32RemU,
    I32And,
    I32Or,
    I32Xor,
    I32Shl,
    I32ShrS,
    I32ShrU,
    I32Rotl,
    I32Rotr,
    I64Clz,
    I64Ctz,
    I64Popcnt,
    I64Add,
    I64Sub,
    I64Mul,
    I64DivS,
    I64DivU,
    I64RemS,
    I64RemU,
    I64And,
    I64Or,
    I64Xor,
    I64Shl,
    I64ShrS,
    I64ShrU,
    I64Rotl,
    I64Rotr,
    F32Abs,
    F32Neg,
    F32Ceil,
    F32Floor,
    F32Trunc,
    F32Nearest,
    F32Sqrt,
    F32Add,
    F32Sub,
    F32Mul,
    F32Div,
    F32Min,
    F32Max,
    F32Copysign,
    F64Abs,
    F64Neg,
    F64Ceil,
    F64Floor,
    F64Trunc,
    F64Nearest,
    F64Sqrt,
    F64Add,
    F64Sub,
    F64Mul,
    F64Div,
    F64Min,
    F64Max,
    F64Copysign,
    I32WrapI64,
    I32TruncF32S,
    I32TruncF32U,
    I32TruncF64S,
    I32TruncF64U,
    I64ExtendI32S,
    I64ExtendI32U,
    I64TruncF32S,
    I64TruncF32U,
    I64TruncF64S,
    I64TruncF64U,
    F32ConvertI32S,
    F32ConvertI32U,
    F32ConvertI64S,
    F32ConvertI64U,
    F32DemoteF64,
    F64ConvertI32S,
    F64ConvertI32U,
    F64ConvertI64S,
    F64ConvertI64U,
    F64PromoteF32,
    I32ReinterpretF32,
    I64ReinterpretF64,
    F32ReinterpretI32,
    F64ReinterpretI64,
    I32Extend8S,
    I32Extend16S,
    I64Extend8S,
    I64Extend16S,
    I64Extend32S,
    I32TruncSatF32S,
    I32TruncSatF32U,
    I32TruncSatF64S,
    I32TruncSatF64U,
    I64TruncSatF32S,
    I64TruncSatF32U,
    I64TruncSatF64S,
    I64TruncSatF64U,
    MemoryInit,
    DataDrop,
    MemoryCopy,
    MemoryFill,
    TableInit,
    ElemDrop,
    TableCopy,
    TableFill,
    TableGet,
    TableSet,
    TableGrow,
    TableSize,
    MemoryAtomicNotify,
    MemoryAtomicWait32,
    MemoryAtomicWait64,
    AtomicFence,
    I32AtomicLoad,
    I64AtomicLoad,
    I32AtomicLoad8U,
    I32AtomicLoad16U,
    I64AtomicLoad8U,
    I64AtomicLoad16U,
    I64AtomicLoad32U,
    I32AtomicStore,
    I64AtomicStore,
    I32AtomicStore8,
    I32AtomicStore16,
    I64AtomicStore8,
    I64AtomicStore16,
    I64AtomicStore32,
    I32AtomicRmwAdd,
    I64AtomicRmwAdd,
    I32AtomicRmw8AddU,
    I32AtomicRmw16AddU,
    I64AtomicRmw8AddU,
    I64AtomicRmw16AddU,
    I64AtomicRmw32AddU,
    I32AtomicRmwSub,
    I64AtomicRmwSub,
    I32AtomicRmw8SubU,
    I32AtomicRmw16SubU,
    I64AtomicRmw8SubU,
    I64AtomicRmw16SubU,
    I64AtomicRmw32SubU,
    I32AtomicRmwAnd,
    I64AtomicRmwAnd,
    I32AtomicRmw8AndU,
    I32AtomicRmw16AndU,
    I64AtomicRmw8AndU,
    I64AtomicRmw16AndU,
    I64AtomicRmw32AndU,
    I32AtomicRmwOr,
    I64AtomicRmwOr,
    I32AtomicRmw8OrU,
    I32AtomicRmw16OrU,
    I64AtomicRmw8OrU,
    I64AtomicRmw16OrU,
    I64AtomicRmw32OrU,
    I32AtomicRmwXor,
    I64AtomicRmwXor,
    I32AtomicRmw8XorU,
    I32AtomicRmw16XorU,
    I64AtomicRmw8XorU,
    I64AtomicRmw16XorU,
    I64AtomicRmw32XorU,
    I32AtomicRmwXchg,
    I64AtomicRmwXchg,
    I32AtomicRmw8XchgU,
    I32AtomicRmw16XchgU,
    I64AtomicRmw8XchgU,
    I64AtomicRmw16XchgU,
    I64AtomicRmw32XchgU,
    I32AtomicRmwCmpxchg,
    I64AtomicRmwCmpxchg,
    I32AtomicRmw8CmpxchgU,
    I32AtomicRmw16CmpxchgU,
    I64AtomicRmw8CmpxchgU,
    I64AtomicRmw16CmpxchgU,
    I64AtomicRmw32CmpxchgU,
    V128Load,
    V128Load8x8S,
    V128Load8x8U,
    V128Load16x4S,
    V128Load16x4U,
    V128Load32x2S,
    V128Load32x2U,
    V128Load8Splat,
    V128Load16Splat,
    V128Load32Splat,
    V128Load64Splat,
    V128Load32Zero,
    V128Load64Zero,
    V128Store,
    V128Load8Lane,
    V128Load16Lane,
    V128Load32Lane,
    V128Load64Lane,
    V128Store8Lane,
    V128Store16Lane,
    V128Store32Lane,
    V128Store64Lane,
    V128Const,
    I8x16Shuffle,
    I8x16ExtractLaneS,
    I8x16ExtractLaneU,
    I8x16ReplaceLane,
    I16x8ExtractLaneS,
    I16x8ExtractLaneU,
    I16x8ReplaceLane,
    I32x4ExtractLane,
    I32x4ReplaceLane,
    I64x2ExtractLane,
    I64x2ReplaceLane,
    F32x4ExtractLane,
    F32x4ReplaceLane,
    F64x2ExtractLane,
    F64x2ReplaceLane,
    I8x16Swizzle,
    I8x16Splat,
    I16x8Splat,
    I32x4Splat,
    I64x2Splat,
    F32x4Splat,
    F64x2Splat,
    I8x16Eq,
    I8x16Ne,
    I8x16LtS,
    I8x16LtU,
    I8x16GtS,
    I8x16GtU,
    I8x16LeS,
    I8x16LeU,
    I8x16GeS,
    I8x16GeU,
    I16x8Eq,
    I16x8Ne,
    I16x8LtS,
    I16x8LtU,
    I16x8GtS,
    I16x8GtU,
    I16x8LeS,
    I16x8LeU,
    I16x8GeS,
    I16x8GeU,
    I32x4Eq,
    I32x4Ne,
    I32x4LtS,
    I32x4LtU,
    I32x4GtS,
    I32x4GtU,
    I32x4LeS,
    I32x4LeU,
    I32x4GeS,
    I32x4GeU,
    I64x2Eq,
    I64x2Ne,
    I64x2LtS,
    I64x2GtS,
    I64x2LeS,
    I64x2GeS,
    F32x4Eq,
    F32x4Ne,
    F32x4Lt,
    F32x4Gt,
    F32x4Le,
    F32x4Ge,
    F64x2Eq,
    F64x2Ne,
    F64x2Lt,
    F64x2Gt,
    F64x2Le,
    F64x2Ge,
    V128Not,
    V128And,
    V128AndNot,
    V128Or,
    V128Xor,
    V128Bitselect,
    V128AnyTrue,
    I8x16Abs,
    I8x16Neg,
    I8x16Popcnt,
    I8x16AllTrue,
    I8x16Bitmask,
    I8x16NarrowI16x8S,
    I8x16NarrowI16x8U,
    I8x16Shl,
    I8x16ShrS,
    I8x16ShrU,
    I8x16Add,
    I8x16AddSatS,
    I8x16AddSatU,
    I8x16Sub,
    I8x16SubSatS,
    I8x16SubSatU,
    I8x16MinS,
    I8x16MinU,
    I8x16MaxS,
    I8x16MaxU,
    I8x16RoundingAverageU,
    I16x8ExtAddPairwiseI8x16S,
    I16x8ExtAddPairwiseI8x16U,
    I16x8Abs,
    I16x8Neg,
    I16x8Q15MulrSatS,
    I16x8AllTrue,
    I16x8Bitmask,
    I16x8NarrowI32x4S,
    I16x8NarrowI32x4U,
    I16x8ExtendLowI8x16S,
    I16x8ExtendHighI8x16S,
    I16x8ExtendLowI8x16U,
    I16x8ExtendHighI8x16U,
    I16x8Shl,
    I16x8ShrS,
    I16x8ShrU,
    I16x8Add,
    I16x8AddSatS,
    I16x8AddSatU,
    I16x8Sub,
    I16x8SubSatS,
    I16x8SubSatU,
    I16x8Mul,
    I16x8MinS,
    I16x8MinU,
    I16x8MaxS,
    I16x8MaxU,
    I16x8RoundingAverageU,
    I16x8ExtMulLowI8x16S,
    I16x8ExtMulHighI8x16S,
    I16x8ExtMulLowI8x16U,
    I16x8ExtMulHighI8x16U,
    I32x4ExtAddPairwiseI16x8S,
    I32x4ExtAddPairwiseI16x8U,
    I32x4Abs,
    I32x4Neg,
    I32x4AllTrue,
    I32x4Bitmask,
    I32x4ExtendLowI16x8S,
    I32x4ExtendHighI16x8S,
    I32x4ExtendLowI16x8U,
    I32x4ExtendHighI16x8U,
    I32x4Shl,
    I32x4ShrS,
    I32x4ShrU,
    I32x4Add,
    I32x4Sub,
    I32x4Mul,
    I32x4MinS,
    I32x4MinU,
    I32x4MaxS,
    I32x4MaxU,
    I32x4DotI16x8S,
    I32x4ExtMulLowI16x8S,
    I32x4ExtMulHighI16x8S,
    I32x4ExtMulLowI16x8U,
    I32x4ExtMulHighI16x8U,
    I64x2Abs,
    I64x2Neg,
    I64x2AllTrue,
    I64x2Bitmask,
    I64x2ExtendLowI32x4S,
    I64x2ExtendHighI32x4S,
    I64x2ExtendLowI32x4U,
    I64x2ExtendHighI32x4U,
    I64x2Shl,
    I64x2ShrS,
    I64x2ShrU,
    I64x2Add,
    I64x2Sub,
    I64x2Mul,
    I64x2ExtMulLowI32x4S,
    I64x2ExtMulHighI32x4S,
    I64x2ExtMulLowI32x4U,
    I64x2ExtMulHighI32x4U,
    F32x4Ceil,
    F32x4Floor,
    F32x4Trunc,
    F32x4Nearest,
    F32x4Abs,
    F32x4Neg,
    F32x4Sqrt,
    F32x4Add,
    F32x4Sub,
    F32x4Mul,
    F32x4Div,
    F32x4Min,
    F32x4Max,
    F32x4PMin,
    F32x4PMax,
    F64x2Ceil,
    F64x2Floor,
    F64x2Trunc,
    F64x2Nearest,
    F64x2Abs,
    F64x2Neg,
    F64x2Sqrt,
    F64x2Add,
    F64x2Sub,
    F64x2Mul,
    F64x2Div,
    F64x2Min,
    F64x2Max,
    F64x2PMin,
    F64x2PMax,
    I32x4TruncSatF32x4S,
    I32x4TruncSatF32x4U,
    F32x4ConvertI32x4S,
    F32x4ConvertI32x4U,
    I32x4TruncSatF64x2SZero,
    I32x4TruncSatF64x2UZero,
    F64x2ConvertLowI32x4S,
    F64x2ConvertLowI32x4U,
    F32x4DemoteF64x2Zero,
    F64x2PromoteLowF32x4,
    I8x16RelaxedSwizzle,
    I32x4RelaxedTruncSatF32x4S,
    I32x4RelaxedTruncSatF32x4U,
    I32x4RelaxedTruncSatF64x2SZero,
    I32x4RelaxedTruncSatF64x2UZero,
    F32x4Fma,
    F32x4Fms,
    F64x2Fma,
    F64x2Fms,
    I8x16LaneSelect,
    I16x8LaneSelect,
    I32x4LaneSelect,
    I64x2LaneSelect,
    F32x4RelaxedMin,
    F32x4RelaxedMax,
    F64x2RelaxedMin,
    F64x2RelaxedMax,
}

/// What an instruction does to the operand stack: it takes off `pops` operands and then puts
/// operands of the types `pushes` in their place.
#[verifier::ext_equal]
pub struct Signature {
    pub pops: nat,
    pub pushes: Seq<ValType>,
}

/// A signature with one result.
pub open spec fn producing(pops: nat, ty: ValType) -> Signature {
    Signature { pops, pushes: seq![ty] }
}

/// A signature without results.
pub open spec fn consuming(pops: nat) -> Signature {
    Signature { pops, pushes: Seq::empty() }
}

/// The signature of an instruction that has the same one everywhere.
///
/// There is none for instructions that open or close a block or end one early, whose
/// signature depends on the module that they stand in, and that the analysis does not support.
pub open spec fn fixed_signature(op: Operator) -> Option<Signature> {
    match op {
        Operator::Nop | Operator::LocalTee | Operator::MemoryGrow | Operator::I32Clz
        | Operator::I32Ctz | Operator::I32Popcnt | Operator::I64Clz | Operator::I64Ctz
        | Operator::I64Popcnt | Operator::F32Abs | Operator::F32Neg | Operator::F32Ceil
        | Operator::F32Floor | Operator::F32Trunc | Operator::F32Nearest | Operator::F32Sqrt
        | Operator::F64Abs | Operator::F64Neg | Operator::F64Ceil | Operator::F64Floor
        | Operator::F64Trunc | Operator::F64Nearest | Operator::F64Sqrt | Operator::I32Extend8S
        | Operator::I32Extend16S | Operator::I64Extend8S | Operator::I64Extend16S
        | Operator::I64Extend32S | Operator::DataDrop | Operator::ElemDrop | Operator::V128Not
        | Operator::I8x16Abs | Operator::I8x16Neg | Operator::I8x16Popcnt
        | Operator::I16x8ExtAddPairwiseI8x16S | Operator::I16x8ExtAddPairwiseI8x16U
        | Operator::I16x8Abs | Operator::I16x8Neg | Operator::I16x8ExtendLowI8x16S
        | Operator::I16x8ExtendHighI8x16S | Operator::I16x8ExtendLowI8x16U
        | Operator::I16x8ExtendHighI8x16U | Operator::I32x4ExtAddPairwiseI16x8S
        | Operator::I32x4ExtAddPairwiseI16x8U | Operator::I32x4Abs | Operator::I32x4Neg
        | Operator::I32x4ExtendLowI16x8S | Operator::I32x4ExtendHighI16x8S
        | Operator::I32x4ExtendLowI16x8U | Operator::I32x4ExtendHighI16x8U | Operator::I64x2Abs
        | Operator::I64x2Neg | Operator::I64x2ExtendLowI32x4S | Operator::I64x2ExtendHighI32x4S
        | Operator::I64x2ExtendLowI32x4U | Operator::I64x2ExtendHighI32x4U | Operator::F32x4Ceil
        | Operator::F32x4Floor | Operator::F32x4Trunc | Operator::F32x4Nearest
        | Operator::F32x4Abs | Operator::F32x4Neg | Operator::F32x4Sqrt | Operator::F64x2Ceil
        | Operator::F64x2Floor | Operator::F64x2Trunc | Operator::F64x2Nearest
        | Operator::F64x2Abs | Operator::F64x2Neg | Operator::F64x2Sqrt
        | Operator::I32x4TruncSatF32x4S | Operator::I32x4TruncSatF32x4U
        | Operator::F32x4ConvertI32x4S | Operator::F32x4ConvertI32x4U
        | Operator::I32x4TruncSatF64x2SZero | Operator::I32x4TruncSatF64x2UZero
        | Operator::F64x2ConvertLowI32x4S | Operator::F64x2ConvertLowI32x4U
        | Operator::F32x4DemoteF64x2Zero | Operator::F64x2PromoteLowF32x4
        | Operator::I32x4RelaxedTruncSatF32x4S | Operator::I32x4RelaxedTruncSatF32x4U
        | Operator::I32x4RelaxedTruncSatF64x2SZero | Operator::I32x4RelaxedTruncSatF64x2UZero => {
            Some(consuming(0))
        },
        Operator::BrIf | Operator::Drop | Operator::LocalSet | Operator::GlobalSet
        | Operator::MemoryAtomicNotify | Operator::I8x16Shuffle | Operator::I8x16ReplaceLane
        | Operator::I16x8ReplaceLane | Operator::I32x4ReplaceLane | Operator::I64x2ReplaceLane
        | Operator::F32x4ReplaceLane | Operator::F64x2ReplaceLane | Operator::I8x16Swizzle
        | Operator::I8x16Eq | Operator::I8x16Ne | Operator::I8x16LtS | Operator::I8x16LtU
        | Operator::I8x16GtS | Operator::I8x16GtU | Operator::I8x16LeS | Operator::I8x16LeU
        | Operator::I8x16GeS | Operator::I8x16GeU | Operator::I16x8Eq | Operator::I16x8Ne
        | Operator::I16x8LtS | Operator::I16x8LtU | Operator::I16x8GtS | Operator::I16x8GtU
        | Operator::I16x8LeS | Operator::I16x8LeU | Operator::I16x8GeS | Operator::I16x8GeU
        | Operator::I32x4Eq | Operator::I32x4Ne | Operator::I32x4LtS | Operator::I32x4LtU
        | Operator::I32x4GtS | Operator::I32x4GtU | Operator::I32x4LeS | Operator::I32x4LeU
        | Operator::I32x4GeS | Operator::I32x4GeU | Operator::I64x2Eq | Operator::I64x2Ne
        | Operator::I64x2LtS | Operator::I64x2GtS | Operator::I64x2LeS | Operator::I64x2GeS
        | Operator::F32x4Eq | Operator::F32x4Ne | Operator::F32x4Lt | Operator::F32x4Gt
        | Operator::F32x4Le | Operator::F32x4Ge | Operator::F64x2Eq | Operator::F64x2Ne
        | Operator::F64x2Lt | Operator::F64x2Gt | Operator::F64x2Le | Operator::F64x2Ge
        | Operator::I8x16NarrowI16x8S | Operator::I8x16NarrowI16x8U | Operator::I16x8NarrowI32x4S
        | Operator::I16x8NarrowI32x4U | Operator::I8x16RelaxedSwizzle => {
            Some(consuming(1))
        },
        Operator::Select | Operator::TypedSelect | Operator::I32Store | Operator::I64Store
        | Operator::F32Store | Operator::F64Store | Operator::I32Store8 | Operator::I32Store16
        | Operator::I64Store8 | Operator::I64Store16 | Operator::I64Store32 | Operator::TableSet
        | Operator::MemoryAtomicWait32 | Operator::MemoryAtomicWait64 | Operator::I32AtomicStore
        | Operator::I64AtomicStore | Operator::I32AtomicStore8 | Operator::I32AtomicStore16
        | Operator::I64AtomicStore8 | Operator::I64AtomicStore16 | Operator::I64AtomicStore32
        | Operator::V128Store | Operator::V128Store8Lane | Operator::V128Store16Lane
        | Operator::V128Store32Lane | Operator::V128Store64Lane | Operator::V128Bitselect
        | Operator::F32x4Fma | Operator::F32x4Fms | Operator::F64x2Fma | Operator::F64x2Fms
        | Operator::I8x16LaneSelect | Operator::I16x8LaneSelect | Operator::I32x4LaneSelect
        | Operator::I64x2LaneSelect => {
            Some(consuming(2))
        },
        Operator::MemoryInit | Operator::MemoryCopy | Operator::MemoryFill | Operator::TableInit
        | Operator::TableCopy | Operator::TableFill => {
            Some(consuming(3))
        },
        Operator::F32Const => {
            Some(producing(0, ValType::F32))
        },
        Operator::F64Const => {
            Some(producing(0, ValType::F64))
        },
        Operator::RefFunc => {
            Some(producing(0, ValType::FuncRef))
        },
        Operator::MemorySize | Operator::I32Const | Operator::TableSize => {
            Some(producing(0, ValType::I32))
        },
        Operator::I64Const => {
            Some(producing(0, ValType::I64))
        },
        Operator::V128Const => {
            Some(producing(0, ValType::V128))
        },
        Operator::F32Load | Operator::F32ConvertI32S | Operator::F32ConvertI32U
        | Operator::F32ConvertI64S | Operator::F32ConvertI64U | Operator::F32DemoteF64
        | Operator::F32ReinterpretI32 | Operator::F32x4ExtractLane => {
            Some(producing(1, ValType::F32))
        },
        Operator::F64Load | Operator::F64ConvertI32S | Operator::F64ConvertI32U
        | Operator::F64ConvertI64S | Operator::F64ConvertI64U | Operator::F64PromoteF32
        | Operator::F64ReinterpretI64 | Operator::F64x2ExtractLane => {
            Some(producing(1, ValType::F64))
        },
        Operator::I32Load | Operator::I32Load8S | Operator::I32Load8U | Operator::I32Load16S
        | Operator::I32Load16U | Operator::RefIsNull | Operator::I32Eqz | Operator::I64Eqz
        | Operator::I32WrapI64 | Operator::I32TruncF32S | Operator::I32TruncF32U
        | Operator::I32TruncF64S | Operator::I32TruncF64U | Operator::I32ReinterpretF32
        | Operator::I32TruncSatF32S | Operator::I32TruncSatF32U | Operator::I32TruncSatF64S
        | Operator::I32TruncSatF64U | Operator::I32AtomicLoad | Operator::I32AtomicLoad8U
        | Operator::I32AtomicLoad16U | Operator::I8x16ExtractLaneS | Operator::I8x16ExtractLaneU
        | Operator::I16x8ExtractLaneS | Operator::I16x8ExtractLaneU | Operator::I32x4ExtractLane
        | Operator::V128AnyTrue | Operator::I8x16AllTrue | Operator::I8x16Bitmask
        | Operator::I16x8AllTrue | Operator::I16x8Bitmask | Operator::I32x4AllTrue
        | Operator::I32x4Bitmask | Operator::I64x2AllTrue | Operator::I64x2Bitmask => {
            Some(producing(1, ValType::I32))
        },
        Operator::I64Load | Operator::I64Load8S | Operator::I64Load8U | Operator::I64Load16S
        | Operator::I64Load16U | Operator::I64Load32S | Operator::I64Load32U
        | Operator::I64ExtendI32S | Operator::I64ExtendI32U | Operator::I64TruncF32S
        | Operator::I64TruncF32U | Operator::I64TruncF64S | Operator::I64TruncF64U
        | Operator::I64ReinterpretF64 | Operator::I64TruncSatF32S | Operator::I64TruncSatF32U
        | Operator::I64TruncSatF64S | Operator::I64TruncSatF64U | Operator::I64AtomicLoad
        | Operator::I64AtomicLoad8U | Operator::I64AtomicLoad16U | Operator::I64AtomicLoad32U
        | Operator::I64x2ExtractLane => {
            Some(producing(1, ValType::I64))
        },
        Operator::V128Load | Operator::V128Load8x8S | Operator::V128Load8x8U
        | Operator::V128Load16x4S | Operator::V128Load16x4U | Operator::V128Load32x2S
        | Operator::V128Load32x2U | Operator::V128Load8Splat | Operator::V128Load16Splat
        | Operator::V128Load32Splat | Operator::V128Load64Splat | Operator::V128Load32Zero
        | Operator::V128Load64Zero | Operator::I8x16Splat | Operator::I16x8Splat
        | Operator::I32x4Splat | Operator::I64x2Splat | Operator::F32x4Splat
        | Operator::F64x2Splat => {
            Some(producing(1, ValType::V128))
        },
        Operator::F32Add | Operator::F32Sub | Operator::F32Mul | Operator::F32Div
        | Operator::F32Min | Operator::F32Max | Operator::F32Copysign => {
            Some(producing(2, ValType::F32))
        },
        Operator::F64Add | Operator::F64Sub | Operator::F64Mul | Operator::F64Div
        | Operator::F64Min | Operator::F64Max | Operator::F64Copysign => {
            Some(producing(2, ValType::F64))
        },
        Operator::I32Eq | Operator::I32Ne | Operator::I32LtS | Operator::I32LtU | Operator::I32GtS
        | Operator::I32GtU | Operator::I32LeS | Operator::I32LeU | Operator::I32GeS
        | Operator::I32GeU | Operator::I64Eq | Operator::I64Ne | Operator::I64LtS
        | Operator::I64LtU | Operator::I64GtS | Operator::I64GtU | Operator::I64LeS
        | Operator::I64LeU | Operator::I64GeS | Operator::I64GeU | Operator::F32Eq
        | Operator::F32Ne | Operator::F32Lt | Operator::F32Gt | Operator::F32Le | Operator::F32Ge
        | Operator::F64Eq | Operator::F64Ne | Operator::F64Lt | Operator::F64Gt | Operator::F64Le
        | Operator::F64Ge | Operator::I32Add | Operator::I32Sub | Operator::I32Mul
        | Operator::I32DivS | Operator::I32DivU | Operator::I32RemS | Operator::I32RemU
        | Operator::I32And | Operator::I32Or | Operator::I32Xor | Operator::I32Shl
        | Operator::I32ShrS | Operator::I32ShrU | Operator::I32Rotl | Operator::I32Rotr
        | Operator::TableGrow | Operator::I32AtomicRmwAdd | Operator::I32AtomicRmw8AddU
        | Operator::I32AtomicRmw16AddU | Operator::I32AtomicRmwSub | Operator::I32AtomicRmw8SubU
        | Operator::I32AtomicRmw16SubU | Operator::I32AtomicRmwAnd | Operator::I32AtomicRmw8AndU
        | Operator::I32AtomicRmw16AndU | Operator::I32AtomicRmwOr | Operator::I32AtomicRmw8OrU
        | Operator::I32AtomicRmw16OrU | Operator::I32AtomicRmwXor | Operator::I32AtomicRmw8XorU
        | Operator::I32AtomicRmw16XorU | Operator::I32AtomicRmwXchg | Operator::I32AtomicRmw8XchgU
        | Operator::I32AtomicRmw16XchgU => {
            Some(producing(2, ValType::I32))
        },
        Operator::I64Add | Operator::I64Sub | Operator::I64Mul | Operator::I64DivS
        | Operator::I64DivU | Operator::I64RemS | Operator::I64RemU | Operator::I64And
        | Operator::I64Or | Operator::I64Xor | Operator::I64Shl | Operator::I64ShrS
        | Operator::I64ShrU | Operator::I64Rotl | Operator::I64Rotr | Operator::I64AtomicRmwAdd
        | Operator::I64AtomicRmw8AddU | Operator::I64AtomicRmw16AddU
        | Operator::I64AtomicRmw32AddU | Operator::I64AtomicRmwSub | Operator::I64AtomicRmw8SubU
        | Operator::I64AtomicRmw16SubU | Operator::I64AtomicRmw32SubU | Operator::I64AtomicRmwAnd
        | Operator::I64AtomicRmw8AndU | Operator::I64AtomicRmw16AndU
        | Operator::I64AtomicRmw32AndU | Operator::I64AtomicRmwOr | Operator::I64AtomicRmw8OrU
        | Operator::I64AtomicRmw16OrU | Operator::I64AtomicRmw32OrU | Operator::I64AtomicRmwXor
        | Operator::I64AtomicRmw8XorU | Operator::I64AtomicRmw16XorU
        | Operator::I64AtomicRmw32XorU | Operator::I64AtomicRmwXchg | Operator::I64AtomicRmw8XchgU
        | Operator::I64AtomicRmw16XchgU | Operator::I64AtomicRmw32XchgU => {
            Some(producing(2, ValType::I64))
        },
        Operator::V128Load8Lane | Operator::V128Load16Lane | Operator::V128Load32Lane
        | Operator::V128Load64Lane | Operator::V128And | Operator::V128AndNot | Operator::V128Or
        | Operator::V128Xor | Operator::I8x16Shl | Operator::I8x16ShrS | Operator::I8x16ShrU
        | Operator::I8x16Add | Operator::I8x16AddSatS | Operator::I8x16AddSatU
        | Operator::I8x16Sub | Operator::I8x16SubSatS | Operator::I8x16SubSatU
        | Operator::I8x16MinS | Operator::I8x16MinU | Operator::I8x16MaxS | Operator::I8x16MaxU
        | Operator::I8x16RoundingAverageU | Operator::I16x8Q15MulrSatS | Operator::I16x8Shl
        | Operator::I16x8ShrS | Operator::I16x8ShrU | Operator::I16x8Add | Operator::I16x8AddSatS
        | Operator::I16x8AddSatU | Operator::I16x8Sub | Operator::I16x8SubSatS
        | Operator::I16x8SubSatU | Operator::I16x8Mul | Operator::I16x8MinS | Operator::I16x8MinU
        | Operator::I16x8MaxS | Operator::I16x8MaxU | Operator::I16x8RoundingAverageU
        | Operator::I16x8ExtMulLowI8x16S | Operator::I16x8ExtMulHighI8x16S
        | Operator::I16x8ExtMulLowI8x16U | Operator::I16x8ExtMulHighI8x16U | Operator::I32x4Shl
        | Operator::I32x4ShrS | Operator::I32x4ShrU | Operator::I32x4Add | Operator::I32x4Sub
        | Operator::I32x4Mul | Operator::I32x4MinS | Operator::I32x4MinU | Operator::I32x4MaxS
        | Operator::I32x4MaxU | Operator::I32x4DotI16x8S | Operator::I32x4ExtMulLowI16x8S
        | Operator::I32x4ExtMulHighI16x8S | Operator::I32x4ExtMulLowI16x8U
        | Operator::I32x4ExtMulHighI16x8U | Operator::I64x2Shl | Operator::I64x2ShrS
        | Operator::I64x2ShrU | Operator::I64x2Add | Operator::I64x2Sub | Operator::I64x2Mul
        | Operator::I64x2ExtMulLowI32x4S | Operator::I64x2ExtMulHighI32x4S
        | Operator::I64x2ExtMulLowI32x4U | Operator::I64x2ExtMulHighI32x4U | Operator::F32x4Add
        | Operator::F32x4Sub | Operator::F32x4Mul | Operator::F32x4Div | Operator::F32x4Min
        | Operator::F32x4Max | Operator::F32x4PMin | Operator::F32x4PMax | Operator::F64x2Add
        | Operator::F64x2Sub | Operator::F64x2Mul | Operator::F64x2Div | Operator::F64x2Min
        | Operator::F64x2Max | Operator::F64x2PMin | Operator::F64x2PMax
        | Operator::F32x4RelaxedMin | Operator::F32x4RelaxedMax | Operator::F64x2RelaxedMin
        | Operator::F64x2RelaxedMax => {
            Some(producing(2, ValType::V128))
        },
        Operator::I32AtomicRmwCmpxchg | Operator::I32AtomicRmw8CmpxchgU
        | Operator::I32AtomicRmw16CmpxchgU => {
            Some(producing(3, ValType::I32))
        },
        Operator::I64AtomicRmwCmpxchg | Operator::I64AtomicRmw8CmpxchgU
        | Operator::I64AtomicRmw16CmpxchgU | Operator::I64AtomicRmw32CmpxchgU => {
            Some(producing(3, ValType::I64))
        },
        Operator::RefNull { val_type } => Some(producing(0, val_type)),
        _ => None,
    }
}

/// The ways in which instructions with a fixed signature use the operand stack.
#[derive(Clone, Copy, Debug, PartialEq, Eq, Structural)]
pub enum Shape {
    /// The operands stay as they are, or one of them is replaced by another of the same type.
    Unop,
    /// One operand less.
    Pop,
    /// Two operands less.
    Pop2,
    /// Three operands less.
    Pop3,
    /// One operand more.
    Push(ValType),
    /// Two operands make a value of this type.
    Binop(ValType),
    /// One operand makes a truth value.
    Testop,
    /// Two operands make a truth value.
    Relop,
    /// One operand is converted to a value of this type.
    Cvtop(ValType),
    /// Two vectors are compared lane by lane: `[v128 v128] -> [v128]`.
    Vrelop,
    /// A vector is converted: `[v128] -> [v128]`.
    Vcvtop,
    /// One lane of a vector is taken out of it.
    ExtractLane(ValType),
    /// A value fills all lanes of a vector.
    Splat,
    /// One bit for each lane of a vector.
    Bitmask,
    /// A load from the memory: an address makes a value of this type.
    Load(ValType),
    /// An atomic read-modify-write access to the memory.
    AtomicRmw(ValType),
    /// An atomic compare and exchange in the memory.
    AtomicCmpxchg(ValType),
    /// An atomic load from the memory.
    AtomicLoad(ValType),
    /// A table is made larger: `[t i32] -> [i32]`.
    TableGrow,
}

impl Shape {
    /// The signature of the instructions of this shape.
    pub open spec fn signature(self) -> Signature {
        match self {
            Shape::Unop | Shape::Vcvtop => consuming(0),
            Shape::Pop | Shape::Vrelop => consuming(1),
            Shape::Pop2 => consuming(2),
            Shape::Pop3 => consuming(3),
            Shape::Push(ty) => producing(0, ty),
            Shape::Cvtop(ty) | Shape::ExtractLane(ty) | Shape::Load(ty) | Shape::AtomicLoad(ty) => {
                producing(1, ty)
            },
            Shape::Testop | Shape::Bitmask => producing(1, ValType::I32),
            Shape::Splat => producing(1, ValType::V128),
            Shape::Binop(ty) | Shape::AtomicRmw(ty) => producing(2, ty),
            Shape::Relop | Shape::TableGrow => producing(2, ValType::I32),
            Shape::AtomicCmpxchg(ty) => producing(3, ty),
        }
    }
}

impl Operator {
    /// The shape of an instruction that has a fixed signature.
    #[verifier::rlimit(40)]
    pub fn shape(self) -> (shape: Option<Shape>)
        ensures
            match shape {
                Some(shape) => fixed_signature(self) == Some(shape.signature()),
                None => fixed_signature(self) is None,
            },
    {
        match self {
            Operator::Nop | Operator::LocalTee | Operator::MemoryGrow | Operator::I32Clz
            | Operator::I32Ctz | Operator::I32Popcnt | Operator::I64Clz | Operator::I64Ctz
            | Operator::I64Popcnt | Operator::F32Abs | Operator::F32Neg | Operator::F32Ceil
            | Operator::F32Floor | Operator::F32Trunc | Operator::F32Nearest | Operator::F32Sqrt
            | Operator::F64Abs | Operator::F64Neg | Operator::F64Ceil | Operator::F64Floor
            | Operator::F64Trunc | Operator::F64Nearest | Operator::F64Sqrt
            | Operator::I32Extend8S | Operator::I32Extend16S | Operator::I64Extend8S
            | Operator::I64Extend16S | Operator::I64Extend32S | Operator::DataDrop
            | Operator::ElemDrop | Operator::V128Not | Operator::I8x16Abs | Operator::I8x16Neg
            | Operator::I8x16Popcnt | Operator::I16x8ExtAddPairwiseI8x16S
            | Operator::I16x8ExtAddPairwiseI8x16U | Operator::I16x8Abs | Operator::I16x8Neg
            | Operator::I32x4ExtAddPairwiseI16x8S | Operator::I32x4ExtAddPairwiseI16x8U
            | Operator::I32x4Abs | Operator::I32x4Neg | Operator::I64x2Abs | Operator::I64x2Neg
            | Operator::F32x4Ceil | Operator::F32x4Floor | Operator::F32x4Trunc
            | Operator::F32x4Nearest | Operator::F32x4Abs | Operator::F32x4Neg
            | Operator::F32x4Sqrt | Operator::F64x2Ceil | Operator::F64x2Floor
            | Operator::F64x2Trunc | Operator::F64x2Nearest | Operator::F64x2Abs
            | Operator::F64x2Neg | Operator::F64x2Sqrt => {
                Some(Shape::Unop)
            },
            Operator::BrIf | Operator::Drop | Operator::LocalSet | Operator::GlobalSet
            | Operator::MemoryAtomicNotify | Operator::I8x16Shuffle | Operator::I8x16ReplaceLane
            | Operator::I16x8ReplaceLane | Operator::I32x4ReplaceLane | Operator::I64x2ReplaceLane
            | Operator::F32x4ReplaceLane | Operator::F64x2ReplaceLane | Operator::I8x16Swizzle
            | Operator::I8x16NarrowI16x8S | Operator::I8x16NarrowI16x8U
            | Operator::I16x8NarrowI32x4S | Operator::I16x8NarrowI32x4U
            | Operator::I8x16RelaxedSwizzle => {
                Some(Shape::Pop)
            },
            Operator::Select | Operator::TypedSelect | Operator::I32Store | Operator::I64Store
            | Operator::F32Store | Operator::F64Store | Operator::I32Store8 | Operator::I32Store16
            | Operator::I64Store8 | Operator::I64Store16 | Operator::I64Store32
            | Operator::TableSet | Operator::MemoryAtomicWait32 | Operator::MemoryAtomicWait64
            | Operator::I32AtomicStore | Operator::I64AtomicStore | Operator::I32AtomicStore8
            | Operator::I32AtomicStore16 | Operator::I64AtomicStore8 | Operator::I64AtomicStore16
            | Operator::I64AtomicStore32 | Operator::V128Store | Operator::V128Store8Lane
            | Operator::V128Store16Lane | Operator::V128Store32Lane | Operator::V128Store64Lane
            | Operator::V128Bitselect | Operator::F32x4Fma | Operator::F32x4Fms
            | Operator::F64x2Fma | Operator::F64x2Fms | Operator::I8x16LaneSelect
            | Operator::I16x8LaneSelect | Operator::I32x4LaneSelect | Operator::I64x2LaneSelect => {
                Some(Shape::Pop2)
            },
            Operator::MemoryInit | Operator::MemoryCopy | Operator::MemoryFill
            | Operator::TableInit | Operator::TableCopy | Operator::TableFill => {
                Some(Shape::Pop3)
            },
            Operator::MemorySize | Operator::I32Const | Operator::TableSize => {
                Some(Shape::Push(ValType::I32))
            },
            Operator::I64Const => Some(Shape::Push(ValType::I64)),
            Operator::F32Const => Some(Shape::Push(ValType::F32)),
            Operator::F64Const => Some(Shape::Push(ValType::F64)),
            Operator::V128Const => Some(Shape::Push(ValType::V128)),
            Operator::RefFunc => Some(Shape::Push(ValType::FuncRef)),
            Operator::I32Add | Operator::I32Sub | Operator::I32Mul | Operator::I32DivS
            | Operator::I32DivU | Operator::I32RemS | Operator::I32RemU | Operator::I32And
            | Operator::I32Or | Operator::I32Xor | Operator::I32Shl | Operator::I32ShrS
            | Operator::I32ShrU | Operator::I32Rotl | Operator::I32Rotr => {
                Some(Shape::Binop(ValType::I32))
            },
            Operator::I64Add | Operator::I64Sub | Operator::I64Mul | Operator::I64DivS
            | Operator::I64DivU | Operator::I64RemS | Operator::I64RemU | Operator::I64And
            | Operator::I64Or | Operator::I64Xor | Operator::I64Shl | Operator::I64ShrS
            | Operator::I64ShrU | Operator::I64Rotl | Operator::I64Rotr => {
                Some(Shape::Binop(ValType::I64))
            },
            Operator::F32Add | Operator::F32Sub | Operator::F32Mul | Operator::F32Div
            | Operator::F32Min | Operator::F32Max | Operator::F32Copysign => {
                Some(Shape::Binop(ValType::F32))
            },
            Operator::F64Add | Operator::F64Sub | Operator::F64Mul | Operator::F64Div
            | Operator::F64Min | Operator::F64Max | Operator::F64Copysign => {
                Some(Shape::Binop(ValType::F64))
            },
            Operator::V128Load8Lane | Operator::V128Load16Lane | Operator::V128Load32Lane
            | Operator::V128Load64Lane | Operator::V128And | Operator::V128AndNot
            | Operator::V128Or | Operator::V128Xor | Operator::I8x16Shl | Operator::I8x16ShrS
            | Operator::I8x16ShrU | Operator::I8x16Add | Operator::I8x16AddSatS
            | Operator::I8x16AddSatU | Operator::I8x16Sub | Operator::I8x16SubSatS
            | Operator::I8x16SubSatU | Operator::I8x16MinS | Operator::I8x16MinU
            | Operator::I8x16MaxS | Operator::I8x16MaxU | Operator::I8x16RoundingAverageU
            | Operator::I16x8Q15MulrSatS | Operator::I16x8Shl | Operator::I16x8ShrS
            | Operator::I16x8ShrU | Operator::I16x8Add | Operator::I16x8AddSatS
            | Operator::I16x8AddSatU | Operator::I16x8Sub | Operator::I16x8SubSatS
            | Operator::I16x8SubSatU | Operator::I16x8Mul | Operator::I16x8MinS
            | Operator::I16x8MinU | Operator::I16x8MaxS | Operator::I16x8MaxU
            | Operator::I16x8RoundingAverageU | Operator::I16x8ExtMulLowI8x16S
            | Operator::I16x8ExtMulHighI8x16S | Operator::I16x8ExtMulLowI8x16U
            | Operator::I16x8ExtMulHighI8x16U | Operator::I32x4Shl | Operator::I32x4ShrS
            | Operator::I32x4ShrU | Operator::I32x4Add | Operator::I32x4Sub | Operator::I32x4Mul
            | Operator::I32x4MinS | Operator::I32x4MinU | Operator::I32x4MaxS
            | Operator::I32x4MaxU | Operator::I32x4DotI16x8S | Operator::I32x4ExtMulLowI16x8S
            | Operator::I32x4ExtMulHighI16x8S | Operator::I32x4ExtMulLowI16x8U
            | Operator::I32x4ExtMulHighI16x8U | Operator::I64x2Shl | Operator::I64x2ShrS
            | Operator::I64x2ShrU | Operator::I64x2Add | Operator::I64x2Sub | Operator::I64x2Mul
            | Operator::I64x2ExtMulLowI32x4S | Operator::I64x2ExtMulHighI32x4S
            | Operator::I64x2ExtMulLowI32x4U | Operator::I64x2ExtMulHighI32x4U
            | Operator::F32x4Add | Operator::F32x4Sub | Operator::F32x4Mul | Operator::F32x4Div
            | Operator::F32x4Min | Operator::F32x4Max | Operator::F32x4PMin | Operator::F32x4PMax
            | Operator::F64x2Add | Operator::F64x2Sub | Operator::F64x2Mul | Operator::F64x2Div
            | Operator::F64x2Min | Operator::F64x2Max | Operator::F64x2PMin | Operator::F64x2PMax
            | Operator::F32x4RelaxedMin | Operator::F32x4RelaxedMax | Operator::F64x2RelaxedMin
            | Operator::F64x2RelaxedMax => {
                Some(Shape::Binop(ValType::V128))
            },
            Operator::RefIsNull | Operator::I32Eqz | Operator::I64Eqz | Operator::V128AnyTrue
            | Operator::I8x16AllTrue | Operator::I16x8AllTrue | Operator::I32x4AllTrue
            | Operator::I64x2AllTrue => {
                Some(Shape::Testop)
            },
            Operator::I32Eq | Operator::I32Ne | Operator::I32LtS | Operator::I32LtU
            | Operator::I32GtS | Operator::I32GtU | Operator::I32LeS | Operator::I32LeU
            | Operator::I32GeS | Operator::I32GeU | Operator::I64Eq | Operator::I64Ne
            | Operator::I64LtS | Operator::I64LtU | Operator::I64GtS | Operator::I64GtU
            | Operator::I64LeS | Operator::I64LeU | Operator::I64GeS | Operator::I64GeU
            | Operator::F32Eq | Operator::F32Ne | Operator::F32Lt | Operator::F32Gt
            | Operator::F32Le | Operator::F32Ge | Operator::F64Eq | Operator::F64Ne
            | Operator::F64Lt | Operator::F64Gt | Operator::F64Le | Operator::F64Ge => {
                Some(Shape::Relop)
            },
            Operator::I32WrapI64 | Operator::I32TruncF32S | Operator::I32TruncF32U
            | Operator::I32TruncF64S | Operator::I32TruncF64U | Operator::I32ReinterpretF32
            | Operator::I32TruncSatF32S | Operator::I32TruncSatF32U | Operator::I32TruncSatF64S
            | Operator::I32TruncSatF64U => {
                Some(Shape::Cvtop(ValType::I32))
            },
            Operator::I64ExtendI32S | Operator::I64ExtendI32U | Operator::I64TruncF32S
            | Operator::I64TruncF32U | Operator::I64TruncF64S | Operator::I64TruncF64U
            | Operator::I64ReinterpretF64 | Operator::I64TruncSatF32S | Operator::I64TruncSatF32U
            | Operator::I64TruncSatF64S | Operator::I64TruncSatF64U => {
                Some(Shape::Cvtop(ValType::I64))
            },
            Operator::F32ConvertI32S | Operator::F32ConvertI32U | Operator::F32ConvertI64S
            | Operator::F32ConvertI64U | Operator::F32DemoteF64 | Operator::F32ReinterpretI32 => {
                Some(Shape::Cvtop(ValType::F32))
            },
            Operator::F64ConvertI32S | Operator::F64ConvertI32U | Operator::F64ConvertI64S
            | Operator::F64ConvertI64U | Operator::F64PromoteF32 | Operator::F64ReinterpretI64 => {
                Some(Shape::Cvtop(ValType::F64))
            },
            Operator::I8x16Eq | Operator::I8x16Ne | Operator::I8x16LtS | Operator::I8x16LtU
            | Operator::I8x16GtS | Operator::I8x16GtU | Operator::I8x16LeS | Operator::I8x16LeU
            | Operator::I8x16GeS | Operator::I8x16GeU | Operator::I16x8Eq | Operator::I16x8Ne
            | Operator::I16x8LtS | Operator::I16x8LtU | Operator::I16x8GtS | Operator::I16x8GtU
            | Operator::I16x8LeS | Operator::I16x8LeU | Operator::I16x8GeS | Operator::I16x8GeU
            | Operator::I32x4Eq | Operator::I32x4Ne | Operator::I32x4LtS | Operator::I32x4LtU
            | Operator::I32x4GtS | Operator::I32x4GtU | Operator::I32x4LeS | Operator::I32x4LeU
            | Operator::I32x4GeS | Operator::I32x4GeU | Operator::I64x2Eq | Operator::I64x2Ne
            | Operator::I64x2LtS | Operator::I64x2GtS | Operator::I64x2LeS | Operator::I64x2GeS
            | Operator::F32x4Eq | Operator::F32x4Ne | Operator::F32x4Lt | Operator::F32x4Gt
            | Operator::F32x4Le | Operator::F32x4Ge | Operator::F64x2Eq | Operator::F64x2Ne
            | Operator::F64x2Lt | Operator::F64x2Gt | Operator::F64x2Le | Operator::F64x2Ge => {
                Some(Shape::Vrelop)
            },
            Operator::I16x8ExtendLowI8x16S | Operator::I16x8ExtendHighI8x16S
            | Operator::I16x8ExtendLowI8x16U | Operator::I16x8ExtendHighI8x16U
            | Operator::I32x4ExtendLowI16x8S | Operator::I32x4ExtendHighI16x8S
            | Operator::I32x4ExtendLowI16x8U | Operator::I32x4ExtendHighI16x8U
            | Operator::I64x2ExtendLowI32x4S | Operator::I64x2ExtendHighI32x4S
            | Operator::I64x2ExtendLowI32x4U | Operator::I64x2ExtendHighI32x4U
            | Operator::I32x4TruncSatF32x4S | Operator::I32x4TruncSatF32x4U
            | Operator::F32x4ConvertI32x4S | Operator::F32x4ConvertI32x4U
            | Operator::I32x4TruncSatF64x2SZero | Operator::I32x4TruncSatF64x2UZero
            | Operator::F64x2ConvertLowI32x4S | Operator::F64x2ConvertLowI32x4U
            | Operator::F32x4DemoteF64x2Zero | Operator::F64x2PromoteLowF32x4
            | Operator::I32x4RelaxedTruncSatF32x4S | Operator::I32x4RelaxedTruncSatF32x4U
            | Operator::I32x4RelaxedTruncSatF64x2SZero | Operator::I32x4RelaxedTruncSatF64x2UZero => {
                Some(Shape::Vcvtop)
            },
            Operator::I8x16ExtractLaneS | Operator::I8x16ExtractLaneU
            | Operator::I16x8ExtractLaneS | Operator::I16x8ExtractLaneU
            | Operator::I32x4ExtractLane => {
                Some(Shape::ExtractLane(ValType::I32))
            },
            Operator::I64x2ExtractLane => Some(Shape::ExtractLane(ValType::I64)),
            Operator::F32x4ExtractLane => Some(Shape::ExtractLane(ValType::F32)),
            Operator::F64x2ExtractLane => Some(Shape::ExtractLane(ValType::F64)),
            Operator::I8x16Splat | Operator::I16x8Splat | Operator::I32x4Splat
            | Operator::I64x2Splat | Operator::F32x4Splat | Operator::F64x2Splat => {
                Some(Shape::Splat)
            },
            Operator::I8x16Bitmask | Operator::I16x8Bitmask | Operator::I32x4Bitmask
            | Operator::I64x2Bitmask => {
                Some(Shape::Bitmask)
            },
            Operator::I32Load | Operator::I32Load8S | Operator::I32Load8U | Operator::I32Load16S
            | Operator::I32Load16U => {
                Some(Shape::Load(ValType::I32))
            },
            Operator::I64Load | Operator::I64Load8S | Operator::I64Load8U | Operator::I64Load16S
            | Operator::I64Load16U | Operator::I64Load32S | Operator::I64Load32U => {
                Some(Shape::Load(ValType::I64))
            },
            Operator::F32Load => Some(Shape::Load(ValType::F32)),
            Operator::F64Load => Some(Shape::Load(ValType::F64)),
            Operator::V128Load | Operator::V128Load8x8S | Operator::V128Load8x8U
            | Operator::V128Load16x4S | Operator::V128Load16x4U | Operator::V128Load32x2S
            | Operator::V128Load32x2U | Operator::V128Load8Splat | Operator::V128Load16Splat
            | Operator::V128Load32Splat | Operator::V128Load64Splat | Operator::V128Load32Zero
            | Operator::V128Load64Zero => {
                Some(Shape::Load(ValType::V128))
            },
            Operator::I32AtomicRmwAdd | Operator::I32AtomicRmw8AddU | Operator::I32AtomicRmw16AddU
            | Operator::I32AtomicRmwSub | Operator::I32AtomicRmw8SubU
            | Operator::I32AtomicRmw16SubU | Operator::I32AtomicRmwAnd
            | Operator::I32AtomicRmw8AndU | Operator::I32AtomicRmw16AndU
            | Operator::I32AtomicRmwOr | Operator::I32AtomicRmw8OrU | Operator::I32AtomicRmw16OrU
            | Operator::I32AtomicRmwXor | Operator::I32AtomicRmw8XorU
            | Operator::I32AtomicRmw16XorU | Operator::I32AtomicRmwXchg
            | Operator::I32AtomicRmw8XchgU | Operator::I32AtomicRmw16XchgU => {
                Some(Shape::AtomicRmw(ValType::I32))
            },
            Operator::I64AtomicRmwAdd | Operator::I64AtomicRmw8AddU | Operator::I64AtomicRmw16AddU
            | Operator::I64AtomicRmw32AddU | Operator::I64AtomicRmwSub
            | Operator::I64AtomicRmw8SubU | Operator::I64AtomicRmw16SubU
            | Operator::I64AtomicRmw32SubU | Operator::I64AtomicRmwAnd
            | Operator::I64AtomicRmw8AndU | Operator::I64AtomicRmw16AndU
            | Operator::I64AtomicRmw32AndU | Operator::I64AtomicRmwOr | Operator::I64AtomicRmw8OrU
            | Operator::I64AtomicRmw16OrU | Operator::I64AtomicRmw32OrU
            | Operator::I64AtomicRmwXor | Operator::I64AtomicRmw8XorU
            | Operator::I64AtomicRmw16XorU | Operator::I64AtomicRmw32XorU
            | Operator::I64AtomicRmwXchg | Operator::I64AtomicRmw8XchgU
            | Operator::I64AtomicRmw16XchgU | Operator::I64AtomicRmw32XchgU => {
                Some(Shape::AtomicRmw(ValType::I64))
            },
            Operator::I32AtomicRmwCmpxchg | Operator::I32AtomicRmw8CmpxchgU
            | Operator::I32AtomicRmw16CmpxchgU => {
                Some(Shape::AtomicCmpxchg(ValType::I32))
            },
            Operator::I64AtomicRmwCmpxchg | Operator::I64AtomicRmw8CmpxchgU
            | Operator::I64AtomicRmw16CmpxchgU | Operator::I64AtomicRmw32CmpxchgU => {
                Some(Shape::AtomicCmpxchg(ValType::I64))
            },
            Operator::I32AtomicLoad | Operator::I32AtomicLoad8U | Operator::I32AtomicLoad16U => {
                Some(Shape::AtomicLoad(ValType::I32))
            },
            Operator::I64AtomicLoad | Operator::I64AtomicLoad8U | Operator::I64AtomicLoad16U
            | Operator::I64AtomicLoad32U => {
                Some(Shape::AtomicLoad(ValType::I64))
            },
            Operator::TableGrow => Some(Shape::TableGrow),
            Operator::RefNull { val_type } => Some(Shape::Push(val_type)),
            Operator::Unreachable | Operator::Block { .. } | Operator::Loop { .. }
            | Operator::If { .. } | Operator::Else | Operator::Try | Operator::Catch
            | Operator::Throw | Operator::Rethrow | Operator::End | Operator::Br
            | Operator::BrTable | Operator::Return | Operator::Call { .. }
            | Operator::CallIndirect { .. } | Operator::ReturnCall | Operator::ReturnCallIndirect
            | Operator::Delegate | Operator::CatchAll | Operator::LocalGet { .. }
            | Operator::GlobalGet { .. } | Operator::TableGet | Operator::AtomicFence => {
                None
            },
        }
    }
}

} // verus!
