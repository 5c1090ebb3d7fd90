//! The instructions as `wasmparser` reports them.

use crate::operator::Operator;
use crate::reader::{block_type, block_type_of, val_type, val_type_of};
use vstd::prelude::*;
use wasmparser::{
    BlockType as WasmBlockType, BrTable, Ieee32, Ieee64, MemArg, ValType as WasmValType, V128,
};

verus! {

/// Names the instruction that it is shown.
pub struct OperatorNamer;

impl<'a> wasmparser::VisitOperator<'a> for OperatorNamer {
    type Output = Operator;

    fn visit_unreachable(&mut self, _offset: usize) -> (op: Operator)
        ensures op == Operator::Unreachable,
    { Operator::Unreachable }

    fn visit_nop(&mut self, _offset: usize) -> (op: Operator)
        ensures op == Operator::Nop,
    { Operator::Nop }

    fn visit_block(&mut self, _offset: usize, ty: WasmBlockType) -> (op: Operator)
        ensures op == (Operator::Block { ty: block_type_of(ty) }),
    { Operator::Block { ty: block_type(ty) } }

    fn visit_loop(&mut self, _offset: usize, ty: WasmBlockType) -> (op: Operator)
        ensures op == (Operator::Loop { ty: block_type_of(ty) }),
    { Operator::Loop { ty: block_type(ty) } }

    fn visit_if(&mut self, _offset: usize, ty: WasmBlockType) -> (op: Operator)
        ensures op == (Operator::If { ty: block_type_of(ty) }),
    { Operator::If { ty: block_type(ty) } }

    fn visit_else(&mut self, _offset: usize) -> (op: Operator)
        ensures op == Operator::Else,
    { Operator::Else }

    fn visit_try(&mut self, _offset: usize, _ty: WasmBlockType) -> (op: Operator)
        ensures op == Operator::Try,
    { Operator::Try }

    fn visit_catch(&mut self, _offset: usize, _index: u32) -> (op: Operator)
        ensures op == Operator::Catch,
    { Operator::Catch }

    fn visit_throw(&mut self, _offset: usize, _index: u32) -> (op: Operator)
        ensures op == Operator::Throw,
    { Operator::Throw }

    fn visit_rethrow(&mut self, _offset: usize, _relative_depth: u32) -> (op: Operator)
        ensures op == Operator::Rethrow,
    { Operator::Rethrow }

    fn visit_end(&mut self, _offset: usize) -> (op: Operator)
        ensures op == Operator::End,
    { Operator::End }

    fn visit_br(&mut self, _offset: usize, _relative_depth: u32) -> (op: Operator)
        ensures op == Operator::Br,
    { Operator::Br }

    fn visit_br_if(&mut self, _offset: usize, _relative_depth: u32) -> (op: Operator)
        ensures op == Operator::BrIf,
    { Operator::BrIf }

    fn visit_br_table(&mut self, _offset: usize, _table: BrTable<'a>) -> (op: Operator)
        ensures op == Operator::BrTable,
    { Operator::BrTable }

    fn visit_return(&mut self, _offset: usize) -> (op: Operator)
        ensures op == Operator::Return,
    { Operator::Return }

    fn visit_call(&mut self, _offset: usize, function_index: u32) -> (op: Operator)
        ensures op == (Operator::Call { function_index }),
    { Operator::Call { function_index } }

    fn visit_call_indirect(
        &mut self,
        _offset: usize,
        index: u32,
        _table_index: u32,
        _table_byte: u8,
    ) -> (op: Operator)
        ensures op == (Operator::CallIndirect { index }),
    { Operator::CallIndirect { index } }

    fn visit_return_call(&mut self, _offset: usize, _function_index: u32) -> (op: Operator)
        ensures op == Operator::ReturnCall,
    { Operator::ReturnCall }

    fn visit_return_call_indirect(
        &mut self,
        _offset: usize,
        _index: u32,
        _table_index: u32,
    ) -> (op: Operator)
        ensures op == Operator::ReturnCallIndirect,
    { Operator::ReturnCallIndirect }

    fn visit_delegate(&mut self, _offset: usize, _relative_depth: u32) -> (op: Operator)
        ensures op == Operator::Delegate,
    { Operator::Delegate }

    fn visit_catch_all(&mut self, _offset: usize) -> (op: Operator)
        ensures op == Operator::CatchAll,
    { Operator::CatchAll }

    fn visit_drop(&mut self, _offset: usize) -> (op: Operator)
        ensures op == Operator::Drop,
    { Operator::Drop }

    fn visit_select(&mut self, _offset: usize) -> (op: Operator)
        ensures op == Operator::Select,
    { Operator::Select }

    fn visit_typed_select(&mut self, _offset: usize, _ty: WasmValType) -> (op: Operator)
        ensures op == Operator::TypedSelect,
    { Operator::TypedSelect }

    fn visit_local_get(&mut self, _offset: usize, local_index: u32) -> (op: Operator)
        ensures op == (Operator::LocalGet { local_index }),
    { Operator::LocalGet { local_index } }

    fn visit_local_set(&mut self, _offset: usize, _local_index: u32) -> (op: Operator)
        ensures op == Operator::LocalSet,
    { Operator::LocalSet }

    fn visit_local_tee(&mut self, _offset: usize, _local_index: u32) -> (op: Operator)
        ensures op == Operator::LocalTee,
    { Operator::LocalTee }

    fn visit_global_get(&mut self, _offset: usize, global_index: u32) -> (op: Operator)
        ensures op == (Operator::GlobalGet { global_index }),
    { Operator::GlobalGet { global_index } }

    fn visit_global_set(&mut self, _offset: usize, _global_index: u32) -> (op: Operator)
        ensures op == Operator::GlobalSet,
    { Operator::GlobalSet }

    fn visit_i32_load(&mut self, _offset: usize, _memarg: MemArg) -> (op: Operator)
        ensures op == Operator::I32Load,
    { Operator::I32Load }

    fn visit_i64_load(&mut self, _offset: usize, _memarg: MemArg) -> (op: Operator)
        ensures op == Operator::I64Load,
    { Operator::I64Load }

    fn visit_f32_load(&mut self, _offset: usize, _memarg: MemArg) -> (op: Operator)
        ensures op == Operator::F32Load,
    { Operator::F32Load }

    fn visit_f64_load(&mut self, _offset: usize, _memarg: MemArg) -> (op: Operator)
        ensures op == Operator::F64Load,
    { Operator::F64Load }

    fn visit_i32_load8_s(&mut self, _offset: usize, _memarg: MemArg) -> (op: Operator)
        ensures op == Operator::I32Load8S,
    { Operator::I32Load8S }

    fn visit_i32_load8_u(&mut self, _offset: usize, _memarg: MemArg) -> (op: Operator)
        ensures op == Operator::I32Load8U,
    { Operator::I32Load8U }

    fn visit_i32_load16_s(&mut self, _offset: usize, _memarg: MemArg) -> (op: Operator)
        ensures op == Operator::I32Load16S,
    { Operator::I32Load16S }

    fn visit_i32_load16_u(&mut self, _offset: usize, _memarg: MemArg) -> (op: Operator)
        ensures op == Operator::I32Load16U,
    { Operator::I32Load16U }

    fn visit_i64_load8_s(&mut self, _offset: usize, _memarg: MemArg) -> (op: Operator)
        ensures op == Operator::I64Load8S,
    { Operator::I64Load8S }

    fn visit_i64_load8_u(&mut self, _offset: usize, _memarg: MemArg) -> (op: Operator)
        ensures op == Operator::I64Load8U,
    { Operator::I64Load8U }

    fn visit_i64_load16_s(&mut self, _offset: usize, _memarg: MemArg) -> (op: Operator)
        ensures op == Operator::I64Load16S,
    { Operator::I64Load16S }

    fn visit_i64_load16_u(&mut self, _offset: usize, _memarg: MemArg) -> (op: Operator)
        ensures op == Operator::I64Load16U,
    { Operator::I64Load16U }

    fn visit_i64_load32_s(&mut self, _offset: usize, _memarg: MemArg) -> (op: Operator)
        ensures op == Operator::I64Load32S,
    { Operator::I64Load32S }

    fn visit_i64_load32_u(&mut self, _offset: usize, _memarg: MemArg) -> (op: Operator)
        ensures op == Operator::I64Load32U,
    { Operator::I64Load32U }

    fn visit_i32_store(&mut self, _offset: usize, _memarg: MemArg) -> (op: Operator)
        ensures op == Operator::I32Store,
    { Operator::I32Store }

    fn visit_i64_store(&mut self, _offset: usize, _memarg: MemArg) -> (op: Operator)
        ensures op == Operator::I64Store,
    { Operator::I64Store }

    fn visit_f32_store(&mut self, _offset: usize, _memarg: MemArg) -> (op: Operator)
        ensures op == Operator::F32Store,
    { Operator::F32Store }

    fn visit_f64_store(&mut self, _offset: usize, _memarg: MemArg) -> (op: Operator)
        ensures op == Operator::F64Store,
    { Operator::F64Store }

    fn visit_i32_store8(&mut self, _offset: usize, _memarg: MemArg) -> (op: Operator)
        ensures op == Operator::I32Store8,
    { Operator::I32Store8 }

    fn visit_i32_store16(&mut self, _offset: usize, _memarg: MemArg) -> (op: Operator)
        ensures op == Operator::I32Store16,
    { Operator::I32Store16 }

    fn visit_i64_store8(&mut self, _offset: usize, _memarg: MemArg) -> (op: Operator)
        ensures op == Operator::I64Store8,
    { Operator::I64Store8 }

    fn visit_i64_store16(&mut self, _offset: usize, _memarg: MemArg) -> (op: Operator)
        ensures op == Operator::I64Store16,
    { Operator::I64Store16 }

    fn visit_i64_store32(&mut self, _offset: usize, _memarg: MemArg) -> (op: Operator)
        ensures op == Operator::I64Store32,
    { Operator::I64Store32 }

    fn visit_memory_size(&mut self, _offset: usize, _mem: u32, _mem_byte: u8) -> (op: Operator)
        ensures op == Operator::MemorySize,
    { Operator::MemorySize }

    fn visit_memory_grow(&mut self, _offset: usize, _mem: u32, _mem_byte: u8) -> (op: Operator)
        ensures op == Operator::MemoryGrow,
    { Operator::MemoryGrow }

    fn visit_i32_const(&mut self, _offset: usize, _value: i32) -> (op: Operator)
        ensures op == Operator::I32Const,
    { Operator::I32Const }

    fn visit_i64_const(&mut self, _offset: usize, _value: i64) -> (op: Operator)
        ensures op == Operator::I64Const,
    { Operator::I64Const }

    fn visit_f32_const(&mut self, _offset: usize, _value: Ieee32) -> (op: Operator)
        ensures op == Operator::F32Const,
    { Operator::F32Const }

    fn visit_f64_const(&mut self, _offset: usize, _value: Ieee64) -> (op: Operator)
        ensures op == Operator::F64Const,
    { Operator::F64Const }

    fn visit_ref_null(&mut self, _offset: usize, ty: WasmValType) -> (op: Operator)
        ensures op == (Operator::RefNull { val_type: val_type_of(ty) }),
    { Operator::RefNull { val_type: val_type(ty) } }

    fn visit_ref_is_null(&mut self, _offset: usize) -> (op: Operator)
        ensures op == Operator::RefIsNull,
    { Operator::RefIsNull }

    fn visit_ref_func(&mut self, _offset: usize, _function_index: u32) -> (op: Operator)
        ensures op == Operator::RefFunc,
    { Operator::RefFunc }

    fn visit_i32_eqz(&mut self, _offset: usize) -> (op: Operator)
        ensures op == Operator::I32Eqz,
    { Operator::I32Eqz }

    fn visit_i32_eq(&mut self, _offset: usize) -> (op: Operator)
        ensures op == Operator::I32Eq,
    { Operator::I32Eq }

    fn visit_i32_ne(&mut self, _offset: usize) -> (op: Operator)
        ensures op == Operator::I32Ne,
    { Operator::I32Ne }

    fn visit_i32_lt_s(&mut self, _offset: usize) -> (op: Operator)
        ensures op == Operator::I32LtS,
    { Operator::I32LtS }

    fn visit_i32_lt_u(&mut self, _offset: usize) -> (op: Operator)
        ensures op == Operator::I32LtU,
    { Operator::I32LtU }

    fn visit_i32_gt_s(&mut self, _offset: usize) -> (op: Operator)
        ensures op == Operator::I32GtS,
    { Operator::I32GtS }

    fn visit_i32_gt_u(&mut self, _offset: usize) -> (op: Operator)
        ensures op == Operator::I32GtU,
    { Operator::I32GtU }

    fn visit_i32_le_s(&mut self, _offset: usize) -> (op: Operator)
        ensures op == Operator::I32LeS,
    { Operator::I32LeS }

    fn visit_i32_le_u(&mut self, _offset: usize) -> (op: Operator)
        ensures op == Operator::I32LeU,
    { Operator::I32LeU }

    fn visit_i32_ge_s(&mut self, _offset: usize) -> (op: Operator)
        ensures op == Operator::I32GeS,
    { Operator::I32GeS }

    fn visit_i32_ge_u(&mut self, _offset: usize) -> (op: Operator)
        ensures op == Operator::I32GeU,
    { Operator::I32GeU }

    fn visit_i64_eqz(&mut self, _offset: usize) -> (op: Operator)
        ensures op == Operator::I64Eqz,
    { Operator::I64Eqz }

    fn visit_i64_eq(&mut self, _offset: usize) -> (op: Operator)
        ensures op == Operator::I64Eq,
    { Operator::I64Eq }

    fn visit_i64_ne(&mut self, _offset: usize) -> (op: Operator)
        ensures op == Operator::I64Ne,
    { Operator::I64Ne }

    fn visit_i64_lt_s(&mut self, _offset: usize) -> (op: Operator)
        ensures op == Operator::I64LtS,
    { Operator::I64LtS }

    fn visit_i64_lt_u(&mut self, _offset: usize) -> (op: Operator)
        ensures op == Operator::I64LtU,
    { Operator::I64LtU }

    fn visit_i64_gt_s(&mut self, _offset: usize) -> (op: Operator)
        ensures op == Operator::I64GtS,
    { Operator::I64GtS }

    fn visit_i64_gt_u(&mut self, _offset: usize) -> (op: Operator)
        ensures op == Operator::I64GtU,
    { Operator::I64GtU }

    fn visit_i64_le_s(&mut self, _offset: usize) -> (op: Operator)
        ensures op == Operator::I64LeS,
    { Operator::I64LeS }

    fn visit_i64_le_u(&mut self, _offset: usize) -> (op: Operator)
        ensures op == Operator::I64LeU,
    { Operator::I64LeU }

    fn visit_i64_ge_s(&mut self, _offset: usize) -> (op: Operator)
        ensures op == Operator::I64GeS,
    { Operator::I64GeS }

    fn visit_i64_ge_u(&mut self, _offset: usize) -> (op: Operator)
        ensures op == Operator::I64GeU,
    { Operator::I64GeU }

    fn visit_f32_eq(&mut self, _offset: usize) -> (op: Operator)
        ensures op == Operator::F32Eq,
    { Operator::F32Eq }

    fn visit_f32_ne(&mut self, _offset: usize) -> (op: Operator)
        ensures op == Operator::F32Ne,
    { Operator::F32Ne }

    fn visit_f32_lt(&mut self, _offset: usize) -> (op: Operator)
        ensures op == Operator::F32Lt,
    { Operator::F32Lt }

    fn visit_f32_gt(&mut self, _offset: usize) -> (op: Operator)
        ensures op == Operator::F32Gt,
    { Operator::F32Gt }

    fn visit_f32_le(&mut self, _offset: usize) -> (op: Operator)
        ensures op == Operator::F32Le,
    { Operator::F32Le }

    fn visit_f32_ge(&mut self, _offset: usize) -> (op: Operator)
        ensures op == Operator::F32Ge,
    { Operator::F32Ge }

    fn visit_f64_eq(&mut self, _offset: usize) -> (op: Operator)
        ensures op == Operator::F64Eq,
    { Operator::F64Eq }

    fn visit_f64_ne(&mut self, _offset: usize) -> (op: Operator)
        ensures op == Operator::F64Ne,
    { Operator::F64Ne }

    fn visit_f64_lt(&mut self, _offset: usize) -> (op: Operator)
        ensures op == Operator::F64Lt,
    { Operator::F64Lt }

    fn visit_f64_gt(&mut self, _offset: usize) -> (op: Operator)
        ensures op == Operator::F64Gt,
    { Operator::F64Gt }

    fn visit_f64_le(&mut self, _offset: usize) -> (op: Operator)
        ensures op == Operator::F64Le,
    { Operator::F64Le }

    fn visit_f64_ge(&mut self, _offset: usize) -> (op: Operator)
        ensures op == Operator::F64Ge,
    { Operator::F64Ge }

    fn visit_i32_clz(&mut self, _offset: usize) -> (op: Operator)
        ensures op == Operator::I32Clz,
    { Operator::I32Clz }

    fn visit_i32_ctz(&mut self, _offset: usize) -> (op: Operator)
        ensures op == Operator::I32Ctz,
    { Operator::I32Ctz }

    fn visit_i32_popcnt(&mut self, _offset: usize) -> (op: Operator)
        ensures op == Operator::I32Popcnt,
    { Operator::I32Popcnt }

    fn visit_i32_add(&mut self, _offset: usize) -> (op: Operator)
        ensures op == Operator::I32Add,
    { Operator::I32Add }

    fn visit_i32_sub(&mut self, _offset: usize) -> (op: Operator)
        ensures op == Operator::I32Sub,
    { Operator::I32Sub }

    fn visit_i32_mul(&mut self, _offset: usize) -> (op: Operator)
        ensures op == Operator::I32Mul,
    { Operator::I32Mul }

    fn visit_i32_div_s(&mut self, _offset: usize) -> (op: Operator)
        ensures op == Operator::I32DivS,
    { Operator::I32DivS }

    fn visit_i32_div_u(&mut self, _offset: usize) -> (op: Operator)
        ensures op == Operator::I32DivU,
    { Operator::I32DivU }

    fn visit_i32_rem_s(&mut self, _offset: usize) -> (op: Operator)
        ensures op == Operator::I32RemS,
    { Operator::I32RemS }

    fn visit_i32_rem_u(&mut self, _offset: usize) -> (op: Operator)
        ensures op == Operator::I32RemU,
    { Operator::I32RemU }

    fn visit_i32_and(&mut self, _offset: usize) -> (op: Operator)
        ensures op == Operator::I32And,
    { Operator::I32And }

    fn visit_i32_or(&mut self, _offset: usize) -> (op: Operator)
        ensures op == Operator::I32Or,
    { Operator::I32Or }

    fn visit_i32_xor(&mut self, _offset: usize) -> (op: Operator)
        ensures op == Operator::I32Xor,
    { Operator::I32Xor }

    fn visit_i32_shl(&mut self, _offset: usize) -> (op: Operator)
        ensures op == Operator::I32Shl,
    { Operator::I32Shl }

    fn visit_i32_shr_s(&mut self, _offset: usize) -> (op: Operator)
        ensures op == Operator::I32ShrS,
    { Operator::I32ShrS }

    fn visit_i32_shr_u(&mut self, _offset: usize) -> (op: Operator)
        ensures op == Operator::I32ShrU,
    { Operator::I32ShrU }

    fn visit_i32_rotl(&mut self, _offset: usize) -> (op: Operator)
        ensures op == Operator::I32Rotl,
    { Operator::I32Rotl }

    fn visit_i32_rotr(&mut self, _offset: usize) -> (op: Operator)
        ensures op == Operator::I32Rotr,
    { Operator::I32Rotr }

    fn visit_i64_clz(&mut self, _offset: usize) -> (op: Operator)
        ensures op == Operator::I64Clz,
    { Operator::I64Clz }

    fn visit_i64_ctz(&mut self, _offset: usize) -> (op: Operator)
        ensures op == Operator::I64Ctz,
    { Operator::I64Ctz }

    fn visit_i64_popcnt(&mut self, _offset: usize) -> (op: Operator)
        ensures op == Operator::I64Popcnt,
    { Operator::I64Popcnt }

    fn visit_i64_add(&mut self, _offset: usize) -> (op: Operator)
        ensures op == Operator::I64Add,
    { Operator::I64Add }

    fn visit_i64_sub(&mut self, _offset: usize) -> (op: Operator)
        ensures op == Operator::I64Sub,
    { Operator::I64Sub }

    fn visit_i64_mul(&mut self, _offset: usize) -> (op: Operator)
        ensures op == Operator::I64Mul,
    { Operator::I64Mul }

    fn visit_i64_div_s(&mut self, _offset: usize) -> (op: Operator)
        ensures op == Operator::I64DivS,
    { Operator::I64DivS }

    fn visit_i64_div_u(&mut self, _offset: usize) -> (op: Operator)
        ensures op == Operator::I64DivU,
    { Operator::I64DivU }

    fn visit_i64_rem_s(&mut self, _offset: usize) -> (op: Operator)
        ensures op == Operator::I64RemS,
    { Operator::I64RemS }

    fn visit_i64_rem_u(&mut self, _offset: usize) -> (op: Operator)
        ensures op == Operator::I64RemU,
    { Operator::I64RemU }

    fn visit_i64_and(&mut self, _offset: usize) -> (op: Operator)
        ensures op == Operator::I64And,
    { Operator::I64And }

    fn visit_i64_or(&mut self, _offset: usize) -> (op: Operator)
        ensures op == Operator::I64Or,
    { Operator::I64Or }

    fn visit_i64_xor(&mut self, _offset: usize) -> (op: Operator)
        ensures op == Operator::I64Xor,
    { Operator::I64Xor }

    fn visit_i64_shl(&mut self, _offset: usize) -> (op: Operator)
        ensures op == Operator::I64Shl,
    { Operator::I64Shl }

    fn visit_i64_shr_s(&mut self, _offset: usize) -> (op: Operator)
        ensures op == Operator::I64ShrS,
    { Operator::I64ShrS }

    fn visit_i64_shr_u(&mut self, _offset: usize) -> (op: Operator)
        ensures op == Operator::I64ShrU,
    { Operator::I64ShrU }

    fn visit_i64_rotl(&mut self, _offset: usize) -> (op: Operator)
        ensures op == Operator::I64Rotl,
    { Operator::I64Rotl }

    fn visit_i64_rotr(&mut self, _offset: usize) -> (op: Operator)
        ensures op == Operator::I64Rotr,
    { Operator::I64Rotr }

    fn visit_f32_abs(&mut self, _offset: usize) -> (op: Operator)
        ensures op == Operator::F32Abs,
    { Operator::F32Abs }

    fn visit_f32_neg(&mut self, _offset: usize) -> (op: Operator)
        ensures op == Operator::F32Neg,
    { Operator::F32Neg }

    fn visit_f32_ceil(&mut self, _offset: usize) -> (op: Operator)
        ensures op == Operator::F32Ceil,
    { Operator::F32Ceil }

    fn visit_f32_floor(&mut self, _offset: usize) -> (op: Operator)
        ensures op == Operator::F32Floor,
    { Operator::F32Floor }

    fn visit_f32_trunc(&mut self, _offset: usize) -> (op: Operator)
        ensures op == Operator::F32Trunc,
    { Operator::F32Trunc }

    fn visit_f32_nearest(&mut self, _offset: usize) -> (op: Operator)
        ensures op == Operator::F32Nearest,
    { Operator::F32Nearest }

    fn visit_f32_sqrt(&mut self, _offset: usize) -> (op: Operator)
        ensures op == Operator::F32Sqrt,
    { Operator::F32Sqrt }

    fn visit_f32_add(&mut self, _offset: usize) -> (op: Operator)
        ensures op == Operator::F32Add,
    { Operator::F32Add }

    fn visit_f32_sub(&mut self, _offset: usize) -> (op: Operator)
        ensures op == Operator::F32Sub,
    { Operator::F32Sub }

    fn visit_f32_mul(&mut self, _offset: usize) -> (op: Operator)
        ensures op == Operator::F32Mul,
    { Operator::F32Mul }

    fn visit_f32_div(&mut self, _offset: usize) -> (op: Operator)
        ensures op == Operator::F32Div,
    { Operator::F32Div }

    fn visit_f32_min(&mut self, _offset: usize) -> (op: Operator)
        ensures op == Operator::F32Min,
    { Operator::F32Min }

    fn visit_f32_max(&mut self, _offset: usize) -> (op: Operator)
        ensures op == Operator::F32Max,
    { Operator::F32Max }

    fn visit_f32_copysign(&mut self, _offset: usize) -> (op: Operator)
        ensures op == Operator::F32Copysign,
    { Operator::F32Copysign }

    fn visit_f64_abs(&mut self, _offset: usize) -> (op: Operator)
        ensures op == Operator::F64Abs,
    { Operator::F64Abs }

    fn visit_f64_neg(&mut self, _offset: usize) -> (op: Operator)
        ensures op == Operator::F64Neg,
    { Operator::F64Neg }

    fn visit_f64_ceil(&mut self, _offset: usize) -> (op: Operator)
        ensures op == Operator::F64Ceil,
    { Operator::F64Ceil }

    fn visit_f64_floor(&mut self, _offset: usize) -> (op: Operator)
        ensures op == Operator::F64Floor,
    { Operator::F64Floor }

    fn visit_f64_trunc(&mut self, _offset: usize) -> (op: Operator)
        ensures op == Operator::F64Trunc,
    { Operator::F64Trunc }

    fn visit_f64_nearest(&mut self, _offset: usize) -> (op: Operator)
        ensures op == Operator::F64Nearest,
    { Operator::F64Nearest }

    fn visit_f64_sqrt(&mut self, _offset: usize) -> (op: Operator)
        ensures op == Operator::F64Sqrt,
    { Operator::F64Sqrt }

    fn visit_f64_add(&mut self, _offset: usize) -> (op: Operator)
        ensures op == Operator::F64Add,
    { Operator::F64Add }

    fn visit_f64_sub(&mut self, _offset: usize) -> (op: Operator)
        ensures op == Operator::F64Sub,
    { Operator::F64Sub }

    fn visit_f64_mul(&mut self, _offset: usize) -> (op: Operator)
        ensures op == Operator::F64Mul,
    { Operator::F64Mul }

    fn visit_f64_div(&mut self, _offset: usize) -> (op: Operator)
        ensures op == Operator::F64Div,
    { Operator::F64Div }

    fn visit_f64_min(&mut self, _offset: usize) -> (op: Operator)
        ensures op == Operator::F64Min,
    { Operator::F64Min }

    fn visit_f64_max(&mut self, _offset: usize) -> (op: Operator)
        ensures op == Operator::F64Max,
    { Operator::F64Max }

    fn visit_f64_copysign(&mut self, _offset: usize) -> (op: Operator)
        ensures op == Operator::F64Copysign,
    { Operator::F64Copysign }

    fn visit_i32_wrap_i64(&mut self, _offset: usize) -> (op: Operator)
        ensures op == Operator::I32WrapI64,
    { Operator::I32WrapI64 }

    fn visit_i32_trunc_f32s(&mut self, _offset: usize) -> (op: Operator)
        ensures op == Operator::I32TruncF32S,
    { Operator::I32TruncF32S }

    fn visit_i32_trunc_f32u(&mut self, _offset: usize) -> (op: Operator)
        ensures op == Operator::I32TruncF32U,
    { Operator::I32TruncF32U }

    fn visit_i32_trunc_f64s(&mut self, _offset: usize) -> (op: Operator)
        ensures op == Operator::I32TruncF64S,
    { Operator::I32TruncF64S }

    fn visit_i32_trunc_f64u(&mut self, _offset: usize) -> (op: Operator)
        ensures op == Operator::I32TruncF64U,
    { Operator::I32TruncF64U }

    fn visit_i64_extend_i32s(&mut self, _offset: usize) -> (op: Operator)
        ensures op == Operator::I64ExtendI32S,
    { Operator::I64ExtendI32S }

    fn visit_i64_extend_i32u(&mut self, _offset: usize) -> (op: Operator)
        ensures op == Operator::I64ExtendI32U,
    { Operator::I64ExtendI32U }

    fn visit_i64_trunc_f32s(&mut self, _offset: usize) -> (op: Operator)
        ensures op == Operator::I64TruncF32S,
    { Operator::I64TruncF32S }

    fn visit_i64_trunc_f32u(&mut self, _offset: usize) -> (op: Operator)
        ensures op == Operator::I64TruncF32U,
    { Operator::I64TruncF32U }

    fn visit_i64_trunc_f64s(&mut self, _offset: usize) -> (op: Operator)
        ensures op == Operator::I64TruncF64S,
    { Operator::I64TruncF64S }

    fn visit_i64_trunc_f64u(&mut self, _offset: usize) -> (op: Operator)
        ensures op == Operator::I64TruncF64U,
    { Operator::I64TruncF64U }

    fn visit_f32_convert_i32s(&mut self, _offset: usize) -> (op: Operator)
        ensures op == Operator::F32ConvertI32S,
    { Operator::F32ConvertI32S }

    fn visit_f32_convert_i32u(&mut self, _offset: usize) -> (op: Operator)
        ensures op == Operator::F32ConvertI32U,
    { Operator::F32ConvertI32U }

    fn visit_f32_convert_i64s(&mut self, _offset: usize) -> (op: Operator)
        ensures op == Operator::F32ConvertI64S,
    { Operator::F32ConvertI64S }

    fn visit_f32_convert_i64u(&mut self, _offset: usize) -> (op: Operator)
        ensures op == Operator::F32ConvertI64U,
    { Operator::F32ConvertI64U }

    fn visit_f32_demote_f64(&mut self, _offset: usize) -> (op: Operator)
        ensures op == Operator::F32DemoteF64,
    { Operator::F32DemoteF64 }

    fn visit_f64_convert_i32_s(&mut self, _offset: usize) -> (op: Operator)
        ensures op == Operator::F64ConvertI32S,
    { Operator::F64ConvertI32S }

    fn visit_f64_convert_i32_u(&mut self, _offset: usize) -> (op: Operator)
        ensures op == Operator::F64ConvertI32U,
    { Operator::F64ConvertI32U }

    fn visit_f64_convert_i64_s(&mut self, _offset: usize) -> (op: Operator)
        ensures op == Operator::F64ConvertI64S,
    { Operator::F64ConvertI64S }

    fn visit_f64_convert_i64_u(&mut self, _offset: usize) -> (op: Operator)
        ensures op == Operator::F64ConvertI64U,
    { Operator::F64ConvertI64U }

    fn visit_f64_promote_f32(&mut self, _offset: usize) -> (op: Operator)
        ensures op == Operator::F64PromoteF32,
    { Operator::F64PromoteF32 }

    fn visit_i32_reinterpret_f32(&mut self, _offset: usize) -> (op: Operator)
        ensures op == Operator::I32ReinterpretF32,
    { Operator::I32ReinterpretF32 }

    fn visit_i64_reinterpret_f64(&mut self, _offset: usize) -> (op: Operator)
        ensures op == Operator::I64ReinterpretF64,
    { Operator::I64ReinterpretF64 }

    fn visit_f32_reinterpret_i32(&mut self, _offset: usize) -> (op: Operator)
        ensures op == Operator::F32ReinterpretI32,
    { Operator::F32ReinterpretI32 }

    fn visit_f64_reinterpret_i64(&mut self, _offset: usize) -> (op: Operator)
        ensures op == Operator::F64ReinterpretI64,
    { Operator::F64ReinterpretI64 }

    fn visit_i32_extend8_s(&mut self, _offset: usize) -> (op: Operator)
        ensures op == Operator::I32Extend8S,
    { Operator::I32Extend8S }

    fn visit_i32_extend16_s(&mut self, _offset: usize) -> (op: Operator)
        ensures op == Operator::I32Extend16S,
    { Operator::I32Extend16S }

    fn visit_i64_extend8_s(&mut self, _offset: usize) -> (op: Operator)
        ensures op == Operator::I64Extend8S,
    { Operator::I64Extend8S }

    fn visit_i64_extend16_s(&mut self, _offset: usize) -> (op: Operator)
        ensures op == Operator::I64Extend16S,
    { Operator::I64Extend16S }

    fn visit_i64_extend32_s(&mut self, _offset: usize) -> (op: Operator)
        ensures op == Operator::I64Extend32S,
    { Operator::I64Extend32S }

    fn visit_i32_trunc_sat_f32_s(&mut self, _offset: usize) -> (op: Operator)
        ensures op == Operator::I32TruncSatF32S,
    { Operator::I32TruncSatF32S }

    fn visit_i32_trunc_sat_f32_u(&mut self, _offset: usize) -> (op: Operator)
        ensures op == Operator::I32TruncSatF32U,
    { Operator::I32TruncSatF32U }

    fn visit_i32_trunc_sat_f64_s(&mut self, _offset: usize) -> (op: Operator)
        ensures op == Operator::I32TruncSatF64S,
    { Operator::I32TruncSatF64S }

    fn visit_i32_trunc_sat_f64_u(&mut self, _offset: usize) -> (op: Operator)
        ensures op == Operator::I32TruncSatF64U,
    { Operator::I32TruncSatF64U }

    fn visit_i64_trunc_sat_f32_s(&mut self, _offset: usize) -> (op: Operator)
        ensures op == Operator::I64TruncSatF32S,
    { Operator::I64TruncSatF32S }

    fn visit_i64_trunc_sat_f32_u(&mut self, _offset: usize) -> (op: Operator)
        ensures op == Operator::I64TruncSatF32U,
    { Operator::I64TruncSatF32U }

    fn visit_i64_trunc_sat_f64_s(&mut self, _offset: usize) -> (op: Operator)
        ensures op == Operator::I64TruncSatF64S,
    { Operator::I64TruncSatF64S }

    fn visit_i64_trunc_sat_f64_u(&mut self, _offset: usize) -> (op: Operator)
        ensures op == Operator::I64TruncSatF64U,
    { Operator::I64TruncSatF64U }

    fn visit_memory_init(&mut self, _offset: usize, _segment: u32, _mem: u32) -> (op: Operator)
        ensures op == Operator::MemoryInit,
    { Operator::MemoryInit }

    fn visit_data_drop(&mut self, _offset: usize, _segment: u32) -> (op: Operator)
        ensures op == Operator::DataDrop,
    { Operator::DataDrop }

    fn visit_memory_copy(&mut self, _offset: usize, _dst: u32, _src: u32) -> (op: Operator)
        ensures op == Operator::MemoryCopy,
    { Operator::MemoryCopy }

    fn visit_memory_fill(&mut self, _offset: usize, _mem: u32) -> (op: Operator)
        ensures op == Operator::MemoryFill,
    { Operator::MemoryFill }

    fn visit_table_init(&mut self, _offset: usize, _segment: u32, _table: u32) -> (op: Operator)
        ensures op == Operator::TableInit,
    { Operator::TableInit }

    fn visit_elem_drop(&mut self, _offset: usize, _segment: u32) -> (op: Operator)
        ensures op == Operator::ElemDrop,
    { Operator::ElemDrop }

    fn visit_table_copy(
        &mut self,
        _offset: usize,
        _dst_table: u32,
        _src_table: u32,
    ) -> (op: Operator)
        ensures op == Operator::TableCopy,
    { Operator::TableCopy }

    fn visit_table_fill(&mut self, _offset: usize, _table: u32) -> (op: Operator)
        ensures op == Operator::TableFill,
    { Operator::TableFill }

    fn visit_table_get(&mut self, _offset: usize, _table: u32) -> (op: Operator)
        ensures op == Operator::TableGet,
    { Operator::TableGet }

    fn visit_table_set(&mut self, _offset: usize, _table: u32) -> (op: Operator)
        ensures op == Operator::TableSet,
    { Operator::TableSet }

    fn visit_table_grow(&mut self, _offset: usize, _table: u32) -> (op: Operator)
        ensures op == Operator::TableGrow,
    { Operator::TableGrow }

    fn visit_table_size(&mut self, _offset: usize, _table: u32) -> (op: Operator)
        ensures op == Operator::TableSize,
    { Operator::TableSize }

    fn visit_memory_atomic_notify(&mut self, _offset: usize, _memarg: MemArg) -> (op: Operator)
        ensures op == Operator::MemoryAtomicNotify,
    { Operator::MemoryAtomicNotify }

    fn visit_memory_atomic_wait32(&mut self, _offset: usize, _memarg: MemArg) -> (op: Operator)
        ensures op == Operator::MemoryAtomicWait32,
    { Operator::MemoryAtomicWait32 }

    fn visit_memory_atomic_wait64(&mut self, _offset: usize, _memarg: MemArg) -> (op: Operator)
        ensures op == Operator::MemoryAtomicWait64,
    { Operator::MemoryAtomicWait64 }

    fn visit_atomic_fence(&mut self, _offset: usize, _flags: u8) -> (op: Operator)
        ensures op == Operator::AtomicFence,
    { Operator::AtomicFence }

    fn visit_i32_atomic_load(&mut self, _offset: usize, _memarg: MemArg) -> (op: Operator)
        ensures op == Operator::I32AtomicLoad,
    { Operator::I32AtomicLoad }

    fn visit_i64_atomic_load(&mut self, _offset: usize, _memarg: MemArg) -> (op: Operator)
        ensures op == Operator::I64AtomicLoad,
    { Operator::I64AtomicLoad }

    fn visit_i32_atomic_load8_u(&mut self, _offset: usize, _memarg: MemArg) -> (op: Operator)
        ensures op == Operator::I32AtomicLoad8U,
    { Operator::I32AtomicLoad8U }

    fn visit_i32_atomic_load16_u(&mut self, _offset: usize, _memarg: MemArg) -> (op: Operator)
        ensures op == Operator::I32AtomicLoad16U,
    { Operator::I32AtomicLoad16U }

    fn visit_i64_atomic_load8_u(&mut self, _offset: usize, _memarg: MemArg) -> (op: Operator)
        ensures op == Operator::I64AtomicLoad8U,
    { Operator::I64AtomicLoad8U }

    fn visit_i64_atomic_load16_u(&mut self, _offset: usize, _memarg: MemArg) -> (op: Operator)
        ensures op == Operator::I64AtomicLoad16U,
    { Operator::I64AtomicLoad16U }

    fn visit_i64_atomic_load32_u(&mut self, _offset: usize, _memarg: MemArg) -> (op: Operator)
        ensures op == Operator::I64AtomicLoad32U,
    { Operator::I64AtomicLoad32U }

    fn visit_i32_atomic_store(&mut self, _offset: usize, _memarg: MemArg) -> (op: Operator)
        ensures op == Operator::I32AtomicStore,
    { Operator::I32AtomicStore }

    fn visit_i64_atomic_store(&mut self, _offset: usize, _memarg: MemArg) -> (op: Operator)
        ensures op == Operator::I64AtomicStore,
    { Operator::I64AtomicStore }

    fn visit_i32_atomic_store8(&mut self, _offset: usize, _memarg: MemArg) -> (op: Operator)
        ensures op == Operator::I32AtomicStore8,
    { Operator::I32AtomicStore8 }

    fn visit_i32_atomic_store16(&mut self, _offset: usize, _memarg: MemArg) -> (op: Operator)
        ensures op == Operator::I32AtomicStore16,
    { Operator::I32AtomicStore16 }

    fn visit_i64_atomic_store8(&mut self, _offset: usize, _memarg: MemArg) -> (op: Operator)
        ensures op == Operator::I64AtomicStore8,
    { Operator::I64AtomicStore8 }

    fn visit_i64_atomic_store16(&mut self, _offset: usize, _memarg: MemArg) -> (op: Operator)
        ensures op == Operator::I64AtomicStore16,
    { Operator::I64AtomicStore16 }

    fn visit_i64_atomic_store32(&mut self, _offset: usize, _memarg: MemArg) -> (op: Operator)
        ensures op == Operator::I64AtomicStore32,
    { Operator::I64AtomicStore32 }

    fn visit_i32_atomic_rmw_add(&mut self, _offset: usize, _memarg: MemArg) -> (op: Operator)
        ensures op == Operator::I32AtomicRmwAdd,
    { Operator::I32AtomicRmwAdd }

    fn visit_i64_atomic_rmw_add(&mut self, _offset: usize, _memarg: MemArg) -> (op: Operator)
        ensures op == Operator::I64AtomicRmwAdd,
    { Operator::I64AtomicRmwAdd }

    fn visit_i32_atomic_rmw8_add_u(&mut self, _offset: usize, _memarg: MemArg) -> (op: Operator)
        ensures op == Operator::I32AtomicRmw8AddU,
    { Operator::I32AtomicRmw8AddU }

    fn visit_i32_atomic_rmw16_add_u(&mut self, _offset: usize, _memarg: MemArg) -> (op: Operator)
        ensures op == Operator::I32AtomicRmw16AddU,
    { Operator::I32AtomicRmw16AddU }

    fn visit_i64_atomic_rmw8_add_u(&mut self, _offset: usize, _memarg: MemArg) -> (op: Operator)
        ensures op == Operator::I64AtomicRmw8AddU,
    { Operator::I64AtomicRmw8AddU }

    fn visit_i64_atomic_rmw16_add_u(&mut self, _offset: usize, _memarg: MemArg) -> (op: Operator)
        ensures op == Operator::I64AtomicRmw16AddU,
    { Operator::I64AtomicRmw16AddU }

    fn visit_i64_atomic_rmw32_add_u(&mut self, _offset: usize, _memarg: MemArg) -> (op: Operator)
        ensures op == Operator::I64AtomicRmw32AddU,
    { Operator::I64AtomicRmw32AddU }

    fn visit_i32_atomic_rmw_sub(&mut self, _offset: usize, _memarg: MemArg) -> (op: Operator)
        ensures op == Operator::I32AtomicRmwSub,
    { Operator::I32AtomicRmwSub }

    fn visit_i64_atomic_rmw_sub(&mut self, _offset: usize, _memarg: MemArg) -> (op: Operator)
        ensures op == Operator::I64AtomicRmwSub,
    { Operator::I64AtomicRmwSub }

    fn visit_i32_atomic_rmw8_sub_u(&mut self, _offset: usize, _memarg: MemArg) -> (op: Operator)
        ensures op == Operator::I32AtomicRmw8SubU,
    { Operator::I32AtomicRmw8SubU }

    fn visit_i32_atomic_rmw16_sub_u(&mut self, _offset: usize, _memarg: MemArg) -> (op: Operator)
        ensures op == Operator::I32AtomicRmw16SubU,
    { Operator::I32AtomicRmw16SubU }

    fn visit_i64_atomic_rmw8_sub_u(&mut self, _offset: usize, _memarg: MemArg) -> (op: Operator)
        ensures op == Operator::I64AtomicRmw8SubU,
    { Operator::I64AtomicRmw8SubU }

    fn visit_i64_atomic_rmw16_sub_u(&mut self, _offset: usize, _memarg: MemArg) -> (op: Operator)
        ensures op == Operator::I64AtomicRmw16SubU,
    { Operator::I64AtomicRmw16SubU }

    fn visit_i64_atomic_rmw32_sub_u(&mut self, _offset: usize, _memarg: MemArg) -> (op: Operator)
        ensures op == Operator::I64AtomicRmw32SubU,
    { Operator::I64AtomicRmw32SubU }

    fn visit_i32_atomic_rmw_and(&mut self, _offset: usize, _memarg: MemArg) -> (op: Operator)
        ensures op == Operator::I32AtomicRmwAnd,
    { Operator::I32AtomicRmwAnd }

    fn visit_i64_atomic_rmw_and(&mut self, _offset: usize, _memarg: MemArg) -> (op: Operator)
        ensures op == Operator::I64AtomicRmwAnd,
    { Operator::I64AtomicRmwAnd }

    fn visit_i32_atomic_rmw8_and_u(&mut self, _offset: usize, _memarg: MemArg) -> (op: Operator)
        ensures op == Operator::I32AtomicRmw8AndU,
    { Operator::I32AtomicRmw8AndU }

    fn visit_i32_atomic_rmw16_and_u(&mut self, _offset: usize, _memarg: MemArg) -> (op: Operator)
        ensures op == Operator::I32AtomicRmw16AndU,
    { Operator::I32AtomicRmw16AndU }

    fn visit_i64_atomic_rmw8_and_u(&mut self, _offset: usize, _memarg: MemArg) -> (op: Operator)
        ensures op == Operator::I64AtomicRmw8AndU,
    { Operator::I64AtomicRmw8AndU }

    fn visit_i64_atomic_rmw16_and_u(&mut self, _offset: usize, _memarg: MemArg) -> (op: Operator)
        ensures op == Operator::I64AtomicRmw16AndU,
    { Operator::I64AtomicRmw16AndU }

    fn visit_i64_atomic_rmw32_and_u(&mut self, _offset: usize, _memarg: MemArg) -> (op: Operator)
        ensures op == Operator::I64AtomicRmw32AndU,
    { Operator::I64AtomicRmw32AndU }

    fn visit_i32_atomic_rmw_or(&mut self, _offset: usize, _memarg: MemArg) -> (op: Operator)
        ensures op == Operator::I32AtomicRmwOr,
    { Operator::I32AtomicRmwOr }

    fn visit_i64_atomic_rmw_or(&mut self, _offset: usize, _memarg: MemArg) -> (op: Operator)
        ensures op == Operator::I64AtomicRmwOr,
    { Operator::I64AtomicRmwOr }

    fn visit_i32_atomic_rmw8_or_u(&mut self, _offset: usize, _memarg: MemArg) -> (op: Operator)
        ensures op == Operator::I32AtomicRmw8OrU,
    { Operator::I32AtomicRmw8OrU }

    fn visit_i32_atomic_rmw16_or_u(&mut self, _offset: usize, _memarg: MemArg) -> (op: Operator)
        ensures op == Operator::I32AtomicRmw16OrU,
    { Operator::I32AtomicRmw16OrU }

    fn visit_i64_atomic_rmw8_or_u(&mut self, _offset: usize, _memarg: MemArg) -> (op: Operator)
        ensures op == Operator::I64AtomicRmw8OrU,
    { Operator::I64AtomicRmw8OrU }

    fn visit_i64_atomic_rmw16_or_u(&mut self, _offset: usize, _memarg: MemArg) -> (op: Operator)
        ensures op == Operator::I64AtomicRmw16OrU,
    { Operator::I64AtomicRmw16OrU }

    fn visit_i64_atomic_rmw32_or_u(&mut self, _offset: usize, _memarg: MemArg) -> (op: Operator)
        ensures op == Operator::I64AtomicRmw32OrU,
    { Operator::I64AtomicRmw32OrU }

    fn visit_i32_atomic_rmw_xor(&mut self, _offset: usize, _memarg: MemArg) -> (op: Operator)
        ensures op == Operator::I32AtomicRmwXor,
    { Operator::I32AtomicRmwXor }

    fn visit_i64_atomic_rmw_xor(&mut self, _offset: usize, _memarg: MemArg) -> (op: Operator)
        ensures op == Operator::I64AtomicRmwXor,
    { Operator::I64AtomicRmwXor }

    fn visit_i32_atomic_rmw8_xor_u(&mut self, _offset: usize, _memarg: MemArg) -> (op: Operator)
        ensures op == Operator::I32AtomicRmw8XorU,
    { Operator::I32AtomicRmw8XorU }

    fn visit_i32_atomic_rmw16_xor_u(&mut self, _offset: usize, _memarg: MemArg) -> (op: Operator)
        ensures op == Operator::I32AtomicRmw16XorU,
    { Operator::I32AtomicRmw16XorU }

    fn visit_i64_atomic_rmw8_xor_u(&mut self, _offset: usize, _memarg: MemArg) -> (op: Operator)
        ensures op == Operator::I64AtomicRmw8XorU,
    { Operator::I64AtomicRmw8XorU }

    fn visit_i64_atomic_rmw16_xor_u(&mut self, _offset: usize, _memarg: MemArg) -> (op: Operator)
        ensures op == Operator::I64AtomicRmw16XorU,
    { Operator::I64AtomicRmw16XorU }

    fn visit_i64_atomic_rmw32_xor_u(&mut self, _offset: usize, _memarg: MemArg) -> (op: Operator)
        ensures op == Operator::I64AtomicRmw32XorU,
    { Operator::I64AtomicRmw32XorU }

    fn visit_i32_atomic_rmw_xchg(&mut self, _offset: usize, _memarg: MemArg) -> (op: Operator)
        ensures op == Operator::I32AtomicRmwXchg,
    { Operator::I32AtomicRmwXchg }

    fn visit_i64_atomic_rmw_xchg(&mut self, _offset: usize, _memarg: MemArg) -> (op: Operator)
        ensures op == Operator::I64AtomicRmwXchg,
    { Operator::I64AtomicRmwXchg }

    fn visit_i32_atomic_rmw8_xchg_u(&mut self, _offset: usize, _memarg: MemArg) -> (op: Operator)
        ensures op == Operator::I32AtomicRmw8XchgU,
    { Operator::I32AtomicRmw8XchgU }

    fn visit_i32_atomic_rmw16_xchg_u(&mut self, _offset: usize, _memarg: MemArg) -> (op: Operator)
        ensures op == Operator::I32AtomicRmw16XchgU,
    { Operator::I32AtomicRmw16XchgU }

    fn visit_i64_atomic_rmw8_xchg_u(&mut self, _offset: usize, _memarg: MemArg) -> (op: Operator)
        ensures op == Operator::I64AtomicRmw8XchgU,
    { Operator::I64AtomicRmw8XchgU }

    fn visit_i64_atomic_rmw16_xchg_u(&mut self, _offset: usize, _memarg: MemArg) -> (op: Operator)
        ensures op == Operator::I64AtomicRmw16XchgU,
    { Operator::I64AtomicRmw16XchgU }

    fn visit_i64_atomic_rmw32_xchg_u(&mut self, _offset: usize, _memarg: MemArg) -> (op: Operator)
        ensures op == Operator::I64AtomicRmw32XchgU,
    { Operator::I64AtomicRmw32XchgU }

    fn visit_i32_atomic_rmw_cmpxchg(&mut self, _offset: usize, _memarg: MemArg) -> (op: Operator)
        ensures op == Operator::I32AtomicRmwCmpxchg,
    { Operator::I32AtomicRmwCmpxchg }

    fn visit_i64_atomic_rmw_cmpxchg(&mut self, _offset: usize, _memarg: MemArg) -> (op: Operator)
        ensures op == Operator::I64AtomicRmwCmpxchg,
    { Operator::I64AtomicRmwCmpxchg }

    fn visit_i32_atomic_rmw8_cmpxchg_u(
        &mut self,
        _offset: usize,
        _memarg: MemArg,
    ) -> (op: Operator)
        ensures op == Operator::I32AtomicRmw8CmpxchgU,
    { Operator::I32AtomicRmw8CmpxchgU }

    fn visit_i32_atomic_rmw16_cmpxchg_u(
        &mut self,
        _offset: usize,
        _memarg: MemArg,
    ) -> (op: Operator)
        ensures op == Operator::I32AtomicRmw16CmpxchgU,
    { Operator::I32AtomicRmw16CmpxchgU }

    fn visit_i64_atomic_rmw8_cmpxchg_u(
        &mut self,
        _offset: usize,
        _memarg: MemArg,
    ) -> (op: Operator)
        ensures op == Operator::I64AtomicRmw8CmpxchgU,
    { Operator::I64AtomicRmw8CmpxchgU }

    fn visit_i64_atomic_rmw16_cmpxchg_u(
        &mut self,
        _offset: usize,
        _memarg: MemArg,
    ) -> (op: Operator)
        ensures op == Operator::I64AtomicRmw16CmpxchgU,
    { Operator::I64AtomicRmw16CmpxchgU }

    fn visit_i64_atomic_rmw32_cmpxchg_u(
        &mut self,
        _offset: usize,
        _memarg: MemArg,
    ) -> (op: Operator)
        ensures op == Operator::I64AtomicRmw32CmpxchgU,
    { Operator::I64AtomicRmw32CmpxchgU }

    fn visit_v128_load(&mut self, _offset: usize, _memarg: MemArg) -> (op: Operator)
        ensures op == Operator::V128Load,
    { Operator::V128Load }

    fn visit_v128_load8x8_s(&mut self, _offset: usize, _memarg: MemArg) -> (op: Operator)
        ensures op == Operator::V128Load8x8S,
    { Operator::V128Load8x8S }

    fn visit_v128_load8x8_u(&mut self, _offset: usize, _memarg: MemArg) -> (op: Operator)
        ensures op == Operator::V128Load8x8U,
    { Operator::V128Load8x8U }

    fn visit_v128_load16x4_s(&mut self, _offset: usize, _memarg: MemArg) -> (op: Operator)
        ensures op == Operator::V128Load16x4S,
    { Operator::V128Load16x4S }

    fn visit_v128_load16x4_u(&mut self, _offset: usize, _memarg: MemArg) -> (op: Operator)
        ensures op == Operator::V128Load16x4U,
    { Operator::V128Load16x4U }

    fn visit_v128_load32x2_s(&mut self, _offset: usize, _memarg: MemArg) -> (op: Operator)
        ensures op == Operator::V128Load32x2S,
    { Operator::V128Load32x2S }

    fn visit_v128_load32x2_u(&mut self, _offset: usize, _memarg: MemArg) -> (op: Operator)
        ensures op == Operator::V128Load32x2U,
    { Operator::V128Load32x2U }

    fn visit_v128_load8_splat(&mut self, _offset: usize, _memarg: MemArg) -> (op: Operator)
        ensures op == Operator::V128Load8Splat,
    { Operator::V128Load8Splat }

    fn visit_v128_load16_splat(&mut self, _offset: usize, _memarg: MemArg) -> (op: Operator)
        ensures op == Operator::V128Load16Splat,
    { Operator::V128Load16Splat }

    fn visit_v128_load32_splat(&mut self, _offset: usize, _memarg: MemArg) -> (op: Operator)
        ensures op == Operator::V128Load32Splat,
    { Operator::V128Load32Splat }

    fn visit_v128_load64_splat(&mut self, _offset: usize, _memarg: MemArg) -> (op: Operator)
        ensures op == Operator::V128Load64Splat,
    { Operator::V128Load64Splat }

    fn visit_v128_load32_zero(&mut self, _offset: usize, _memarg: MemArg) -> (op: Operator)
        ensures op == Operator::V128Load32Zero,
    { Operator::V128Load32Zero }

    fn visit_v128_load64_zero(&mut self, _offset: usize, _memarg: MemArg) -> (op: Operator)
        ensures op == Operator::V128Load64Zero,
    { Operator::V128Load64Zero }

    fn visit_v128_store(&mut self, _offset: usize, _memarg: MemArg) -> (op: Operator)
        ensures op == Operator::V128Store,
    { Operator::V128Store }

    fn visit_v128_load8_lane(
        &mut self,
        _offset: usize,
        _memarg: MemArg,
        _lane: u8,
    ) -> (op: Operator)
        ensures op == Operator::V128Load8Lane,
    { Operator::V128Load8Lane }

    fn visit_v128_load16_lane(
        &mut self,
        _offset: usize,
        _memarg: MemArg,
        _lane: u8,
    ) -> (op: Operator)
        ensures op == Operator::V128Load16Lane,
    { Operator::V128Load16Lane }

    fn visit_v128_load32_lane(
        &mut self,
        _offset: usize,
        _memarg: MemArg,
        _lane: u8,
    ) -> (op: Operator)
        ensures op == Operator::V128Load32Lane,
    { Operator::V128Load32Lane }

    fn visit_v128_load64_lane(
        &mut self,
        _offset: usize,
        _memarg: MemArg,
        _lane: u8,
    ) -> (op: Operator)
        ensures op == Operator::V128Load64Lane,
    { Operator::V128Load64Lane }

    fn visit_v128_store8_lane(
        &mut self,
        _offset: usize,
        _memarg: MemArg,
        _lane: u8,
    ) -> (op: Operator)
        ensures op == Operator::V128Store8Lane,
    { Operator::V128Store8Lane }

    fn visit_v128_store16_lane(
        &mut self,
        _offset: usize,
        _memarg: MemArg,
        _lane: u8,
    ) -> (op: Operator)
        ensures op == Operator::V128Store16Lane,
    { Operator::V128Store16Lane }

    fn visit_v128_store32_lane(
        &mut self,
        _offset: usize,
        _memarg: MemArg,
        _lane: u8,
    ) -> (op: Operator)
        ensures op == Operator::V128Store32Lane,
    { Operator::V128Store32Lane }

    fn visit_v128_store64_lane(
        &mut self,
        _offset: usize,
        _memarg: MemArg,
        _lane: u8,
    ) -> (op: Operator)
        ensures op == Operator::V128Store64Lane,
    { Operator::V128Store64Lane }

    fn visit_v128_const(&mut self, _offset: usize, _value: V128) -> (op: Operator)
        ensures op == Operator::V128Const,
    { Operator::V128Const }

    fn visit_i8x16_shuffle(&mut self, _offset: usize, _lanes: [u8; 16]) -> (op: Operator)
        ensures op == Operator::I8x16Shuffle,
    { Operator::I8x16Shuffle }

    fn visit_i8x16_extract_lane_s(&mut self, _offset: usize, _lane: u8) -> (op: Operator)
        ensures op == Operator::I8x16ExtractLaneS,
    { Operator::I8x16ExtractLaneS }

    fn visit_i8x16_extract_lane_u(&mut self, _offset: usize, _lane: u8) -> (op: Operator)
        ensures op == Operator::I8x16ExtractLaneU,
    { Operator::I8x16ExtractLaneU }

    fn visit_i8x16_replace_lane(&mut self, _offset: usize, _lane: u8) -> (op: Operator)
        ensures op == Operator::I8x16ReplaceLane,
    { Operator::I8x16ReplaceLane }

    fn visit_i16x8_extract_lane_s(&mut self, _offset: usize, _lane: u8) -> (op: Operator)
        ensures op == Operator::I16x8ExtractLaneS,
    { Operator::I16x8ExtractLaneS }

    fn visit_i16x8_extract_lane_u(&mut self, _offset: usize, _lane: u8) -> (op: Operator)
        ensures op == Operator::I16x8ExtractLaneU,
    { Operator::I16x8ExtractLaneU }

    fn visit_i16x8_replace_lane(&mut self, _offset: usize, _lane: u8) -> (op: Operator)
        ensures op == Operator::I16x8ReplaceLane,
    { Operator::I16x8ReplaceLane }

    fn visit_i32x4_extract_lane(&mut self, _offset: usize, _lane: u8) -> (op: Operator)
        ensures op == Operator::I32x4ExtractLane,
    { Operator::I32x4ExtractLane }

    fn visit_i32x4_replace_lane(&mut self, _offset: usize, _lane: u8) -> (op: Operator)
        ensures op == Operator::I32x4ReplaceLane,
    { Operator::I32x4ReplaceLane }

    fn visit_i64x2_extract_lane(&mut self, _offset: usize, _lane: u8) -> (op: Operator)
        ensures op == Operator::I64x2ExtractLane,
    { Operator::I64x2ExtractLane }

    fn visit_i64x2_replace_lane(&mut self, _offset: usize, _lane: u8) -> (op: Operator)
        ensures op == Operator::I64x2ReplaceLane,
    { Operator::I64x2ReplaceLane }

    fn visit_f32x4_extract_lane(&mut self, _offset: usize, _lane: u8) -> (op: Operator)
        ensures op == Operator::F32x4ExtractLane,
    { Operator::F32x4ExtractLane }

    fn visit_f32x4_replace_lane(&mut self, _offset: usize, _lane: u8) -> (op: Operator)
        ensures op == Operator::F32x4ReplaceLane,
    { Operator::F32x4ReplaceLane }

    fn visit_f64x2_extract_lane(&mut self, _offset: usize, _lane: u8) -> (op: Operator)
        ensures op == Operator::F64x2ExtractLane,
    { Operator::F64x2ExtractLane }

    fn visit_f64x2_replace_lane(&mut self, _offset: usize, _lane: u8) -> (op: Operator)
        ensures op == Operator::F64x2ReplaceLane,
    { Operator::F64x2ReplaceLane }

    fn visit_i8x16_swizzle(&mut self, _offset: usize) -> (op: Operator)
        ensures op == Operator::I8x16Swizzle,
    { Operator::I8x16Swizzle }

    fn visit_i8x16_splat(&mut self, _offset: usize) -> (op: Operator)
        ensures op == Operator::I8x16Splat,
    { Operator::I8x16Splat }

    fn visit_i16x8_splat(&mut self, _offset: usize) -> (op: Operator)
        ensures op == Operator::I16x8Splat,
    { Operator::I16x8Splat }

    fn visit_i32x4_splat(&mut self, _offset: usize) -> (op: Operator)
        ensures op == Operator::I32x4Splat,
    { Operator::I32x4Splat }

    fn visit_i64x2_splat(&mut self, _offset: usize) -> (op: Operator)
        ensures op == Operator::I64x2Splat,
    { Operator::I64x2Splat }

    fn visit_f32x4_splat(&mut self, _offset: usize) -> (op: Operator)
        ensures op == Operator::F32x4Splat,
    { Operator::F32x4Splat }

    fn visit_f64x2_splat(&mut self, _offset: usize) -> (op: Operator)
        ensures op == Operator::F64x2Splat,
    { Operator::F64x2Splat }

    fn visit_i8x16_eq(&mut self, _offset: usize) -> (op: Operator)
        ensures op == Operator::I8x16Eq,
    { Operator::I8x16Eq }

    fn visit_i8x16_ne(&mut self, _offset: usize) -> (op: Operator)
        ensures op == Operator::I8x16Ne,
    { Operator::I8x16Ne }

    fn visit_i8x16_lt_s(&mut self, _offset: usize) -> (op: Operator)
        ensures op == Operator::I8x16LtS,
    { Operator::I8x16LtS }

    fn visit_i8x16_lt_u(&mut self, _offset: usize) -> (op: Operator)
        ensures op == Operator::I8x16LtU,
    { Operator::I8x16LtU }

    fn visit_i8x16_gt_s(&mut self, _offset: usize) -> (op: Operator)
        ensures op == Operator::I8x16GtS,
    { Operator::I8x16GtS }

    fn visit_i8x16_gt_u(&mut self, _offset: usize) -> (op: Operator)
        ensures op == Operator::I8x16GtU,
    { Operator::I8x16GtU }

    fn visit_i8x16_le_s(&mut self, _offset: usize) -> (op: Operator)
        ensures op == Operator::I8x16LeS,
    { Operator::I8x16LeS }

    fn visit_i8x16_le_u(&mut self, _offset: usize) -> (op: Operator)
        ensures op == Operator::I8x16LeU,
    { Operator::I8x16LeU }

    fn visit_i8x16_ge_s(&mut self, _offset: usize) -> (op: Operator)
        ensures op == Operator::I8x16GeS,
    { Operator::I8x16GeS }

    fn visit_i8x16_ge_u(&mut self, _offset: usize) -> (op: Operator)
        ensures op == Operator::I8x16GeU,
    { Operator::I8x16GeU }

    fn visit_i16x8_eq(&mut self, _offset: usize) -> (op: Operator)
        ensures op == Operator::I16x8Eq,
    { Operator::I16x8Eq }

    fn visit_i16x8_ne(&mut self, _offset: usize) -> (op: Operator)
        ensures op == Operator::I16x8Ne,
    { Operator::I16x8Ne }

    fn visit_i16x8_lt_s(&mut self, _offset: usize) -> (op: Operator)
        ensures op == Operator::I16x8LtS,
    { Operator::I16x8LtS }

    fn visit_i16x8_lt_u(&mut self, _offset: usize) -> (op: Operator)
        ensures op == Operator::I16x8LtU,
    { Operator::I16x8LtU }

    fn visit_i16x8_gt_s(&mut self, _offset: usize) -> (op: Operator)
        ensures op == Operator::I16x8GtS,
    { Operator::I16x8GtS }

    fn visit_i16x8_gt_u(&mut self, _offset: usize) -> (op: Operator)
        ensures op == Operator::I16x8GtU,
    { Operator::I16x8GtU }

    fn visit_i16x8_le_s(&mut self, _offset: usize) -> (op: Operator)
        ensures op == Operator::I16x8LeS,
    { Operator::I16x8LeS }

    fn visit_i16x8_le_u(&mut self, _offset: usize) -> (op: Operator)
        ensures op == Operator::I16x8LeU,
    { Operator::I16x8LeU }

    fn visit_i16x8_ge_s(&mut self, _offset: usize) -> (op: Operator)
        ensures op == Operator::I16x8GeS,
    { Operator::I16x8GeS }

    fn visit_i16x8_ge_u(&mut self, _offset: usize) -> (op: Operator)
        ensures op == Operator::I16x8GeU,
    { Operator::I16x8GeU }

    fn visit_i32x4_eq(&mut self, _offset: usize) -> (op: Operator)
        ensures op == Operator::I32x4Eq,
    { Operator::I32x4Eq }

    fn visit_i32x4_ne(&mut self, _offset: usize) -> (op: Operator)
        ensures op == Operator::I32x4Ne,
    { Operator::I32x4Ne }

    fn visit_i32x4_lt_s(&mut self, _offset: usize) -> (op: Operator)
        ensures op == Operator::I32x4LtS,
    { Operator::I32x4LtS }

    fn visit_i32x4_lt_u(&mut self, _offset: usize) -> (op: Operator)
        ensures op == Operator::I32x4LtU,
    { Operator::I32x4LtU }

    fn visit_i32x4_gt_s(&mut self, _offset: usize) -> (op: Operator)
        ensures op == Operator::I32x4GtS,
    { Operator::I32x4GtS }

    fn visit_i32x4_gt_u(&mut self, _offset: usize) -> (op: Operator)
        ensures op == Operator::I32x4GtU,
    { Operator::I32x4GtU }

    fn visit_i32x4_le_s(&mut self, _offset: usize) -> (op: Operator)
        ensures op == Operator::I32x4LeS,
    { Operator::I32x4LeS }

    fn visit_i32x4_le_u(&mut self, _offset: usize) -> (op: Operator)
        ensures op == Operator::I32x4LeU,
    { Operator::I32x4LeU }

    fn visit_i32x4_ge_s(&mut self, _offset: usize) -> (op: Operator)
        ensures op == Operator::I32x4GeS,
    { Operator::I32x4GeS }

    fn visit_i32x4_ge_u(&mut self, _offset: usize) -> (op: Operator)
        ensures op == Operator::I32x4GeU,
    { Operator::I32x4GeU }

    fn visit_i64x2_eq(&mut self, _offset: usize) -> (op: Operator)
        ensures op == Operator::I64x2Eq,
    { Operator::I64x2Eq }

    fn visit_i64x2_ne(&mut self, _offset: usize) -> (op: Operator)
        ensures op == Operator::I64x2Ne,
    { Operator::I64x2Ne }

    fn visit_i64x2_lt_s(&mut self, _offset: usize) -> (op: Operator)
        ensures op == Operator::I64x2LtS,
    { Operator::I64x2LtS }

    fn visit_i64x2_gt_s(&mut self, _offset: usize) -> (op: Operator)
        ensures op == Operator::I64x2GtS,
    { Operator::I64x2GtS }

    fn visit_i64x2_le_s(&mut self, _offset: usize) -> (op: Operator)
        ensures op == Operator::I64x2LeS,
    { Operator::I64x2LeS }

    fn visit_i64x2_ge_s(&mut self, _offset: usize) -> (op: Operator)
        ensures op == Operator::I64x2GeS,
    { Operator::I64x2GeS }

    fn visit_f32x4_eq(&mut self, _offset: usize) -> (op: Operator)
        ensures op == Operator::F32x4Eq,
    { Operator::F32x4Eq }

    fn visit_f32x4_ne(&mut self, _offset: usize) -> (op: Operator)
        ensures op == Operator::F32x4Ne,
    { Operator::F32x4Ne }

    fn visit_f32x4_lt(&mut self, _offset: usize) -> (op: Operator)
        ensures op == Operator::F32x4Lt,
    { Operator::F32x4Lt }

    fn visit_f32x4_gt(&mut self, _offset: usize) -> (op: Operator)
        ensures op == Operator::F32x4Gt,
    { Operator::F32x4Gt }

    fn visit_f32x4_le(&mut self, _offset: usize) -> (op: Operator)
        ensures op == Operator::F32x4Le,
    { Operator::F32x4Le }

    fn visit_f32x4_ge(&mut self, _offset: usize) -> (op: Operator)
        ensures op == Operator::F32x4Ge,
    { Operator::F32x4Ge }

    fn visit_f64x2_eq(&mut self, _offset: usize) -> (op: Operator)
        ensures op == Operator::F64x2Eq,
    { Operator::F64x2Eq }

    fn visit_f64x2_ne(&mut self, _offset: usize) -> (op: Operator)
        ensures op == Operator::F64x2Ne,
    { Operator::F64x2Ne }

    fn visit_f64x2_lt(&mut self, _offset: usize) -> (op: Operator)
        ensures op == Operator::F64x2Lt,
    { Operator::F64x2Lt }

    fn visit_f64x2_gt(&mut self, _offset: usize) -> (op: Operator)
        ensures op == Operator::F64x2Gt,
    { Operator::F64x2Gt }

    fn visit_f64x2_le(&mut self, _offset: usize) -> (op: Operator)
        ensures op == Operator::F64x2Le,
    { Operator::F64x2Le }

    fn visit_f64x2_ge(&mut self, _offset: usize) -> (op: Operator)
        ensures op == Operator::F64x2Ge,
    { Operator::F64x2Ge }

    fn visit_v128_not(&mut self, _offset: usize) -> (op: Operator)
        ensures op == Operator::V128Not,
    { Operator::V128Not }

    fn visit_v128_and(&mut self, _offset: usize) -> (op: Operator)
        ensures op == Operator::V128And,
    { Operator::V128And }

    fn visit_v128_andnot(&mut self, _offset: usize) -> (op: Operator)
        ensures op == Operator::V128AndNot,
    { Operator::V128AndNot }

    fn visit_v128_or(&mut self, _offset: usize) -> (op: Operator)
        ensures op == Operator::V128Or,
    { Operator::V128Or }

    fn visit_v128_xor(&mut self, _offset: usize) -> (op: Operator)
        ensures op == Operator::V128Xor,
    { Operator::V128Xor }

    fn visit_v128_bitselect(&mut self, _offset: usize) -> (op: Operator)
        ensures op == Operator::V128Bitselect,
    { Operator::V128Bitselect }

    fn visit_v128_any_true(&mut self, _offset: usize) -> (op: Operator)
        ensures op == Operator::V128AnyTrue,
    { Operator::V128AnyTrue }

    fn visit_i8x16_abs(&mut self, _offset: usize) -> (op: Operator)
        ensures op == Operator::I8x16Abs,
    { Operator::I8x16Abs }

    fn visit_i8x16_neg(&mut self, _offset: usize) -> (op: Operator)
        ensures op == Operator::I8x16Neg,
    { Operator::I8x16Neg }

    fn visit_i8x16_popcnt(&mut self, _offset: usize) -> (op: Operator)
        ensures op == Operator::I8x16Popcnt,
    { Operator::I8x16Popcnt }

    fn visit_i8x16_all_true(&mut self, _offset: usize) -> (op: Operator)
        ensures op == Operator::I8x16AllTrue,
    { Operator::I8x16AllTrue }

    fn visit_i8x16_bitmask(&mut self, _offset: usize) -> (op: Operator)
        ensures op == Operator::I8x16Bitmask,
    { Operator::I8x16Bitmask }

    fn visit_i8x16_narrow_i16x8_s(&mut self, _offset: usize) -> (op: Operator)
        ensures op == Operator::I8x16NarrowI16x8S,
    { Operator::I8x16NarrowI16x8S }

    fn visit_i8x16_narrow_i16x8_u(&mut self, _offset: usize) -> (op: Operator)
        ensures op == Operator::I8x16NarrowI16x8U,
    { Operator::I8x16NarrowI16x8U }

    fn visit_i8x16_shl(&mut self, _offset: usize) -> (op: Operator)
        ensures op == Operator::I8x16Shl,
    { Operator::I8x16Shl }

    fn visit_i8x16_shr_s(&mut self, _offset: usize) -> (op: Operator)
        ensures op == Operator::I8x16ShrS,
    { Operator::I8x16ShrS }

    fn visit_i8x16_shr_u(&mut self, _offset: usize) -> (op: Operator)
        ensures op == Operator::I8x16ShrU,
    { Operator::I8x16ShrU }

    fn visit_i8x16_add(&mut self, _offset: usize) -> (op: Operator)
        ensures op == Operator::I8x16Add,
    { Operator::I8x16Add }

    fn visit_i8x16_add_sat_s(&mut self, _offset: usize) -> (op: Operator)
        ensures op == Operator::I8x16AddSatS,
    { Operator::I8x16AddSatS }

    fn visit_i8x16_add_sat_u(&mut self, _offset: usize) -> (op: Operator)
        ensures op == Operator::I8x16AddSatU,
    { Operator::I8x16AddSatU }

    fn visit_i8x16_sub(&mut self, _offset: usize) -> (op: Operator)
        ensures op == Operator::I8x16Sub,
    { Operator::I8x16Sub }

    fn visit_i8x16_sub_sat_s(&mut self, _offset: usize) -> (op: Operator)
        ensures op == Operator::I8x16SubSatS,
    { Operator::I8x16SubSatS }

    fn visit_i8x16_sub_sat_u(&mut self, _offset: usize) -> (op: Operator)
        ensures op == Operator::I8x16SubSatU,
    { Operator::I8x16SubSatU }

    fn visit_i8x16_min_s(&mut self, _offset: usize) -> (op: Operator)
        ensures op == Operator::I8x16MinS,
    { Operator::I8x16MinS }

    fn visit_i8x16_min_u(&mut self, _offset: usize) -> (op: Operator)
        ensures op == Operator::I8x16MinU,
    { Operator::I8x16MinU }

    fn visit_i8x16_max_s(&mut self, _offset: usize) -> (op: Operator)
        ensures op == Operator::I8x16MaxS,
    { Operator::I8x16MaxS }

    fn visit_i8x16_max_u(&mut self, _offset: usize) -> (op: Operator)
        ensures op == Operator::I8x16MaxU,
    { Operator::I8x16MaxU }

    fn visit_i8x16_avgr_u(&mut self, _offset: usize) -> (op: Operator)
        ensures op == Operator::I8x16RoundingAverageU,
    { Operator::I8x16RoundingAverageU }

    fn visit_i16x8_extadd_pairwise_i8x16_s(&mut self, _offset: usize) -> (op: Operator)
        ensures op == Operator::I16x8ExtAddPairwiseI8x16S,
    { Operator::I16x8ExtAddPairwiseI8x16S }

    fn visit_i16x8_extadd_pairwise_i8x16_u(&mut self, _offset: usize) -> (op: Operator)
        ensures op == Operator::I16x8ExtAddPairwiseI8x16U,
    { Operator::I16x8ExtAddPairwiseI8x16U }

    fn visit_i16x8_abs(&mut self, _offset: usize) -> (op: Operator)
        ensures op == Operator::I16x8Abs,
    { Operator::I16x8Abs }

    fn visit_i16x8_neg(&mut self, _offset: usize) -> (op: Operator)
        ensures op == Operator::I16x8Neg,
    { Operator::I16x8Neg }

    fn visit_i16x8_q15mulr_sat_s(&mut self, _offset: usize) -> (op: Operator)
        ensures op == Operator::I16x8Q15MulrSatS,
    { Operator::I16x8Q15MulrSatS }

    fn visit_i16x8_all_true(&mut self, _offset: usize) -> (op: Operator)
        ensures op == Operator::I16x8AllTrue,
    { Operator::I16x8AllTrue }

    fn visit_i16x8_bitmask(&mut self, _offset: usize) -> (op: Operator)
        ensures op == Operator::I16x8Bitmask,
    { Operator::I16x8Bitmask }

    fn visit_i16x8_narrow_i32x4_s(&mut self, _offset: usize) -> (op: Operator)
        ensures op == Operator::I16x8NarrowI32x4S,
    { Operator::I16x8NarrowI32x4S }

    fn visit_i16x8_narrow_i32x4_u(&mut self, _offset: usize) -> (op: Operator)
        ensures op == Operator::I16x8NarrowI32x4U,
    { Operator::I16x8NarrowI32x4U }

    fn visit_i16x8_extend_low_i8x16_s(&mut self, _offset: usize) -> (op: Operator)
        ensures op == Operator::I16x8ExtendLowI8x16S,
    { Operator::I16x8ExtendLowI8x16S }

    fn visit_i16x8_extend_high_i8x16_s(&mut self, _offset: usize) -> (op: Operator)
        ensures op == Operator::I16x8ExtendHighI8x16S,
    { Operator::I16x8ExtendHighI8x16S }

    fn visit_i16x8_extend_low_i8x16_u(&mut self, _offset: usize) -> (op: Operator)
        ensures op == Operator::I16x8ExtendLowI8x16U,
    { Operator::I16x8ExtendLowI8x16U }

    fn visit_i16x8_extend_high_i8x16_u(&mut self, _offset: usize) -> (op: Operator)
        ensures op == Operator::I16x8ExtendHighI8x16U,
    { Operator::I16x8ExtendHighI8x16U }

    fn visit_i16x8_shl(&mut self, _offset: usize) -> (op: Operator)
        ensures op == Operator::I16x8Shl,
    { Operator::I16x8Shl }

    fn visit_i16x8_shr_s(&mut self, _offset: usize) -> (op: Operator)
        ensures op == Operator::I16x8ShrS,
    { Operator::I16x8ShrS }

    fn visit_i16x8_shr_u(&mut self, _offset: usize) -> (op: Operator)
        ensures op == Operator::I16x8ShrU,
    { Operator::I16x8ShrU }

    fn visit_i16x8_add(&mut self, _offset: usize) -> (op: Operator)
        ensures op == Operator::I16x8Add,
    { Operator::I16x8Add }

    fn visit_i16x8_add_sat_s(&mut self, _offset: usize) -> (op: Operator)
        ensures op == Operator::I16x8AddSatS,
    { Operator::I16x8AddSatS }

    fn visit_i16x8_add_sat_u(&mut self, _offset: usize) -> (op: Operator)
        ensures op == Operator::I16x8AddSatU,
    { Operator::I16x8AddSatU }

    fn visit_i16x8_sub(&mut self, _offset: usize) -> (op: Operator)
        ensures op == Operator::I16x8Sub,
    { Operator::I16x8Sub }

    fn visit_i16x8_sub_sat_s(&mut self, _offset: usize) -> (op: Operator)
        ensures op == Operator::I16x8SubSatS,
    { Operator::I16x8SubSatS }

    fn visit_i16x8_sub_sat_u(&mut self, _offset: usize) -> (op: Operator)
        ensures op == Operator::I16x8SubSatU,
    { Operator::I16x8SubSatU }

    fn visit_i16x8_mul(&mut self, _offset: usize) -> (op: Operator)
        ensures op == Operator::I16x8Mul,
    { Operator::I16x8Mul }

    fn visit_i16x8_min_s(&mut self, _offset: usize) -> (op: Operator)
        ensures op == Operator::I16x8MinS,
    { Operator::I16x8MinS }

    fn visit_i16x8_min_u(&mut self, _offset: usize) -> (op: Operator)
        ensures op == Operator::I16x8MinU,
    { Operator::I16x8MinU }

    fn visit_i16x8_max_s(&mut self, _offset: usize) -> (op: Operator)
        ensures op == Operator::I16x8MaxS,
    { Operator::I16x8MaxS }

    fn visit_i16x8_max_u(&mut self, _offset: usize) -> (op: Operator)
        ensures op == Operator::I16x8MaxU,
    { Operator::I16x8MaxU }

    fn visit_i16x8_avgr_u(&mut self, _offset: usize) -> (op: Operator)
        ensures op == Operator::I16x8RoundingAverageU,
    { Operator::I16x8RoundingAverageU }

    fn visit_i16x8_extmul_low_i8x16_s(&mut self, _offset: usize) -> (op: Operator)
        ensures op == Operator::I16x8ExtMulLowI8x16S,
    { Operator::I16x8ExtMulLowI8x16S }

    fn visit_i16x8_extmul_high_i8x16_s(&mut self, _offset: usize) -> (op: Operator)
        ensures op == Operator::I16x8ExtMulHighI8x16S,
    { Operator::I16x8ExtMulHighI8x16S }

    fn visit_i16x8_extmul_low_i8x16_u(&mut self, _offset: usize) -> (op: Operator)
        ensures op == Operator::I16x8ExtMulLowI8x16U,
    { Operator::I16x8ExtMulLowI8x16U }

    fn visit_i16x8_extmul_high_i8x16_u(&mut self, _offset: usize) -> (op: Operator)
        ensures op == Operator::I16x8ExtMulHighI8x16U,
    { Operator::I16x8ExtMulHighI8x16U }

    fn visit_i32x4_extadd_pairwise_i16x8_s(&mut self, _offset: usize) -> (op: Operator)
        ensures op == Operator::I32x4ExtAddPairwiseI16x8S,
    { Operator::I32x4ExtAddPairwiseI16x8S }

    fn visit_i32x4_extadd_pairwise_i16x8_u(&mut self, _offset: usize) -> (op: Operator)
        ensures op == Operator::I32x4ExtAddPairwiseI16x8U,
    { Operator::I32x4ExtAddPairwiseI16x8U }

    fn visit_i32x4_abs(&mut self, _offset: usize) -> (op: Operator)
        ensures op == Operator::I32x4Abs,
    { Operator::I32x4Abs }

    fn visit_i32x4_neg(&mut self, _offset: usize) -> (op: Operator)
        ensures op == Operator::I32x4Neg,
    { Operator::I32x4Neg }

    fn visit_i32x4_all_true(&mut self, _offset: usize) -> (op: Operator)
        ensures op == Operator::I32x4AllTrue,
    { Operator::I32x4AllTrue }

    fn visit_i32x4_bitmask(&mut self, _offset: usize) -> (op: Operator)
        ensures op == Operator::I32x4Bitmask,
    { Operator::I32x4Bitmask }

    fn visit_i32x4_extend_low_i16x8_s(&mut self, _offset: usize) -> (op: Operator)
        ensures op == Operator::I32x4ExtendLowI16x8S,
    { Operator::I32x4ExtendLowI16x8S }

    fn visit_i32x4_extend_high_i16x8_s(&mut self, _offset: usize) -> (op: Operator)
        ensures op == Operator::I32x4ExtendHighI16x8S,
    { Operator::I32x4ExtendHighI16x8S }

    fn visit_i32x4_extend_low_i16x8_u(&mut self, _offset: usize) -> (op: Operator)
        ensures op == Operator::I32x4ExtendLowI16x8U,
    { Operator::I32x4ExtendLowI16x8U }

    fn visit_i32x4_extend_high_i16x8_u(&mut self, _offset: usize) -> (op: Operator)
        ensures op == Operator::I32x4ExtendHighI16x8U,
    { Operator::I32x4ExtendHighI16x8U }

    fn visit_i32x4_shl(&mut self, _offset: usize) -> (op: Operator)
        ensures op == Operator::I32x4Shl,
    { Operator::I32x4Shl }

    fn visit_i32x4_shr_s(&mut self, _offset: usize) -> (op: Operator)
        ensures op == Operator::I32x4ShrS,
    { Operator::I32x4ShrS }

    fn visit_i32x4_shr_u(&mut self, _offset: usize) -> (op: Operator)
        ensures op == Operator::I32x4ShrU,
    { Operator::I32x4ShrU }

    fn visit_i32x4_add(&mut self, _offset: usize) -> (op: Operator)
        ensures op == Operator::I32x4Add,
    { Operator::I32x4Add }

    fn visit_i32x4_sub(&mut self, _offset: usize) -> (op: Operator)
        ensures op == Operator::I32x4Sub,
    { Operator::I32x4Sub }

    fn visit_i32x4_mul(&mut self, _offset: usize) -> (op: Operator)
        ensures op == Operator::I32x4Mul,
    { Operator::I32x4Mul }

    fn visit_i32x4_min_s(&mut self, _offset: usize) -> (op: Operator)
        ensures op == Operator::I32x4MinS,
    { Operator::I32x4MinS }

    fn visit_i32x4_min_u(&mut self, _offset: usize) -> (op: Operator)
        ensures op == Operator::I32x4MinU,
    { Operator::I32x4MinU }

    fn visit_i32x4_max_s(&mut self, _offset: usize) -> (op: Operator)
        ensures op == Operator::I32x4MaxS,
    { Operator::I32x4MaxS }

    fn visit_i32x4_max_u(&mut self, _offset: usize) -> (op: Operator)
        ensures op == Operator::I32x4MaxU,
    { Operator::I32x4MaxU }

    fn visit_i32x4_dot_i16x8_s(&mut self, _offset: usize) -> (op: Operator)
        ensures op == Operator::I32x4DotI16x8S,
    { Operator::I32x4DotI16x8S }

    fn visit_i32x4_extmul_low_i16x8_s(&mut self, _offset: usize) -> (op: Operator)
        ensures op == Operator::I32x4ExtMulLowI16x8S,
    { Operator::I32x4ExtMulLowI16x8S }

    fn visit_i32x4_extmul_high_i16x8_s(&mut self, _offset: usize) -> (op: Operator)
        ensures op == Operator::I32x4ExtMulHighI16x8S,
    { Operator::I32x4ExtMulHighI16x8S }

    fn visit_i32x4_extmul_low_i16x8_u(&mut self, _offset: usize) -> (op: Operator)
        ensures op == Operator::I32x4ExtMulLowI16x8U,
    { Operator::I32x4ExtMulLowI16x8U }

    fn visit_i32x4_extmul_high_i16x8_u(&mut self, _offset: usize) -> (op: Operator)
        ensures op == Operator::I32x4ExtMulHighI16x8U,
    { Operator::I32x4ExtMulHighI16x8U }

    fn visit_i64x2_abs(&mut self, _offset: usize) -> (op: Operator)
        ensures op == Operator::I64x2Abs,
    { Operator::I64x2Abs }

    fn visit_i64x2_neg(&mut self, _offset: usize) -> (op: Operator)
        ensures op == Operator::I64x2Neg,
    { Operator::I64x2Neg }

    fn visit_i64x2_all_true(&mut self, _offset: usize) -> (op: Operator)
        ensures op == Operator::I64x2AllTrue,
    { Operator::I64x2AllTrue }

    fn visit_i64x2_bitmask(&mut self, _offset: usize) -> (op: Operator)
        ensures op == Operator::I64x2Bitmask,
    { Operator::I64x2Bitmask }

    fn visit_i64x2_extend_low_i32x4_s(&mut self, _offset: usize) -> (op: Operator)
        ensures op == Operator::I64x2ExtendLowI32x4S,
    { Operator::I64x2ExtendLowI32x4S }

    fn visit_i64x2_extend_high_i32x4_s(&mut self, _offset: usize) -> (op: Operator)
        ensures op == Operator::I64x2ExtendHighI32x4S,
    { Operator::I64x2ExtendHighI32x4S }

    fn visit_i64x2_extend_low_i32x4_u(&mut self, _offset: usize) -> (op: Operator)
        ensures op == Operator::I64x2ExtendLowI32x4U,
    { Operator::I64x2ExtendLowI32x4U }

    fn visit_i64x2_extend_high_i32x4_u(&mut self, _offset: usize) -> (op: Operator)
        ensures op == Operator::I64x2ExtendHighI32x4U,
    { Operator::I64x2ExtendHighI32x4U }

    fn visit_i64x2_shl(&mut self, _offset: usize) -> (op: Operator)
        ensures op == Operator::I64x2Shl,
    { Operator::I64x2Shl }

    fn visit_i64x2_shr_s(&mut self, _offset: usize) -> (op: Operator)
        ensures op == Operator::I64x2ShrS,
    { Operator::I64x2ShrS }

    fn visit_i64x2_shr_u(&mut self, _offset: usize) -> (op: Operator)
        ensures op == Operator::I64x2ShrU,
    { Operator::I64x2ShrU }

    fn visit_i64x2_add(&mut self, _offset: usize) -> (op: Operator)
        ensures op == Operator::I64x2Add,
    { Operator::I64x2Add }

    fn visit_i64x2_sub(&mut self, _offset: usize) -> (op: Operator)
        ensures op == Operator::I64x2Sub,
    { Operator::I64x2Sub }

    fn visit_i64x2_mul(&mut self, _offset: usize) -> (op: Operator)
        ensures op == Operator::I64x2Mul,
    { Operator::I64x2Mul }

    fn visit_i64x2_extmul_low_i32x4_s(&mut self, _offset: usize) -> (op: Operator)
        ensures op == Operator::I64x2ExtMulLowI32x4S,
    { Operator::I64x2ExtMulLowI32x4S }

    fn visit_i64x2_extmul_high_i32x4_s(&mut self, _offset: usize) -> (op: Operator)
        ensures op == Operator::I64x2ExtMulHighI32x4S,
    { Operator::I64x2ExtMulHighI32x4S }

    fn visit_i64x2_extmul_low_i32x4_u(&mut self, _offset: usize) -> (op: Operator)
        ensures op == Operator::I64x2ExtMulLowI32x4U,
    { Operator::I64x2ExtMulLowI32x4U }

    fn visit_i64x2_extmul_high_i32x4_u(&mut self, _offset: usize) -> (op: Operator)
        ensures op == Operator::I64x2ExtMulHighI32x4U,
    { Operator::I64x2ExtMulHighI32x4U }

    fn visit_f32x4_ceil(&mut self, _offset: usize) -> (op: Operator)
        ensures op == Operator::F32x4Ceil,
    { Operator::F32x4Ceil }

    fn visit_f32x4_floor(&mut self, _offset: usize) -> (op: Operator)
        ensures op == Operator::F32x4Floor,
    { Operator::F32x4Floor }

    fn visit_f32x4_trunc(&mut self, _offset: usize) -> (op: Operator)
        ensures op == Operator::F32x4Trunc,
    { Operator::F32x4Trunc }

    fn visit_f32x4_nearest(&mut self, _offset: usize) -> (op: Operator)
        ensures op == Operator::F32x4Nearest,
    { Operator::F32x4Nearest }

    fn visit_f32x4_abs(&mut self, _offset: usize) -> (op: Operator)
        ensures op == Operator::F32x4Abs,
    { Operator::F32x4Abs }

    fn visit_f32x4_neg(&mut self, _offset: usize) -> (op: Operator)
        ensures op == Operator::F32x4Neg,
    { Operator::F32x4Neg }

    fn visit_f32x4_sqrt(&mut self, _offset: usize) -> (op: Operator)
        ensures op == Operator::F32x4Sqrt,
    { Operator::F32x4Sqrt }

    fn visit_f32x4_add(&mut self, _offset: usize) -> (op: Operator)
        ensures op == Operator::F32x4Add,
    { Operator::F32x4Add }

    fn visit_f32x4_sub(&mut self, _offset: usize) -> (op: Operator)
        ensures op == Operator::F32x4Sub,
    { Operator::F32x4Sub }

    fn visit_f32x4_mul(&mut self, _offset: usize) -> (op: Operator)
        ensures op == Operator::F32x4Mul,
    { Operator::F32x4Mul }

    fn visit_f32x4_div(&mut self, _offset: usize) -> (op: Operator)
        ensures op == Operator::F32x4Div,
    { Operator::F32x4Div }

    fn visit_f32x4_min(&mut self, _offset: usize) -> (op: Operator)
        ensures op == Operator::F32x4Min,
    { Operator::F32x4Min }

    fn visit_f32x4_max(&mut self, _offset: usize) -> (op: Operator)
        ensures op == Operator::F32x4Max,
    { Operator::F32x4Max }

    fn visit_f32x4_pmin(&mut self, _offset: usize) -> (op: Operator)
        ensures op == Operator::F32x4PMin,
    { Operator::F32x4PMin }

    fn visit_f32x4_pmax(&mut self, _offset: usize) -> (op: Operator)
        ensures op == Operator::F32x4PMax,
    { Operator::F32x4PMax }

    fn visit_f64x2_ceil(&mut self, _offset: usize) -> (op: Operator)
        ensures op == Operator::F64x2Ceil,
    { Operator::F64x2Ceil }

    fn visit_f64x2_floor(&mut self, _offset: usize) -> (op: Operator)
        ensures op == Operator::F64x2Floor,
    { Operator::F64x2Floor }

    fn visit_f64x2_trunc(&mut self, _offset: usize) -> (op: Operator)
        ensures op == Operator::F64x2Trunc,
    { Operator::F64x2Trunc }

    fn visit_f64x2_nearest(&mut self, _offset: usize) -> (op: Operator)
        ensures op == Operator::F64x2Nearest,
    { Operator::F64x2Nearest }

    fn visit_f64x2_abs(&mut self, _offset: usize) -> (op: Operator)
        ensures op == Operator::F64x2Abs,
    { Operator::F64x2Abs }

    fn visit_f64x2_neg(&mut self, _offset: usize) -> (op: Operator)
        ensures op == Operator::F64x2Neg,
    { Operator::F64x2Neg }

    fn visit_f64x2_sqrt(&mut self, _offset: usize) -> (op: Operator)
        ensures op == Operator::F64x2Sqrt,
    { Operator::F64x2Sqrt }

    fn visit_f64x2_add(&mut self, _offset: usize) -> (op: Operator)
        ensures op == Operator::F64x2Add,
    { Operator::F64x2Add }

    fn visit_f64x2_sub(&mut self, _offset: usize) -> (op: Operator)
        ensures op == Operator::F64x2Sub,
    { Operator::F64x2Sub }

    fn visit_f64x2_mul(&mut self, _offset: usize) -> (op: Operator)
        ensures op == Operator::F64x2Mul,
    { Operator::F64x2Mul }

    fn visit_f64x2_div(&mut self, _offset: usize) -> (op: Operator)
        ensures op == Operator::F64x2Div,
    { Operator::F64x2Div }

    fn visit_f64x2_min(&mut self, _offset: usize) -> (op: Operator)
        ensures op == Operator::F64x2Min,
    { Operator::F64x2Min }

    fn visit_f64x2_max(&mut self, _offset: usize) -> (op: Operator)
        ensures op == Operator::F64x2Max,
    { Operator::F64x2Max }

    fn visit_f64x2_pmin(&mut self, _offset: usize) -> (op: Operator)
        ensures op == Operator::F64x2PMin,
    { Operator::F64x2PMin }

    fn visit_f64x2_pmax(&mut self, _offset: usize) -> (op: Operator)
        ensures op == Operator::F64x2PMax,
    { Operator::F64x2PMax }

    fn visit_i32x4_trunc_sat_f32x4_s(&mut self, _offset: usize) -> (op: Operator)
        ensures op == Operator::I32x4TruncSatF32x4S,
    { Operator::I32x4TruncSatF32x4S }

    fn visit_i32x4_trunc_sat_f32x4_u(&mut self, _offset: usize) -> (op: Operator)
        ensures op == Operator::I32x4TruncSatF32x4U,
    { Operator::I32x4TruncSatF32x4U }

    fn visit_f32x4_convert_i32x4_s(&mut self, _offset: usize) -> (op: Operator)
        ensures op == Operator::F32x4ConvertI32x4S,
    { Operator::F32x4ConvertI32x4S }

    fn visit_f32x4_convert_i32x4_u(&mut self, _offset: usize) -> (op: Operator)
        ensures op == Operator::F32x4ConvertI32x4U,
    { Operator::F32x4ConvertI32x4U }

    fn visit_i32x4_trunc_sat_f64x2_s_zero(&mut self, _offset: usize) -> (op: Operator)
        ensures op == Operator::I32x4TruncSatF64x2SZero,
    { Operator::I32x4TruncSatF64x2SZero }

    fn visit_i32x4_trunc_sat_f64x2_u_zero(&mut self, _offset: usize) -> (op: Operator)
        ensures op == Operator::I32x4TruncSatF64x2UZero,
    { Operator::I32x4TruncSatF64x2UZero }

    fn visit_f64x2_convert_low_i32x4_s(&mut self, _offset: usize) -> (op: Operator)
        ensures op == Operator::F64x2ConvertLowI32x4S,
    { Operator::F64x2ConvertLowI32x4S }

    fn visit_f64x2_convert_low_i32x4_u(&mut self, _offset: usize) -> (op: Operator)
        ensures op == Operator::F64x2ConvertLowI32x4U,
    { Operator::F64x2ConvertLowI32x4U }

    fn visit_f32x4_demote_f64x2_zero(&mut self, _offset: usize) -> (op: Operator)
        ensures op == Operator::F32x4DemoteF64x2Zero,
    { Operator::F32x4DemoteF64x2Zero }

    fn visit_f64x2_promote_low_f32x4(&mut self, _offset: usize) -> (op: Operator)
        ensures op == Operator::F64x2PromoteLowF32x4,
    { Operator::F64x2PromoteLowF32x4 }

    fn visit_i8x16_relaxed_swizzle(&mut self, _offset: usize) -> (op: Operator)
        ensures op == Operator::I8x16RelaxedSwizzle,
    { Operator::I8x16RelaxedSwizzle }

    fn visit_i32x4_relaxed_trunc_sat_f32x4_s(&mut self, _offset: usize) -> (op: Operator)
        ensures op == Operator::I32x4RelaxedTruncSatF32x4S,
    { Operator::I32x4RelaxedTruncSatF32x4S }

    fn visit_i32x4_relaxed_trunc_sat_f32x4_u(&mut self, _offset: usize) -> (op: Operator)
        ensures op == Operator::I32x4RelaxedTruncSatF32x4U,
    { Operator::I32x4RelaxedTruncSatF32x4U }

    fn visit_i32x4_relaxed_trunc_sat_f64x2_s_zero(&mut self, _offset: usize) -> (op: Operator)
        ensures op == Operator::I32x4RelaxedTruncSatF64x2SZero,
    { Operator::I32x4RelaxedTruncSatF64x2SZero }

    fn visit_i32x4_relaxed_trunc_sat_f64x2_u_zero(&mut self, _offset: usize) -> (op: Operator)
        ensures op == Operator::I32x4RelaxedTruncSatF64x2UZero,
    { Operator::I32x4RelaxedTruncSatF64x2UZero }

    fn visit_f32x4_fma(&mut self, _offset: usize) -> (op: Operator)
        ensures op == Operator::F32x4Fma,
    { Operator::F32x4Fma }

    fn visit_f32x4_fms(&mut self, _offset: usize) -> (op: Operator)
        ensures op == Operator::F32x4Fms,
    { Operator::F32x4Fms }

    fn visit_f64x2_fma(&mut self, _offset: usize) -> (op: Operator)
        ensures op == Operator::F64x2Fma,
    { Operator::F64x2Fma }

    fn visit_f64x2_fms(&mut self, _offset: usize) -> (op: Operator)
        ensures op == Operator::F64x2Fms,
    { Operator::F64x2Fms }

    fn visit_i8x16_laneselect(&mut self, _offset: usize) -> (op: Operator)
        ensures op == Operator::I8x16LaneSelect,
    { Operator::I8x16LaneSelect }

    fn visit_i16x8_laneselect(&mut self, _offset: usize) -> (op: Operator)
        ensures op == Operator::I16x8LaneSelect,
    { Operator::I16x8LaneSelect }

    fn visit_i32x4_laneselect(&mut self, _offset: usize) -> (op: Operator)
        ensures op == Operator::I32x4LaneSelect,
    { Operator::I32x4LaneSelect }

    fn visit_i64x2_laneselect(&mut self, _offset: usize) -> (op: Operator)
        ensures op == Operator::I64x2LaneSelect,
    { Operator::I64x2LaneSelect }

    fn visit_f32x4_relaxed_min(&mut self, _offset: usize) -> (op: Operator)
        ensures op == Operator::F32x4RelaxedMin,
    { Operator::F32x4RelaxedMin }

    fn visit_f32x4_relaxed_max(&mut self, _offset: usize) -> (op: Operator)
        ensures op == Operator::F32x4RelaxedMax,
    { Operator::F32x4RelaxedMax }

    fn visit_f64x2_relaxed_min(&mut self, _offset: usize) -> (op: Operator)
        ensures op == Operator::F64x2RelaxedMin,
    { Operator::F64x2RelaxedMin }

    fn visit_f64x2_relaxed_max(&mut self, _offset: usize) -> (op: Operator)
        ensures op == Operator::F64x2RelaxedMax,
    { Operator::F64x2RelaxedMax }
}

} // verus!
