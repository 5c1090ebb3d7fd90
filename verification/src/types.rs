//! The WebAssembly types that the analysis reads.

use vstd::prelude::*;

verus! {

/// The type of a WebAssembly value.
#[derive(Clone, Copy, Debug, PartialEq, Eq, Structural)]
pub enum ValType {
    I32,
    I64,
    F32,
    F64,
    V128,
    FuncRef,
    ExternRef,
}

/// The type annotation of a structured control instruction.
#[derive(Clone, Copy, Debug, PartialEq, Eq, Structural)]
pub enum BlockType {
    /// The block neither consumes nor produces values.
    Empty,
    /// The block consumes nothing and produces one value.
    Type(ValType),
    /// The block has the function type with this index in the type section.
    FuncType(u32),
}

/// The type of a function.
#[derive(Clone, Debug)]
pub struct FuncType {
    pub params: Vec<ValType>,
    pub results: Vec<ValType>,
}

/// The parameters and results that a [`FuncType`] lists.
#[verifier::ext_equal]
pub struct FuncTypeView {
    pub params: Seq<ValType>,
    pub results: Seq<ValType>,
}

impl View for FuncType {
    type V = FuncTypeView;

    open spec fn view(&self) -> FuncTypeView {
        FuncTypeView { params: self.params@, results: self.results@ }
    }
}

} // verus!
