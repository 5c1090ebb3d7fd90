//! The sizes that an execution environment gives to the things it keeps on its stack.

use crate::types::ValType;
use vstd::pervasive::arbitrary;
use vstd::prelude::*;
use vstd::std_specs::iter::IteratorSpec;

verus! {

/// How much of the stack the values, labels and activations of functions take up.
///
/// Each of the three sizes depends on nothing but the configuration and the arguments. An
/// implementation that is verified says by the first three functions what the sizes are. One that
/// is not verified leaves these functions alone. It then has the definitions below, by which a size
/// is some constant that is the same for all types and locals; this is not meant to be true of the
/// implementation, and nothing that is proved of the analysis makes use of it.
pub trait AnalysisConfig {
    /// The size of a value of type `ty`.
    closed spec fn value_size(&self, ty: ValType) -> u64 {
        arbitrary()
    }

    /// The size of a label.
    closed spec fn label_size(&self) -> u64 {
        arbitrary()
    }

    /// The size of the activation of a function with these locals, given as runs of locals of the
    /// same type.
    closed spec fn activation_size(&self, locals: Seq<(u32, ValType)>) -> u64 {
        arbitrary()
    }

    fn size_of_value(&self, ty: ValType) -> (size: u64)
        ensures
            size == self.value_size(ty),
    ;

    fn size_of_label(&self) -> (size: u64)
        ensures
            size == self.label_size(),
    ;

    fn size_of_function_activation<Locals: Iterator<Item = (u32, ValType)>>(
        &self,
        locals: Locals,
    ) -> (size: u64)
        ensures
            locals.obeys_prophetic_iter_laws() ==> size == self.activation_size(
                locals.remaining(),
            ),
    ;
}

} // verus!
