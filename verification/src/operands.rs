//! The operand stack of one control frame.

use vstd::prelude::*;

verus! {

/// The sum of a sequence of sizes.
pub open spec fn total(sizes: Seq<u64>) -> nat
    decreases sizes.len(),
{
    if sizes.len() == 0 {
        0
    } else {
        total(sizes.drop_last()) + sizes.last() as nat
    }
}

/// The larger of two sizes.
pub open spec fn larger(a: nat, b: nat) -> nat {
    if a >= b {
        a
    } else {
        b
    }
}

/// An operand stack: the size of each operand, the last one on top, and the largest total size
/// that the stack has been observed to have.
#[verifier::ext_equal]
pub struct OperandsView {
    pub stack: Seq<u64>,
    pub max_size: nat,
}

impl OperandsView {
    /// The total size of the operands on the stack.
    pub open spec fn size(self) -> nat {
        total(self.stack)
    }

    /// The stack after an operand has been put on top of it.
    pub open spec fn pushed(self, value_size: u64) -> OperandsView {
        OperandsView {
            stack: self.stack.push(value_size),
            max_size: larger(self.size() + value_size as nat, self.max_size),
        }
    }

    /// The stack after the topmost `count` operands have been taken off it.
    pub open spec fn popped(self, count: nat) -> OperandsView {
        OperandsView { stack: self.stack.take(self.stack.len() - count), max_size: self.max_size }
    }

    /// The stack once it is known that it has been `size` large at some point.
    pub open spec fn observed(self, size: nat) -> OperandsView {
        OperandsView { stack: self.stack, max_size: larger(size, self.max_size) }
    }

    /// The current size is one of the observed sizes, and all of them fit in a machine word.
    pub open spec fn valid(self) -> bool {
        self.size() <= self.max_size <= u64::MAX
    }
}

/// A stack that holds operands of these sizes and has never held anything else.
pub open spec fn initial_operands(sizes: Seq<u64>) -> OperandsView {
    OperandsView { stack: sizes, max_size: total(sizes) }
}

/// Sizes of the operands currently pushed to the operand stack within one frame.
///
/// Some instructions are parametric, that is, they do not specify the type of the values that they
/// operate on. An analysis can only tell what such an instruction does to the size of the frame if
/// it keeps an accurate representation of the operand stack at all times. A `drop` takes away
/// whatever the last instruction that produced a value has put there:
///
/// ```wast
/// (i32.const 42)
/// (i64.const 42)
/// drop
/// (f32.const 42.0)
/// ```
///
/// Only the sizes of the operands matter, not their types.
#[derive(Clone, Debug)]
pub struct Operands {
    stack: Vec<u64>,
    /// Sum of all values in the `stack` field above.
    size: u64,
    /// Maximum observed value for size.
    max_size: u64,
}

impl View for Operands {
    type V = OperandsView;

    closed spec fn view(&self) -> OperandsView {
        OperandsView { stack: self.stack@, max_size: self.max_size as nat }
    }
}

impl Operands {
    /// The bookkeeping fields agree with the stack.
    pub closed spec fn wf(&self) -> bool {
        &&& self.size == total(self.stack@)
        &&& self.size <= self.max_size
    }

    /// A stack has no more operands than a machine can count.
    pub proof fn lemma_len(&self)
        ensures
            self@.stack.len() <= usize::MAX,
    {
        assert(self.stack@.len() == self.stack.len());
    }

    /// A stack without operands.
    pub fn new() -> (operands: Self)
        ensures
            operands.wf(),
            operands@ == initial_operands(Seq::empty()),
    {
        Operands { stack: Vec::new(), size: 0, max_size: 0 }
    }

    /// A stack with operands of the given sizes, or nothing if their sum is too large.
    pub fn from_sizes(stack: Vec<u64>) -> (operands: Option<Self>)
        ensures
            operands is Some <==> total(stack@) <= u64::MAX,
            operands matches Some(operands) ==> operands.wf() && operands@ == initial_operands(
                stack@,
            ),
    {
        let mut size: u64 = 0;
        for i in 0..stack.len()
            invariant
                size == total(stack@.take(i as int)),
        {
            proof {
                assert(stack@.take(i + 1).drop_last() =~= stack@.take(i as int));
                lemma_total_take(stack@, i + 1);
            }
            if stack[i] > u64::MAX - size {
                return None;
            }
            size = size + stack[i];
        }
        assert(stack@.take(stack@.len() as int) =~= stack@);
        Some(Operands { stack, size, max_size: size })
    }

    /// The number of operands on the stack.
    pub fn len(&self) -> (len: usize)
        ensures
            len == self@.stack.len(),
    {
        self.stack.len()
    }

    /// The total size of the operands on the stack.
    pub fn size(&self) -> (size: u64)
        requires
            self.wf(),
        ensures
            size == self@.size(),
    {
        self.size
    }

    /// The largest total size that the stack has been observed to have.
    pub fn max_size(&self) -> (max_size: u64)
        ensures
            max_size == self@.max_size,
    {
        self.max_size
    }

    /// Takes note that the stack has been `size` large at some point.
    pub fn observe(&mut self, size: u64)
        requires
            old(self).wf(),
        ensures
            final(self).wf(),
            final(self)@ == old(self)@.observed(size as nat),
    {
        if size > self.max_size {
            self.max_size = size;
        }
    }

    /// Puts an operand on top of the stack.
    pub fn push(&mut self, value_size: u64) -> (operands: &mut Self)
        requires
            old(self).wf(),
            old(self)@.size() + value_size <= u64::MAX,
        ensures
            operands.wf(),
            operands@ == old(self)@.pushed(value_size),
            *final(self) == *final(operands),
    {
        proof {
            assert(self.stack@.push(value_size).drop_last() =~= self.stack@);
        }
        self.stack.push(value_size);
        self.size = self.size + value_size;
        if self.size > self.max_size {
            self.max_size = self.size;
        }
        self
    }

    /// Takes the topmost operand off the stack.
    pub fn pop(&mut self) -> (operands: &mut Self)
        requires
            old(self).wf(),
            old(self)@.stack.len() > 0,
        ensures
            operands.wf(),
            operands@ == old(self)@.popped(1),
            *final(self) == *final(operands),
    {
        self.pop_multiple(1)
    }

    /// Takes the topmost `count` operands off the stack.
    pub fn pop_multiple(&mut self, count: usize) -> (operands: &mut Self)
        requires
            old(self).wf(),
            count <= old(self)@.stack.len(),
        ensures
            operands.wf(),
            operands@ == old(self)@.popped(count as nat),
            *final(self) == *final(operands),
    {
        let ghost before = self.stack@;
        let mut popped: usize = 0;
        while popped < count
            invariant
                popped <= count <= before.len(),
                self.stack@ == before.take(before.len() - popped),
                self.size == total(self.stack@),
                self.size <= self.max_size,
                self.max_size == old(self).max_size,
            decreases count - popped,
        {
            proof {
                assert(self.stack@.drop_last() =~= before.take(before.len() - popped - 1));
            }
            if let Some(value_size) = self.stack.pop() {
                self.size = self.size - value_size;
            }
            popped = popped + 1;
        }
        self
    }
}

/// A part of the operands is no larger than all of them.
pub proof fn lemma_total_take(sizes: Seq<u64>, n: int)
    requires
        0 <= n <= sizes.len(),
    ensures
        total(sizes.take(n)) <= total(sizes),
    decreases sizes.len() - n,
{
    if n < sizes.len() {
        lemma_total_take(sizes, n + 1);
        assert(sizes.take(n + 1).drop_last() =~= sizes.take(n));
    } else {
        assert(sizes.take(n) =~= sizes);
    }
}

/// Taking off as many operands as have been put on restores the stack.
pub proof fn law_pop_multiple_undoes_pushes(operands: OperandsView, sizes: Seq<u64>)
    ensures
        pushed_all(operands, sizes).popped(sizes.len()).stack == operands.stack,
        pushed_all(operands, sizes).popped(sizes.len()).size() == operands.size(),
        pushed_all(operands, sizes).popped(sizes.len()).max_size >= operands.max_size,
    decreases sizes.len(),
{
    lemma_pushed_all(operands, sizes);
    assert(pushed_all(operands, sizes).popped(sizes.len()).stack =~= operands.stack);
}

/// The stack after operands have been put on top of it, one after the other.
pub open spec fn pushed_all(operands: OperandsView, sizes: Seq<u64>) -> OperandsView
    decreases sizes.len(),
{
    if sizes.len() == 0 {
        operands
    } else {
        pushed_all(operands, sizes.drop_last()).pushed(sizes.last())
    }
}

/// What is on the stack after operands have been put on top of it.
proof fn lemma_pushed_all(operands: OperandsView, sizes: Seq<u64>)
    ensures
        pushed_all(operands, sizes).stack == operands.stack + sizes,
        pushed_all(operands, sizes).max_size >= operands.max_size,
    decreases sizes.len(),
{
    if sizes.len() == 0 {
        assert(operands.stack + sizes =~= operands.stack);
    } else {
        lemma_pushed_all(operands, sizes.drop_last());
        assert(operands.stack + sizes =~= (operands.stack + sizes.drop_last()).push(sizes.last()));
    }
}

/// Something that can be done to an operand stack.
pub enum Change {
    Push(u64),
    Pop(nat),
}

/// The stack after a number of changes, if there was something to take off whenever one of them
/// takes operands off.
pub open spec fn changed(operands: OperandsView, changes: Seq<Change>) -> Option<OperandsView>
    decreases changes.len(),
{
    if changes.len() == 0 {
        Some(operands)
    } else {
        match changed(operands, changes.drop_last()) {
            Some(operands) => match changes.last() {
                Change::Push(size) => Some(operands.pushed(size)),
                Change::Pop(count) => if count <= operands.stack.len() {
                    Some(operands.popped(count))
                } else {
                    None
                },
            },
            None => None,
        }
    }
}

/// The size of the stack after the first `i` of a number of changes.
pub open spec fn size_after(operands: OperandsView, changes: Seq<Change>, i: int) -> nat {
    changed(operands, changes.take(i))->0.size()
}

/// The observed maximum of a stack is the largest of the sizes that it has had so far.
pub proof fn law_max_size_is_largest_size(sizes: Seq<u64>, changes: Seq<Change>)
    requires
        changed(initial_operands(sizes), changes) is Some,
    ensures
        ({
            let start = initial_operands(sizes);
            let max_size = changed(start, changes)->0.max_size;
            &&& forall|i: int|
                0 <= i <= changes.len() ==> #[trigger] size_after(start, changes, i) <= max_size
            &&& exists|i: int|
                0 <= i <= changes.len() && #[trigger] size_after(start, changes, i) == max_size
        }),
    decreases changes.len(),
{
    let start = initial_operands(sizes);
    let n = changes.len() as int;
    assert(changes.take(n) =~= changes);
    if n == 0 {
        assert(size_after(start, changes, 0) == start.size());
    } else {
        let before = changes.drop_last();
        law_max_size_is_largest_size(sizes, before);
        let max_size = changed(start, before)->0.max_size;
        let stack = changed(start, before)->0.stack;
        assert forall|i: int| 0 <= i < n implies #[trigger] size_after(start, changes, i)
            == size_after(start, before, i) by {
            assert(before.take(i) =~= changes.take(i));
        }
        assert(before.take(n - 1) =~= before);
        assert(size_after(start, before, n - 1) <= max_size);
        match changes.last() {
            Change::Push(size) => {
                assert(stack.push(size).drop_last() =~= stack);
            },
            Change::Pop(count) => {
                lemma_total_take(stack, stack.len() - count);
            },
        }
        let i = choose|i: int|
            0 <= i <= before.len() && #[trigger] size_after(start, before, i) == max_size;
        assert(size_after(start, changes, i) == max_size);
        assert(size_after(start, changes, n) == changed(start, changes)->0.size());
    }
}

/// The size of a stack is nothing if it is empty, grows by the size of every operand that is put on
/// it, and is the sum of the sizes of any two parts of it.
pub proof fn law_total(sizes: Seq<u64>, size: u64, others: Seq<u64>)
    ensures
        total(Seq::empty()) == 0,
        total(sizes.push(size)) == total(sizes) + size,
        total(sizes + others) == total(sizes) + total(others),
    decreases others.len(),
{
    assert(sizes.push(size).drop_last() =~= sizes);
    if others.len() == 0 {
        assert(sizes + others =~= sizes);
    } else {
        law_total(sizes, size, others.drop_last());
        assert((sizes + others).drop_last() =~= sizes + others.drop_last());
    }
}

/// An operand that is put on the stack is on top of all the others. The maximum is raised to the
/// size that the stack then has, if it was less.
pub proof fn law_push(operands: OperandsView, value_size: u64)
    ensures
        ({
            let after = operands.pushed(value_size);
            let size = total(operands.stack) + value_size;
            &&& after.stack.len() == operands.stack.len() + 1
            &&& after.stack.last() == value_size
            &&& after.stack.drop_last() == operands.stack
            &&& after.size() == size
            &&& after.max_size >= operands.max_size
            &&& after.max_size >= size
            &&& after.max_size == operands.max_size || after.max_size == size
        }),
{
    law_total(operands.stack, value_size, Seq::empty());
    assert(operands.stack.push(value_size).drop_last() =~= operands.stack);
}

/// Operands are taken off the top of the stack. What is below them stays, and so does the maximum.
pub proof fn law_pop(operands: OperandsView, count: nat)
    requires
        count <= operands.stack.len(),
    ensures
        ({
            let after = operands.popped(count);
            &&& after.stack.len() == operands.stack.len() - count
            &&& forall|i: int| 0 <= i < after.stack.len() ==> after.stack[i] == operands.stack[i]
            &&& after.max_size == operands.max_size
            &&& after.size() <= operands.size()
        }),
{
    lemma_total_take(operands.stack, operands.stack.len() - count);
}

/// An observed size raises the maximum, if that was less, and does nothing to the stack.
pub proof fn law_observe(operands: OperandsView, size: nat)
    ensures
        operands.observed(size).stack == operands.stack,
        operands.observed(size).max_size >= operands.max_size,
        operands.observed(size).max_size >= size,
        operands.observed(size).max_size == operands.max_size || operands.observed(size).max_size
            == size,
{
}

/// The maximum of a stack that has not been used is its size.
pub proof fn law_initial(sizes: Seq<u64>)
    ensures
        initial_operands(sizes).stack == sizes,
        initial_operands(sizes).size() == total(sizes),
        initial_operands(sizes).max_size == total(sizes),
{
}

} // verus!
