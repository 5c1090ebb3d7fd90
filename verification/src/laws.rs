//! What holds of the analysis as a whole.

use crate::config::AnalysisConfig;
use crate::model::{
    block_results, branch, entry, entry_operands, exchange, leave, pop_values, push_values,
    signature, step, steps, value_sizes, with_top, Env, FrameView,
};
use crate::operands::{larger, lemma_total_take};
use crate::operator::{producing, Operator, Signature};
use crate::types::{BlockType, ValType};
use vstd::prelude::*;

verus! {

/// The size of the operands in all the frames together.
pub open spec fn depth(frames: Seq<FrameView>) -> nat
    decreases frames.len(),
{
    if frames.len() == 0 {
        0
    } else {
        depth(frames.drop_last()) + frames.last().operands.size()
    }
}

/// The innermost frame counts: it has not been opened behind an instruction that ended one of the
/// frames around it early.
spec fn counted(frames: Seq<FrameView>) -> bool {
    frames.len() < 2 || !frames[frames.len() - 2].complete
}

/// An execution may get to the next instruction: the innermost frame has not been ended early.
pub open spec fn reached(frames: Seq<FrameView>) -> bool {
    !frames.last().complete
}

/// The state of the analysis makes sense: there is a frame for the function itself and it is a
/// plain block, the bookkeeping of every frame is right, and what lies inside of a frame that has
/// been ended early has been ended early as well.
pub open spec fn valid(frames: Seq<FrameView>) -> bool {
    &&& frames.len() > 0
    &&& frames[0].kind is Block
    &&& forall|i: int| 0 <= i < frames.len() ==> (#[trigger] frames[i]).operands.valid()
    &&& forall|i: int, j: int|
        0 <= i <= j < frames.len() && (#[trigger] frames[i]).complete ==> (
        #[trigger] frames[j]).complete
}

/// The largest size of all operands together that the frames that count have taken note of.
spec fn noted(frames: Seq<FrameView>) -> nat
    decreases frames.len(),
{
    if frames.len() == 0 {
        0
    } else {
        let outer = frames.drop_last();
        let rest = noted(outer);
        if counted(frames) {
            larger(rest, depth(outer) + frames.last().max_depth())
        } else {
            rest
        }
    }
}

/// A state that an execution may get to has been taken note of.
proof fn lemma_noted(frames: Seq<FrameView>)
    requires
        valid(frames),
    ensures
        reached(frames) ==> counted(frames) && depth(frames) <= noted(frames),
{
    assert(frames.last() == frames[frames.len() - 1]);
    if counted(frames) {
        assert(depth(frames) <= noted(frames));
    } else {
        assert(frames[frames.len() - 1].complete);
    }
}

/// Pushing operands makes the stack larger, and the last of the sizes is the largest.
proof fn lemma_push_values(frames: Seq<FrameView>, sizes: Seq<u64>)
    requires
        frames.len() > 0,
        frames.last().operands.valid(),
        push_values(frames, sizes) is Some,
    ensures
        ({
            let after = push_values(frames, sizes)->0;
            let operands = frames.last().operands;
            &&& after.len() == frames.len()
            &&& after == with_top(frames, after.last())
            &&& after.last() == frames.last().with_operands(after.last().operands)
            &&& after.last().operands.stack == operands.stack + sizes
            &&& after.last().operands.size() >= operands.size()
            &&& after.last().operands.max_size == larger(
                operands.max_size,
                after.last().operands.size(),
            )
            &&& after.last().operands.valid()
        }),
    decreases sizes.len(),
{
    if sizes.len() == 0 {
        assert(with_top(frames, frames.last()) =~= frames);
        assert(frames.last().operands.stack + sizes =~= frames.last().operands.stack);
    } else {
        lemma_push_values(frames, sizes.drop_last());
        let before = push_values(frames, sizes.drop_last())->0;
        let after = push_values(frames, sizes)->0;
        let stack = before.last().operands.stack;
        assert(stack.push(sizes.last()).drop_last() =~= stack);
        assert(after =~= with_top(frames, after.last()));
        assert(after.last().operands.stack =~= frames.last().operands.stack + sizes);
    }
}

/// What an instruction with a signature does to the innermost frame: it changes the operands, and
/// the frame takes note of how large they are then.
proof fn lemma_exchange<Cfg: AnalysisConfig>(
    cfg: &Cfg,
    frames: Seq<FrameView>,
    signature: Signature,
)
    requires
        frames.len() > 0,
        frames.last().operands.valid(),
        exchange(cfg, frames, signature) is Some,
    ensures
        ({
            let after = exchange(cfg, frames, signature)->0;
            let operands = after.last().operands;
            &&& after == with_top(frames, frames.last().with_operands(operands))
            &&& operands.stack == frames.last().operands.popped(signature.pops).stack
                + value_sizes(cfg, signature.pushes)
            &&& operands.max_size == larger(frames.last().operands.max_size, operands.size())
            &&& operands.valid()
        }),
{
    let popped = pop_values(frames, signature.pops)->0;
    let after = exchange(cfg, frames, signature)->0;
    let stack = frames.last().operands.stack;
    lemma_total_take(stack, stack.len() - signature.pops);
    lemma_push_values(popped, value_sizes(cfg, signature.pushes));
    assert(after =~= with_top(frames, frames.last().with_operands(after.last().operands)));
}

/// The innermost frame has been replaced by one that has taken note of its size, and has not
/// forgotten anything.
proof fn lemma_replaced(frames: Seq<FrameView>, top: FrameView)
    requires
        valid(frames),
        top.operands.valid(),
        top.max_depth() == larger(frames.last().max_depth(), top.operands.size()),
        frames.len() == 1 ==> top.kind is Block,
        top.complete == frames.last().complete || (top.complete && !frames.last().complete) || (
        frames.len() >= 2 && top.complete == frames[frames.len() - 2].complete),
        frames.len() >= 2 && frames[frames.len() - 2].complete ==> top.complete,
        top.complete && counted(frames) ==> top.max_depth() == frames.last().max_depth(),
    ensures
        valid(with_top(frames, top)),
        noted(with_top(frames, top)) == larger(
            noted(frames),
            if reached(with_top(frames, top)) {
                depth(with_top(frames, top))
            } else {
                0
            },
        ),
{
    let after = with_top(frames, top);
    assert(after.drop_last() =~= frames.drop_last());
    assert(counted(after) == counted(frames));
    assert forall|i: int| 0 <= i < after.len() implies (#[trigger] after[i]).operands.valid() by {
        if i < frames.len() - 1 {
            assert(after[i] == frames[i]);
        }
    }
    assert forall|i: int, j: int|
        0 <= i <= j < after.len() && (#[trigger] after[i]).complete implies (
    #[trigger] after[j]).complete by {
        if i < frames.len() - 1 {
            assert(after[i] == frames[i]);
            assert(frames[frames.len() - 2].complete);
        }
    }
}

/// The innermost frame has been left with fewer operands, and another one has been put on top.
proof fn lemma_entered(frames: Seq<FrameView>, outer: Seq<FrameView>, top: FrameView)
    requires
        valid(frames),
        exists|count: nat| pop_values(frames, count) == Some(outer),
        top.operands.valid(),
        top.max_depth() == top.operands.size(),
        top.complete == frames.last().complete,
    ensures
        valid(outer.push(top)),
        noted(outer.push(top)) == larger(
            noted(frames),
            if reached(outer.push(top)) {
                depth(outer.push(top))
            } else {
                0
            },
        ),
{
    let count = choose|count: nat| pop_values(frames, count) == Some(outer);
    let stack = frames.last().operands.stack;
    let after = outer.push(top);
    lemma_total_take(stack, stack.len() - count);
    assert(outer.drop_last() =~= frames.drop_last());
    assert(after.drop_last() =~= outer);
    assert(counted(outer) == counted(frames));
    assert(noted(outer) == noted(frames));
    assert forall|i: int| 0 <= i < after.len() implies (#[trigger] after[i]).operands.valid() by {
        if i < frames.len() - 1 {
            assert(after[i] == frames[i]);
        } else if i == frames.len() - 1 {
            assert(frames[i] == frames.last());
        }
    }
    assert forall|i: int, j: int|
        0 <= i <= j < after.len() && (#[trigger] after[i]).complete implies (
    #[trigger] after[j]).complete by {
        if i < frames.len() {
            assert(frames[i].complete);
            assert(frames[frames.len() - 1].complete);
            if j < frames.len() {
                assert(frames[j].complete);
            }
        }
    }
}

/// A frame has been opened in code that no execution gets to.
proof fn lemma_entered_unreached(frames: Seq<FrameView>, top: FrameView)
    requires
        valid(frames),
        !reached(frames),
        top.operands.valid(),
        top.complete,
    ensures
        valid(frames.push(top)),
        noted(frames.push(top)) == noted(frames),
{
    let after = frames.push(top);
    assert(after.drop_last() =~= frames);
    assert forall|i: int| 0 <= i < after.len() implies (#[trigger] after[i]).operands.valid() by {
        if i < frames.len() {
            assert(after[i] == frames[i]);
        }
    }
    assert forall|i: int, j: int|
        0 <= i <= j < after.len() && (#[trigger] after[i]).complete implies (
    #[trigger] after[j]).complete by {
        if j < frames.len() {
            assert(frames[i].complete);
            assert(frames[j].complete);
        }
    }
}

/// The frame around the innermost one has taken note of how large the two of them have been.
proof fn lemma_observed(frames: Seq<FrameView>)
    requires
        valid(frames),
        frames.len() >= 2,
        !frames[frames.len() - 2].complete,
        frames[frames.len() - 2].operands.size() + frames.last().max_depth() <= u64::MAX,
    ensures
        ({
            let outer = frames.drop_last();
            let parent = outer.last();
            let size = parent.operands.size() + frames.last().max_depth();
            let after = with_top(outer, parent.with_operands(parent.operands.observed(size)));
            valid(after) && noted(after) == noted(frames)
        }),
{
    let outer = frames.drop_last();
    let parent = outer.last();
    let size = parent.operands.size() + frames.last().max_depth();
    let after = with_top(outer, parent.with_operands(parent.operands.observed(size)));
    assert(parent == frames[frames.len() - 2]);
    assert(after.drop_last() =~= outer.drop_last());
    assert(counted(after) == counted(outer));
    assert(counted(outer)) by {
        if frames.len() >= 3 {
            assert(frames[frames.len() - 3].complete ==> frames[frames.len() - 2].complete);
        }
    }
    assert(noted(outer) == larger(
        noted(outer.drop_last()),
        depth(outer.drop_last()) + parent.max_depth(),
    ));
    assert(depth(outer) == depth(outer.drop_last()) + parent.operands.size());
    assert forall|i: int| 0 <= i < after.len() implies (#[trigger] after[i]).operands.valid() by {
        assert(frames[i].operands.valid());
    }
    assert forall|i: int, j: int|
        0 <= i <= j < after.len() && (#[trigger] after[i]).complete implies (
    #[trigger] after[j]).complete by {
        assert(frames[i].complete);
        assert(frames[j].complete);
    }
}

/// The innermost frame has been closed.
proof fn lemma_left<Cfg: AnalysisConfig>(cfg: &Cfg, env: Env, frames: Seq<FrameView>)
    requires
        valid(frames),
        leave(cfg, env, frames) is Some,
    ensures
        ({
            let after = leave(cfg, env, frames)->0;
            &&& valid(after)
            &&& noted(after) == larger(
                noted(frames),
                if reached(after) {
                    depth(after)
                } else {
                    0
                },
            )
        }),
{
    let after = leave(cfg, env, frames)->0;
    let outer = frames.drop_last();
    let parent = outer.last();
    if frames.len() < 2 {
        lemma_noted(frames);
    } else if parent.complete {
        assert forall|i: int| 0 <= i < after.len() implies (
        #[trigger] after[i]).operands.valid() by {
            assert(frames[i].operands.valid());
        }
        assert forall|i: int, j: int|
            0 <= i <= j < after.len() && (#[trigger] after[i]).complete implies (
        #[trigger] after[j]).complete by {
            assert(frames[i].complete);
            assert(frames[j].complete);
        }
    } else {
        let size = parent.operands.size() + frames.last().max_depth();
        let observed = with_top(outer, parent.with_operands(parent.operands.observed(size)));
        lemma_observed(frames);
        assert(observed.last() == observed[observed.len() - 1]);
        lemma_push_values(observed, value_sizes(cfg, block_results(env, frames.last().ty)->0));
        lemma_replaced(observed, after.last());
    }
}

/// What an instruction adds to what has been taken note of: the size of all operands after it, if
/// an execution may get there.
proof fn lemma_step<Cfg: AnalysisConfig>(cfg: &Cfg, env: Env, frames: Seq<FrameView>, op: Operator)
    requires
        valid(frames),
        step(cfg, env, frames, op) is Some,
    ensures
        ({
            let after = step(cfg, env, frames, op)->0;
            &&& valid(after)
            &&& noted(after) == larger(
                noted(frames),
                if reached(after) {
                    depth(after)
                } else {
                    0
                },
            )
        }),
{
    let after = step(cfg, env, frames, op)->0;
    assert(frames.last() == frames[frames.len() - 1]);
    match op {
        Operator::Block { ty } | Operator::Loop { ty } | Operator::If { ty } => {
            let operands = entry_operands(cfg, env, ty)->0;
            let extra: nat = if op is If {
                1
            } else {
                0
            };
            if reached(frames) {
                let outer = pop_values(frames, operands.stack.len() + extra)->0;
                lemma_entered(frames, outer, after.last());
                assert(after =~= outer.push(after.last()));
            } else {
                lemma_entered_unreached(frames, after.last());
                assert(after =~= frames.push(after.last()));
            }
        },
        Operator::Else => {
            lemma_replaced(frames, after.last());
            assert(after =~= with_top(frames, after.last()));
        },
        Operator::End => {
            lemma_left(cfg, env, frames);
        },
        Operator::Unreachable | Operator::Br | Operator::BrTable | Operator::Return
        | Operator::ReturnCall | Operator::ReturnCallIndirect => {
            if reached(frames) {
                lemma_replaced(frames, after.last());
                assert(after =~= with_top(frames, after.last()));
            }
        },
        _ => {
            if reached(frames) {
                lemma_noted(frames);
                lemma_exchange(cfg, frames, signature(env, op)->0);
                lemma_replaced(frames, after.last());
                assert(after =~= with_top(frames, after.last()));
            }
        },
    }
}

/// The analysis of a function starts in a state that makes sense.
pub proof fn law_entry_is_valid<Cfg: AnalysisConfig>(cfg: &Cfg, env: Env, function_index: u32)
    requires
        entry(cfg, env, function_index) is Some,
    ensures
        valid(entry(cfg, env, function_index)->0),
        entry(cfg, env, function_index)->0.len() == 1,
{
}

/// Every instruction that can be analysed leads from a state that makes sense to another one. In
/// particular there is at least one frame at all times.
pub proof fn law_steps_keep_validity<Cfg: AnalysisConfig>(
    cfg: &Cfg,
    env: Env,
    frames: Seq<FrameView>,
    ops: Seq<Operator>,
)
    requires
        valid(frames),
        steps(cfg, env, frames, ops) is Some,
    ensures
        valid(steps(cfg, env, frames, ops)->0),
    decreases ops.len(),
{
    if ops.len() > 0 {
        law_steps_keep_validity(cfg, env, frames, ops.drop_last());
        lemma_step(cfg, env, steps(cfg, env, frames, ops.drop_last())->0, ops.last());
    }
}

/// A sequence of instructions can only be analysed if every part of it from the start can be.
pub proof fn law_steps_take<Cfg: AnalysisConfig>(
    cfg: &Cfg,
    env: Env,
    frames: Seq<FrameView>,
    ops: Seq<Operator>,
    n: int,
)
    requires
        0 <= n <= ops.len(),
        steps(cfg, env, frames, ops) is Some,
    ensures
        steps(cfg, env, frames, ops.take(n)) is Some,
    decreases ops.len(),
{
    if n < ops.len() {
        law_steps_take(cfg, env, frames, ops.drop_last(), n);
        assert(ops.drop_last().take(n) =~= ops.take(n));
    } else {
        assert(ops.take(n) =~= ops);
    }
}

/// Analysing two sequences of instructions one after the other is analysing their concatenation.
pub proof fn law_steps_add<Cfg: AnalysisConfig>(
    cfg: &Cfg,
    env: Env,
    frames: Seq<FrameView>,
    first: Seq<Operator>,
    second: Seq<Operator>,
)
    ensures
        steps(cfg, env, frames, first + second) == match steps(cfg, env, frames, first) {
            Some(frames) => steps(cfg, env, frames, second),
            None => None,
        },
    decreases second.len(),
{
    if second.len() == 0 {
        assert(first + second =~= first);
    } else {
        law_steps_add(cfg, env, frames, first, second.drop_last());
        assert((first + second).drop_last() =~= first + second.drop_last());
    }
}

/// The frames after the first `i` of a sequence of instructions.
pub open spec fn frames_after<Cfg: AnalysisConfig>(
    cfg: &Cfg,
    env: Env,
    frames: Seq<FrameView>,
    ops: Seq<Operator>,
    i: int,
) -> Seq<FrameView> {
    steps(cfg, env, frames, ops.take(i))->0
}

/// A size is the largest that the operands of all frames together have at the start or after any of
/// the instructions. Instructions behind one that ends a frame early do not count up to the end of
/// that frame, as no execution gets to them.
pub open spec fn is_peak<Cfg: AnalysisConfig>(
    cfg: &Cfg,
    env: Env,
    frames: Seq<FrameView>,
    ops: Seq<Operator>,
    size: nat,
) -> bool {
    &&& forall|i: int|
        0 <= i <= ops.len() && reached(#[trigger] frames_after(cfg, env, frames, ops, i))
            ==> depth(frames_after(cfg, env, frames, ops, i)) <= size
    &&& exists|i: int|
        0 <= i <= ops.len() && reached(#[trigger] frames_after(cfg, env, frames, ops, i))
            && depth(frames_after(cfg, env, frames, ops, i)) == size
}

/// What the frames take note of is the peak.
proof fn lemma_noted_is_peak<Cfg: AnalysisConfig>(
    cfg: &Cfg,
    env: Env,
    frames: Seq<FrameView>,
    ops: Seq<Operator>,
)
    requires
        valid(frames),
        reached(frames),
        noted(frames) == depth(frames),
        steps(cfg, env, frames, ops) is Some,
    ensures
        valid(steps(cfg, env, frames, ops)->0),
        is_peak(cfg, env, frames, ops, noted(steps(cfg, env, frames, ops)->0)),
    decreases ops.len(),
{
    let n = ops.len() as int;
    assert(ops.take(n) =~= ops);
    if n == 0 {
        assert(frames_after(cfg, env, frames, ops, 0) == frames);
    } else {
        let before = ops.drop_last();
        lemma_noted_is_peak(cfg, env, frames, before);
        lemma_step(cfg, env, steps(cfg, env, frames, before)->0, ops.last());
        let rest = noted(steps(cfg, env, frames, before)->0);
        let size = noted(steps(cfg, env, frames, ops)->0);
        assert forall|i: int| 0 <= i < n implies #[trigger] frames_after(cfg, env, frames, ops, i)
            == frames_after(cfg, env, frames, before, i) by {
            assert(before.take(i) =~= ops.take(i));
        }
        assert(frames_after(cfg, env, frames, ops, n) == steps(cfg, env, frames, ops)->0);
        let i = choose|i: int|
            0 <= i <= before.len() && reached(
                #[trigger] frames_after(cfg, env, frames, before, i),
            ) && depth(frames_after(cfg, env, frames, before, i)) == rest;
        assert(frames_after(cfg, env, frames, ops, i) == frames_after(cfg, env, frames, before, i));
        assert(size == rest || reached(frames_after(cfg, env, frames, ops, n)));
    }
}

/// The largest size that the frame of a function has been observed to have is the most that the
/// operands of the function take up at any time, if the instructions close all the blocks that they
/// open.
pub proof fn law_max_size_is_peak<Cfg: AnalysisConfig>(
    cfg: &Cfg,
    env: Env,
    function_index: u32,
    ops: Seq<Operator>,
)
    requires
        entry(cfg, env, function_index) is Some,
        steps(cfg, env, entry(cfg, env, function_index)->0, ops) is Some,
        steps(cfg, env, entry(cfg, env, function_index)->0, ops)->0.len() == 1,
    ensures
        is_peak(
            cfg,
            env,
            entry(cfg, env, function_index)->0,
            ops,
            steps(cfg, env, entry(cfg, env, function_index)->0, ops)->0.last().operands.max_size,
        ),
{
    let start = entry(cfg, env, function_index)->0;
    reveal_with_fuel(noted, 2);
    reveal_with_fuel(depth, 2);
    assert(start.drop_last() =~= Seq::empty());
    lemma_noted_is_peak(cfg, env, start, ops);
    let after = steps(cfg, env, start, ops)->0;
    assert(after.drop_last() =~= Seq::empty());
}

/// A `drop` takes away whatever the instruction before it has put on the operand stack.
pub proof fn law_drop_undoes_producing<Cfg: AnalysisConfig>(
    cfg: &Cfg,
    env: Env,
    frames: Seq<FrameView>,
    op: Operator,
    ty: ValType,
)
    requires
        valid(frames),
        signature(env, op) == Some(producing(0, ty)),
        steps(cfg, env, frames, seq![op]) is Some,
    ensures
        steps(cfg, env, frames, seq![op, Operator::Drop]) matches Some(after) && {
            &&& after == with_top(frames, frames.last().with_operands(after.last().operands))
            &&& after.last().operands.stack == frames.last().operands.stack
        },
{
    reveal_with_fuel(steps, 3);
    assert(seq![op, Operator::Drop].drop_last() =~= seq![op]);
    assert(seq![op].drop_last() =~= Seq::empty());
    let middle = step(cfg, env, frames, op)->0;
    if reached(frames) {
        lemma_exchange(cfg, frames, producing(0, ty));
        lemma_exchange(cfg, middle, signature(env, Operator::Drop)->0);
    }
    let after = step(cfg, env, middle, Operator::Drop)->0;
    assert(after.last().operands.stack =~= frames.last().operands.stack);
    assert(after =~= with_top(frames, frames.last().with_operands(after.last().operands)));
}

/// A block without parameters that is closed right away leaves everything as it was.
pub proof fn law_empty_block_is_neutral<Cfg: AnalysisConfig>(
    cfg: &Cfg,
    env: Env,
    frames: Seq<FrameView>,
)
    requires
        valid(frames),
    ensures
        steps(
            cfg,
            env,
            frames,
            seq![Operator::Block { ty: BlockType::Empty }, Operator::End],
        ) == Some(frames),
{
    let block = Operator::Block { ty: BlockType::Empty };
    reveal_with_fuel(steps, 3);
    assert(seq![block, Operator::End].drop_last() =~= seq![block]);
    assert(seq![block].drop_last() =~= Seq::empty());
    let stack = frames.last().operands.stack;
    assert(frames.last() == frames[frames.len() - 1]);
    assert(stack.take(stack.len() as int) =~= stack);
    let middle = step(cfg, env, frames, block)->0;
    assert(middle.drop_last() =~= frames);
    assert(value_sizes(cfg, Seq::empty()) =~= Seq::empty());
    assert(leave(cfg, env, middle)->0 =~= frames);
}

/// A block that no execution gets to leaves no trace when it is closed.
pub proof fn law_unreached_block_leaves_no_trace<Cfg: AnalysisConfig>(
    cfg: &Cfg,
    env: Env,
    frames: Seq<FrameView>,
)
    requires
        valid(frames),
        frames.len() >= 2,
        !reached(frames.drop_last()),
    ensures
        leave(cfg, env, frames) == Some(frames.drop_last()),
{
}

/// An instruction that no execution gets to changes nothing, unless it opens or closes a frame.
pub proof fn law_unreached_instructions_change_nothing<Cfg: AnalysisConfig>(
    cfg: &Cfg,
    env: Env,
    frames: Seq<FrameView>,
    op: Operator,
)
    requires
        valid(frames),
        !reached(frames),
        !(op is Block || op is Loop || op is If || op is Else || op is End),
    ensures
        step(cfg, env, frames, op) == Some(frames),
{
}

/// A block that is closed leaves its results behind, on top of the operands that were there before
/// it.
pub proof fn law_closed_block_leaves_its_results<Cfg: AnalysisConfig>(
    cfg: &Cfg,
    env: Env,
    frames: Seq<FrameView>,
)
    requires
        valid(frames),
        frames.len() >= 2,
        reached(frames.drop_last()),
        leave(cfg, env, frames) is Some,
    ensures
        block_results(env, frames.last().ty) is Some,
        leave(cfg, env, frames)->0.len() == frames.len() - 1,
        leave(cfg, env, frames)->0.last().operands.stack == frames[frames.len()
            - 2].operands.stack + value_sizes(cfg, block_results(env, frames.last().ty)->0),
{
    let outer = frames.drop_last();
    let parent = outer.last();
    let size = parent.operands.size() + frames.last().max_depth();
    let observed = with_top(outer, parent.with_operands(parent.operands.observed(size)));
    assert(parent == frames[frames.len() - 2]);
    lemma_push_values(observed, value_sizes(cfg, block_results(env, frames.last().ty)->0));
}

/// All unconditional control flow instructions end the innermost frame and do nothing else.
pub proof fn law_unconditional_control_flow<Cfg: AnalysisConfig>(
    cfg: &Cfg,
    env: Env,
    frames: Seq<FrameView>,
    op: Operator,
)
    requires
        valid(frames),
        op is Unreachable || op is Br || op is BrTable || op is Return || op is ReturnCall
            || op is ReturnCallIndirect,
    ensures
        step(cfg, env, frames, op) matches Some(after) && {
            &&& after.len() == frames.len()
            &&& after.last() == (FrameView { complete: true, ..frames.last() })
            &&& after.drop_last() == frames.drop_last()
        },
{
    assert(branch(frames).drop_last() =~= frames.drop_last());
}

} // verus!
