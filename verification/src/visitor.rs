//! The analysis of the body of a function.

use crate::config::AnalysisConfig;
use crate::model::{
    block_results, branch, call_signature, enter, entry, entry_operands, exchange, leave,
    pop_values, push_value, push_values, signature, step, turn_to_else, unreached_step,
    value_sizes, with_top, Env, FrameKind, FrameView,
};
use crate::operands::Operands;
use crate::operator::{consuming, producing, Operator, Shape, Signature};
use crate::partial_sum::PartialSumMap;
use crate::types::{BlockType, FuncType, FuncTypeView, ValType};
use vstd::prelude::*;

verus! {

/// A regular frame produced by instructions such as `block`, `if` and such. One of these frames is
/// also implicitly created on an entry to a function.
#[derive(Debug)]
pub struct BlockInfo {
    pub ty: BlockType,
    pub operands: Operands,
    /// This block has been "terminated" by an unconditional control flow instruction
    /// (`unreachable`, `br`, `br_table`, `return`, etc.)
    pub complete: bool,
}

impl BlockInfo {
    /// The frame that this is the state of.
    pub open spec fn as_frame(&self, kind: FrameKind) -> FrameView {
        FrameView { kind, ty: self.ty, operands: self.operands@, complete: self.complete }
    }
}

/// A control frame.
#[derive(Debug)]
pub enum Frame {
    /// A frame produced by the `block` instruction.
    ///
    /// One of these frames is also implicitly created on an entry to a function.
    Block(BlockInfo),
    /// A frame produced by the `if` instruction.
    If(BlockInfo),
    /// A frame produced by the `if` instruction, in the `else` branch.
    Else { if_max_depth: u64, else_block: BlockInfo },
    /// A frame produced by instructions such as `loop`. These differ from a regular block in that
    /// branches target the beginning of the frame (i.e. looping), rather than exiting the frame.
    Loop(BlockInfo),
}

impl View for Frame {
    type V = FrameView;

    open spec fn view(&self) -> FrameView {
        self.info().as_frame(self.kind())
    }
}

impl Frame {
    /// The construct that the frame belongs to.
    pub open spec fn kind(&self) -> FrameKind {
        match self {
            Frame::Block(_) => FrameKind::Block,
            Frame::If(_) => FrameKind::If,
            Frame::Else { if_max_depth, .. } => FrameKind::Else {
                if_max_depth: *if_max_depth as nat,
            },
            Frame::Loop(_) => FrameKind::Loop,
        }
    }

    /// The state of the block.
    pub open spec fn info(&self) -> BlockInfo {
        match self {
            Frame::Block(info) => *info,
            Frame::If(info) => *info,
            Frame::Else { else_block, .. } => *else_block,
            Frame::Loop(info) => *info,
        }
    }

    /// The same construct with another state of the block.
    pub open spec fn with_info(&self, info: BlockInfo) -> Frame {
        match self {
            Frame::Block(_) => Frame::Block(info),
            Frame::If(_) => Frame::If(info),
            Frame::Else { if_max_depth, .. } => Frame::Else {
                if_max_depth: *if_max_depth,
                else_block: info,
            },
            Frame::Loop(_) => Frame::Loop(info),
        }
    }
}

/// The frames that a list of frames stands for.
pub open spec fn frame_views(frames: Seq<Frame>) -> Seq<FrameView> {
    frames.map_values(|frame: Frame| frame@)
}

/// The types that a list of types stands for.
pub open spec fn type_views(types: Seq<FuncType>) -> Seq<FuncTypeView> {
    types.map_values(|ty: FuncType| ty@)
}

/// Follows the instructions of a function and keeps account of the stack that they use.
pub struct StackSizeVisitor<'a, Cfg> {
    pub config: &'a Cfg,
    pub functions: &'a [u32],
    pub types: &'a [FuncType],
    pub globals: &'a [ValType],
    /// The parameters of the function.
    pub params: &'a [ValType],
    /// The locals that the function declares.
    pub locals: &'a PartialSumMap<u32, ValType>,
    pub frames: Vec<Frame>,
}

impl<'a, Cfg: AnalysisConfig> StackSizeVisitor<'a, Cfg> {
    /// The part of the module that the function refers to.
    pub open spec fn env(&self) -> Env {
        Env {
            types: type_views(self.types@),
            functions: self.functions@,
            globals: self.globals@,
            locals: self.params@ + self.locals@,
        }
    }

    /// The control frames that are open.
    pub open spec fn open_frames(&self) -> Seq<FrameView> {
        frame_views(self.frames@)
    }

    /// All parts of the visitor are well-formed.
    pub open spec fn wf(&self) -> bool {
        &&& self.locals.wf()
        &&& forall|i: int|
            0 <= i < self.frames@.len() ==> (#[trigger] self.frames@[i]).info().operands.wf()
    }

    /// The visitor is well-formed and inside of a function.
    pub open spec fn active(&self) -> bool {
        &&& self.wf()
        &&& self.frames@.len() > 0
    }

    /// The visitor is the same but for its frames.
    pub open spec fn same_function(&self, other: &Self) -> bool {
        &&& self.config == other.config
        &&& self.functions == other.functions
        &&& self.types == other.types
        &&& self.globals == other.globals
        &&& self.params == other.params
        &&& self.locals == other.locals
    }

    /// The visitor has gone from `before` on to `frames`, or there was nowhere to go.
    pub open spec fn moved(
        &self,
        before: &Self,
        frames: Option<Seq<FrameView>>,
        done: Option<()>,
    ) -> bool {
        &&& done is Some <==> frames is Some
        &&& frames matches Some(frames) ==> {
            &&& self.active()
            &&& self.same_function(before)
            &&& self.open_frames() == frames
        }
    }

    /// The visitor has followed an instruction with this signature, or that was not possible.
    pub open spec fn exchanged(
        &self,
        before: &Self,
        signature: Signature,
        done: Option<()>,
    ) -> bool {
        self.moved(before, exchange(before.config, before.open_frames(), signature), done)
    }

    /// Get the frame at the specified depth.
    ///
    /// The frame at 0 depth is the "current" frame, the frame 1 level deep is the current frame's
    /// parent, etc.
    fn frame(&mut self, depth: usize) -> (frame: Option<&mut Frame>)
        ensures
            frame is Some <==> depth < old(self).frames@.len(),
            match frame {
                Some(frame) => {
                    let index = old(self).frames@.len() - 1 - depth;
                    &&& *frame == old(self).frames@[index]
                    &&& final(self).frames@ == old(self).frames@.update(index, *final(frame))
                    &&& final(self).same_function(old(self))
                },
                None => *final(self) == *old(self),
            },
    {
        if depth < self.frames.len() {
            let index: usize = self.frames.len() - 1 - depth;
            Some(&mut self.frames[index])
        } else {
            None
        }
    }

    /// Get the block info for the frame at the specified depth.
    fn block_info(&mut self, depth: usize) -> (info: Option<&mut BlockInfo>)
        ensures
            info is Some <==> depth < old(self).frames@.len(),
            match info {
                Some(info) => {
                    let index = old(self).frames@.len() - 1 - depth;
                    let frame = old(self).frames@[index];
                    &&& *info == frame.info()
                    &&& final(self).frames@ == old(self).frames@.update(
                        index,
                        frame.with_info(*final(info)),
                    )
                    &&& final(self).same_function(old(self))
                },
                None => *final(self) == *old(self),
            },
    {
        match self.frame(depth) {
            Some(Frame::Block(info)) => Some(info),
            Some(Frame::If(info)) => Some(info),
            Some(Frame::Else { else_block, .. }) => Some(else_block),
            Some(Frame::Loop(info)) => Some(info),
            None => None,
        }
    }

    /// Get the block info for the current frame.
    fn current_block_info(&mut self) -> (info: &mut BlockInfo)
        requires
            old(self).frames@.len() > 0,
        ensures
            *info == old(self).frames@.last().info(),
            final(self).frames@ == old(self).frames@.drop_last().push(
                old(self).frames@.last().with_info(*final(info)),
            ),
            final(self).same_function(old(self)),
    {
        let ghost frames = self.frames@;
        proof {
            assert forall|frame: Frame| #[trigger]
                frames.update(frames.len() - 1, frame) == frames.drop_last().push(frame) by {
                assert(frames.update(frames.len() - 1, frame) =~= frames.drop_last().push(frame));
            }
        }
        self.block_info(0).unwrap()
    }

    /// The type with this index, if there is one.
    fn ty(&self, type_index: u32) -> (ty: Option<&FuncType>)
        ensures
            match ty {
                Some(ty) => self.env().ty(type_index) == Some(ty@),
                None => self.env().ty(type_index) is None,
            },
    {
        if (type_index as usize) < self.types.len() {
            Some(&self.types[type_index as usize])
        } else {
            None
        }
    }

    /// The index of the type of a function, if there is such a function.
    fn function_type_index(&self, function_index: u32) -> (type_index: Option<u32>)
        ensures
            type_index == self.env().function_type_index(function_index),
    {
        if (function_index as usize) < self.functions.len() {
            Some(self.functions[function_index as usize])
        } else {
            None
        }
    }

    /// Puts a value of this type on the operand stack.
    fn push(&mut self, val: ValType) -> (done: Option<()>)
        requires
            old(self).active(),
        ensures
            final(self).moved(
                old(self),
                push_value(old(self).open_frames(), old(self).config.value_size(val)),
                done,
            ),
    {
        let size = self.config.size_of_value(val);
        let info = self.current_block_info();
        if size > u64::MAX - info.operands.size() {
            return None;
        }
        info.operands.push(size);
        proof {
            lemma_with_top(old(self).frames@, self.frames@.last());
        }
        Some(())
    }

    /// Takes `len` values off the operand stack.
    fn pop_multiple(&mut self, len: usize) -> (done: Option<()>)
        requires
            old(self).active(),
        ensures
            final(self).moved(old(self), pop_values(old(self).open_frames(), len as nat), done),
    {
        let info = self.current_block_info();
        if len > info.operands.len() {
            return None;
        }
        info.operands.pop_multiple(len);
        proof {
            lemma_with_top(old(self).frames@, self.frames@.last());
        }
        Some(())
    }

    /// Takes one value off the operand stack.
    fn pop(&mut self) -> (done: Option<()>)
        requires
            old(self).active(),
        ensures
            final(self).exchanged(old(self), consuming(1), done),
    {
        proof {
            lemma_exchange(self.config, self.open_frames(), 1, ValType::I32);
        }
        self.pop_multiple(1)
    }

    /// Takes two values off the operand stack.
    fn pop2(&mut self) -> (done: Option<()>)
        requires
            old(self).active(),
        ensures
            final(self).exchanged(old(self), consuming(2), done),
    {
        proof {
            lemma_exchange(self.config, self.open_frames(), 2, ValType::I32);
        }
        self.pop_multiple(2)
    }

    /// Takes three values off the operand stack.
    fn pop3(&mut self) -> (done: Option<()>)
        requires
            old(self).active(),
        ensures
            final(self).exchanged(old(self), consuming(3), done),
    {
        proof {
            lemma_exchange(self.config, self.open_frames(), 3, ValType::I32);
        }
        self.pop_multiple(3)
    }

    /// Two operands make a value of this type.
    fn binop(&mut self, ty: ValType) -> (done: Option<()>)
        requires
            old(self).active(),
        ensures
            final(self).exchanged(old(self), producing(2, ty), done),
    {
        proof {
            lemma_exchange(self.config, self.open_frames(), 2, ty);
        }
        self.pop2()?;
        self.push(ty)
    }

    /// One operand makes a truth value.
    fn testop(&mut self) -> (done: Option<()>)
        requires
            old(self).active(),
        ensures
            final(self).exchanged(old(self), producing(1, ValType::I32), done),
    {
        proof {
            lemma_exchange(self.config, self.open_frames(), 1, ValType::I32);
        }
        self.pop()?;
        self.push(ValType::I32)
    }

    /// Two operands make a truth value.
    fn relop(&mut self) -> (done: Option<()>)
        requires
            old(self).active(),
        ensures
            final(self).exchanged(old(self), producing(2, ValType::I32), done),
    {
        proof {
            lemma_exchange(self.config, self.open_frames(), 2, ValType::I32);
        }
        self.pop2()?;
        self.push(ValType::I32)
    }

    /// One operand is converted to a value of this type.
    fn cvtop(&mut self, result: ValType) -> (done: Option<()>)
        requires
            old(self).active(),
        ensures
            final(self).exchanged(old(self), producing(1, result), done),
    {
        proof {
            lemma_exchange(self.config, self.open_frames(), 1, result);
        }
        self.pop()?;
        self.push(result)
    }

    /// Two vectors are compared lane by lane: `[v128 v128] -> [v128]`.
    fn vrelop(&mut self) -> (done: Option<()>)
        requires
            old(self).active(),
        ensures
            final(self).exchanged(old(self), consuming(1), done),
    {
        self.pop()
    }

    /// A vector is converted: `[v128] -> [v128]`.
    fn vcvtop(&mut self) -> (done: Option<()>)
        requires
            old(self).active(),
        ensures
            final(self).exchanged(old(self), consuming(0), done),
    {
        proof {
            lemma_exchange(self.config, self.open_frames(), 0, ValType::I32);
        }
        Some(())
    }

    /// One lane of a vector is taken out of it.
    fn extract_lane(&mut self, ty: ValType) -> (done: Option<()>)
        requires
            old(self).active(),
        ensures
            final(self).exchanged(old(self), producing(1, ty), done),
    {
        proof {
            lemma_exchange(self.config, self.open_frames(), 1, ty);
        }
        self.pop()?;
        self.push(ty)
    }

    /// A value fills all lanes of a vector.
    fn splat(&mut self) -> (done: Option<()>)
        requires
            old(self).active(),
        ensures
            final(self).exchanged(old(self), producing(1, ValType::V128), done),
    {
        proof {
            lemma_exchange(self.config, self.open_frames(), 1, ValType::V128);
        }
        self.pop()?;
        self.push(ValType::V128)
    }

    /// One bit for each lane of a vector.
    fn bitmask(&mut self) -> (done: Option<()>)
        requires
            old(self).active(),
        ensures
            final(self).exchanged(old(self), producing(1, ValType::I32), done),
    {
        proof {
            lemma_exchange(self.config, self.open_frames(), 1, ValType::I32);
        }
        self.pop()?;
        self.push(ValType::I32)
    }

    /// An atomic read-modify-write access to the memory.
    fn atomic_rmw(&mut self, ty: ValType) -> (done: Option<()>)
        requires
            old(self).active(),
        ensures
            final(self).exchanged(old(self), producing(2, ty), done),
    {
        proof {
            lemma_exchange(self.config, self.open_frames(), 2, ty);
        }
        self.pop2()?;
        self.push(ty)
    }

    /// An atomic compare and exchange in the memory.
    fn atomic_cmpxchg(&mut self, ty: ValType) -> (done: Option<()>)
        requires
            old(self).active(),
        ensures
            final(self).exchanged(old(self), producing(3, ty), done),
    {
        proof {
            lemma_exchange(self.config, self.open_frames(), 3, ty);
        }
        self.pop3()?;
        self.push(ty)
    }

    /// A load from the memory: an address makes a value of this type.
    fn load(&mut self, ty: ValType) -> (done: Option<()>)
        requires
            old(self).active(),
        ensures
            final(self).exchanged(old(self), producing(1, ty), done),
    {
        proof {
            lemma_exchange(self.config, self.open_frames(), 1, ty);
        }
        self.pop()?;
        self.push(ty)
    }

    /// An atomic load from the memory.
    fn atomic_load(&mut self, ty: ValType) -> (done: Option<()>)
        requires
            old(self).active(),
        ensures
            final(self).exchanged(old(self), producing(1, ty), done),
    {
        proof {
            lemma_exchange(self.config, self.open_frames(), 1, ty);
        }
        self.pop()?;
        self.push(ty)
    }

    /// Puts values of these types on the operand stack, one after the other.
    fn push_multiple(&mut self, tys: &Vec<ValType>) -> (done: Option<()>)
        requires
            old(self).active(),
        ensures
            final(self).moved(
                old(self),
                push_values(old(self).open_frames(), value_sizes(old(self).config, tys@)),
                done,
            ),
    {
        let ghost frames = self.open_frames();
        let ghost sizes = value_sizes(self.config, tys@);
        for i in 0..tys.len()
            invariant
                self.active(),
                self.same_function(old(self)),
                frames == old(self).open_frames(),
                sizes == value_sizes(self.config, tys@),
                push_values(frames, sizes.take(i as int)) == Some(self.open_frames()),
        {
            proof {
                assert(sizes.take(i + 1).drop_last() =~= sizes.take(i as int));
            }
            if self.push(tys[i]).is_none() {
                proof {
                    lemma_push_values_take(frames, sizes, i + 1);
                }
                return None;
            }
        }
        proof {
            assert(sizes.take(sizes.len() as int) =~= sizes);
        }
        Some(())
    }

    /// A call of a function of this type: the parameters make place for the results.
    fn call_typed_function(&mut self, type_index: u32) -> (done: Option<()>)
        requires
            old(self).active(),
        ensures
            match call_signature(old(self).env(), type_index) {
                Some(signature) => final(self).exchanged(old(self), signature, done),
                None => done is None,
            },
    {
        if type_index as usize >= self.types.len() {
            return None;
        }
        let types = self.types;
        let ty = &types[type_index as usize];
        self.pop_multiple(ty.params.len())?;
        self.push_multiple(&ty.results)
    }

    /// Puts the values that a block of this type leaves behind on the operand stack.
    fn push_results(&mut self, ty: BlockType) -> (done: Option<()>)
        requires
            old(self).active(),
        ensures
            match block_results(old(self).env(), ty) {
                Some(results) => final(self).moved(
                    old(self),
                    push_values(old(self).open_frames(), value_sizes(old(self).config, results)),
                    done,
                ),
                None => done is None,
            },
    {
        match ty {
            BlockType::Empty => {
                proof {
                    assert(value_sizes(self.config, Seq::empty()) =~= Seq::empty());
                }
                Some(())
            },
            BlockType::Type(ty) => {
                proof {
                    lemma_exchange(self.config, self.open_frames(), 0, ty);
                }
                self.push(ty)
            },
            BlockType::FuncType(type_index) => {
                if type_index as usize >= self.types.len() {
                    return None;
                }
                let types = self.types;
                self.push_multiple(&types[type_index as usize].results)
            },
        }
    }

    /// The operands that a block of this type starts out with.
    fn block_operands_from_ty(&self, ty: &BlockType) -> (operands: Option<Operands>)
        ensures
            match operands {
                Some(operands) => {
                    &&& operands.wf()
                    &&& entry_operands(self.config, self.env(), *ty) == Some(operands@)
                },
                None => entry_operands(self.config, self.env(), *ty) is None,
            },
    {
        match ty {
            // No input parameters, only a return.
            BlockType::Empty | BlockType::Type(_) => Some(Operands::new()),
            BlockType::FuncType(type_index) => {
                let params = match self.ty(*type_index) {
                    Some(ty) => &ty.params,
                    None => {
                        return None;
                    },
                };
                let mut stack: Vec<u64> = Vec::new();
                for i in 0..params.len()
                    invariant
                        stack@ == value_sizes(self.config, params@.take(i as int)),
                {
                    stack.push(self.config.size_of_value(params[i]));
                    proof {
                        assert(stack@ =~= value_sizes(self.config, params@.take(i + 1)));
                    }
                }
                proof {
                    assert(params@.take(params@.len() as int) =~= params@);
                }
                Operands::from_sizes(stack)
            },
        }
    }

    /// Opens the frame of a function, on top of the frames that are open already.
    pub fn visit_function_entry(&mut self, function_index: u32) -> (done: Option<()>)
        requires
            old(self).wf(),
        ensures
            final(self).moved(
                old(self),
                match entry(old(self).config, old(self).env(), function_index) {
                    Some(frames) => Some(old(self).open_frames() + frames),
                    None => None,
                },
                done,
            ),
            done is Some ==> final(self).frames@.drop_last() == old(self).frames@,
    {
        let type_index = self.function_type_index(function_index)?;
        let ty = BlockType::FuncType(type_index);
        let operands = self.block_operands_from_ty(&ty)?;
        self.frames.push(Frame::Block(BlockInfo { ty, operands, complete: false }));
        proof {
            assert(self.frames@.drop_last() =~= old(self).frames@);
            assert(self.open_frames() =~= old(self).open_frames() + entry(
                old(self).config,
                old(self).env(),
                function_index,
            )->0);
        }
        Some(())
    }

    /// The largest size that the operands of the current frame have had.
    pub fn max_size(&self) -> (max_size: u64)
        requires
            self.frames@.len() > 0,
        ensures
            max_size == self.open_frames().last().operands.max_size,
    {
        match &self.frames[self.frames.len() - 1] {
            Frame::Block(info) => info.operands.max_size(),
            Frame::If(info) => info.operands.max_size(),
            Frame::Else { else_block, .. } => else_block.operands.max_size(),
            Frame::Loop(info) => info.operands.max_size(),
        }
    }

    /// Whether the current frame has been terminated.
    fn is_complete(&self) -> (complete: bool)
        requires
            self.frames@.len() > 0,
        ensures
            complete == self.open_frames().last().complete,
    {
        match &self.frames[self.frames.len() - 1] {
            Frame::Block(info) => info.complete,
            Frame::If(info) => info.complete,
            Frame::Else { else_block, .. } => else_block.complete,
            Frame::Loop(info) => info.complete,
        }
    }

    /// Opens the frame of a `block`.
    fn visit_block(&mut self, ty: BlockType) -> (done: Option<()>)
        requires
            old(self).active(),
        ensures
            final(self).moved(
                old(self),
                enter(
                    old(self).config,
                    old(self).env(),
                    old(self).open_frames(),
                    FrameKind::Block,
                    ty,
                    0,
                ),
                done,
            ),
    {
        let operands = self.block_operands_from_ty(&ty)?;
        self.pop_multiple(operands.len())?;
        let complete = self.is_complete();
        let ghost before = self.frames@;
        self.frames.push(Frame::Block(BlockInfo { ty, operands, complete }));
        proof {
            assert(self.frames@.drop_last() =~= before);
            lemma_pushed_frame(self.frames@);
        }
        Some(())
    }

    /// Opens the frame of a `loop`.
    fn visit_loop(&mut self, ty: BlockType) -> (done: Option<()>)
        requires
            old(self).active(),
        ensures
            final(self).moved(
                old(self),
                enter(
                    old(self).config,
                    old(self).env(),
                    old(self).open_frames(),
                    FrameKind::Loop,
                    ty,
                    0,
                ),
                done,
            ),
    {
        let operands = self.block_operands_from_ty(&ty)?;
        self.pop_multiple(operands.len())?;
        let complete = self.is_complete();
        let ghost before = self.frames@;
        self.frames.push(Frame::Loop(BlockInfo { ty, operands, complete }));
        proof {
            assert(self.frames@.drop_last() =~= before);
            lemma_pushed_frame(self.frames@);
        }
        Some(())
    }

    /// Opens the frame of the first branch of an `if`.
    fn visit_if(&mut self, ty: BlockType) -> (done: Option<()>)
        requires
            old(self).active(),
        ensures
            final(self).moved(
                old(self),
                enter(
                    old(self).config,
                    old(self).env(),
                    old(self).open_frames(),
                    FrameKind::If,
                    ty,
                    1,
                ),
                done,
            ),
    {
        let operands = self.block_operands_from_ty(&ty)?;
        proof {
            self.frames@.last().info().operands.lemma_len();
            lemma_pushed_frame(self.frames@);
        }
        // Block parameters and the condition.
        self.pop_multiple(operands.len().checked_add(1)?)?;
        let complete = self.is_complete();
        let ghost before = self.frames@;
        self.frames.push(Frame::If(BlockInfo { ty, operands, complete }));
        proof {
            assert(self.frames@.drop_last() =~= before);
            lemma_pushed_frame(self.frames@);
        }
        Some(())
    }

    /// Turns to the second branch of an `if`.
    fn visit_else(&mut self) -> (done: Option<()>)
        requires
            old(self).active(),
        ensures
            final(self).moved(
                old(self),
                turn_to_else(old(self).config, old(self).env(), old(self).open_frames()),
                done,
            ),
    {
        proof {
            lemma_pushed_frame(self.frames@);
        }
        let current_frame = self.frames.pop()?;
        match current_frame {
            Frame::If(info) => {
                if self.frames.len() == 0 {
                    return None;
                }
                let complete = self.is_complete();
                let operands = self.block_operands_from_ty(&info.ty)?;
                self.frames.push(
                    Frame::Else {
                        if_max_depth: info.operands.max_size(),
                        else_block: BlockInfo { ty: info.ty, operands, complete },
                    },
                );
                proof {
                    assert(self.frames@ =~= old(self).frames@.drop_last().push(self.frames@.last()));
                    lemma_with_top(old(self).frames@, self.frames@.last());
                    lemma_pushed_frame(old(self).frames@);
                }
                Some(())
            },
            // There is no such branch in any other frame.
            Frame::Else { .. } | Frame::Loop(..) | Frame::Block(..) => None,
        }
    }

    /// Closes the current frame.
    fn visit_end(&mut self) -> (done: Option<()>)
        requires
            old(self).active(),
        ensures
            final(self).moved(
                old(self),
                leave(old(self).config, old(self).env(), old(self).open_frames()),
                done,
            ),
    {
        let ghost frames = self.frames@;
        let current_frame = self.frames.pop()?;
        if self.frames.len() == 0 {
            // This is the end of the function, and the frame stays on the stack to communicate
            // back the information about the function.
            self.frames.push(current_frame);
            proof {
                assert(self.frames@ =~= frames);
            }
            return Some(());
        }
        proof {
            lemma_pushed_frame(frames);
            lemma_pushed_frame(self.frames@);
        }
        if self.is_complete() {
            return Some(());
        }
        let (ty, current_max_depth) = match current_frame {
            Frame::Block(info) => (info.ty, info.operands.max_size()),
            // An `if` without an `else`: the first branch is all there is.
            Frame::If(info) => (info.ty, info.operands.max_size()),
            Frame::Else { if_max_depth, else_block } => {
                let else_max_depth = else_block.operands.max_size();
                if if_max_depth > else_max_depth {
                    (else_block.ty, if_max_depth)
                } else {
                    (else_block.ty, else_max_depth)
                }
            },
            Frame::Loop(info) => (info.ty, info.operands.max_size()),
        };
        let ghost outer = self.frames@;
        let parent = self.current_block_info();
        let depth = parent.operands.size().checked_add(current_max_depth)?;
        parent.operands.observe(depth);
        proof {
            lemma_with_top(outer, self.frames@.last());
        }
        self.push_results(ty)
    }

    /// Ends the current frame early.
    fn visit_br(&mut self) -> (done: Option<()>)
        requires
            old(self).active(),
        ensures
            final(self).moved(old(self), Some(branch(old(self).open_frames())), done),
    {
        self.current_block_info().complete = true;
        proof {
            lemma_with_top(old(self).frames@, self.frames@.last());
        }
        Some(())
    }

    /// Nothing behind an `unreachable` is ever executed, so that it ends the current frame just as
    /// a `br` does.
    fn visit_unreachable(&mut self) -> (done: Option<()>)
        requires
            old(self).active(),
        ensures
            final(self).moved(old(self), Some(branch(old(self).open_frames())), done),
    {
        self.visit_br()
    }

    /// `br_table` is an unconditional branch to one of the specified branch targets.
    ///
    /// The same line of thinking as for a regular `br` applies. In particular there is no need to
    /// worry about evaluating the rest of the operations within the frame.
    fn visit_br_table(&mut self) -> (done: Option<()>)
        requires
            old(self).active(),
        ensures
            final(self).moved(old(self), Some(branch(old(self).open_frames())), done),
    {
        self.visit_br()
    }

    /// This behaves as if it were a `br` to the outermost block.
    fn visit_return(&mut self) -> (done: Option<()>)
        requires
            old(self).active(),
        ensures
            final(self).moved(old(self), Some(branch(old(self).open_frames())), done),
    {
        self.visit_br()
    }

    /// `return_call` behaves as if it were a regular `return` followed by the `call`. For the size
    /// of the frame of the _current_ function only the `return` portion is relevant.
    fn visit_return_call(&mut self) -> (done: Option<()>)
        requires
            old(self).active(),
        ensures
            final(self).moved(old(self), Some(branch(old(self).open_frames())), done),
    {
        self.visit_return()
    }

    /// Like `return_call`, with a function that is only known at run time.
    fn visit_return_call_indirect(&mut self) -> (done: Option<()>)
        requires
            old(self).active(),
        ensures
            final(self).moved(old(self), Some(branch(old(self).open_frames())), done),
    {
        self.visit_return()
    }

    /// Calls a function of the module.
    fn visit_call(&mut self, function_index: u32) -> (done: Option<()>)
        requires
            old(self).active(),
        ensures
            match signature(old(self).env(), Operator::Call { function_index }) {
                Some(signature) => final(self).exchanged(old(self), signature, done),
                None => done is None,
            },
    {
        let type_index = self.function_type_index(function_index)?;
        self.call_typed_function(type_index)
    }

    /// Calls a function that is only known at run time. An operand on top of its arguments tells
    /// where in a table it is found.
    fn visit_call_indirect(&mut self, type_index: u32) -> (done: Option<()>)
        requires
            old(self).active(),
        ensures
            match signature(old(self).env(), Operator::CallIndirect { index: type_index }) {
                Some(signature) => final(self).exchanged(old(self), signature, done),
                None => done is None,
            },
    {
        proof {
            lemma_exchange(self.config, self.open_frames(), 1, ValType::I32);
            if let Some(signature) = call_signature(self.env(), type_index) {
                lemma_pop_values(self.open_frames(), 1, signature.pops);
            }
        }
        self.pop()?;
        self.call_typed_function(type_index)
    }

    /// Reads a local. The parameters are the first locals.
    fn visit_local_get(&mut self, local_index: u32) -> (done: Option<()>)
        requires
            old(self).active(),
        ensures
            match signature(old(self).env(), Operator::LocalGet { local_index }) {
                Some(signature) => final(self).exchanged(old(self), signature, done),
                None => done is None,
            },
    {
        let ty = if (local_index as usize) < self.params.len() {
            self.params[local_index as usize]
        } else {
            *self.locals.find(local_index - self.params.len() as u32)?
        };
        proof {
            lemma_exchange(self.config, self.open_frames(), 0, ty);
        }
        self.push(ty)
    }

    /// Reads a global.
    fn visit_global_get(&mut self, global_index: u32) -> (done: Option<()>)
        requires
            old(self).active(),
        ensures
            match signature(old(self).env(), Operator::GlobalGet { global_index }) {
                Some(signature) => final(self).exchanged(old(self), signature, done),
                None => done is None,
            },
    {
        if global_index as usize >= self.globals.len() {
            return None;
        }
        let ty = self.globals[global_index as usize];
        proof {
            lemma_exchange(self.config, self.open_frames(), 0, ty);
        }
        self.push(ty)
    }

    /// Makes the table larger: `[t i32] -> [i32]`.
    fn visit_table_grow(&mut self) -> (done: Option<()>)
        requires
            old(self).active(),
        ensures
            final(self).exchanged(old(self), producing(2, ValType::I32), done),
    {
        proof {
            lemma_exchange(self.config, self.open_frames(), 2, ValType::I32);
        }
        self.pop2()?;
        self.push(ValType::I32)
    }

    /// Follows an instruction of this shape.
    fn visit_shape(&mut self, shape: Shape) -> (done: Option<()>)
        requires
            old(self).active(),
        ensures
            final(self).exchanged(old(self), shape.signature(), done),
    {
        match shape {
            Shape::Unop => {
                proof {
                    lemma_exchange(self.config, self.open_frames(), 0, ValType::I32);
                }
                Some(())
            },
            Shape::Push(ty) => {
                proof {
                    lemma_exchange(self.config, self.open_frames(), 0, ty);
                }
                self.push(ty)
            },
            Shape::Pop => self.pop(),
            Shape::Pop2 => self.pop2(),
            Shape::Pop3 => self.pop3(),
            Shape::Binop(ty) => self.binop(ty),
            Shape::Testop => self.testop(),
            Shape::Relop => self.relop(),
            Shape::Cvtop(ty) => self.cvtop(ty),
            Shape::Vrelop => self.vrelop(),
            Shape::Vcvtop => self.vcvtop(),
            Shape::ExtractLane(ty) => self.extract_lane(ty),
            Shape::Splat => self.splat(),
            Shape::Bitmask => self.bitmask(),
            Shape::Load(ty) => self.load(ty),
            Shape::AtomicRmw(ty) => self.atomic_rmw(ty),
            Shape::AtomicCmpxchg(ty) => self.atomic_cmpxchg(ty),
            Shape::AtomicLoad(ty) => self.atomic_load(ty),
            Shape::TableGrow => self.visit_table_grow(),
        }
    }

    /// Follows an instruction that no execution gets to.
    fn visit_unreached(&mut self, op: Operator) -> (done: Option<()>)
        requires
            old(self).active(),
        ensures
            final(self).moved(
                old(self),
                unreached_step(old(self).config, old(self).env(), old(self).open_frames(), op),
                done,
            ),
    {
        let complete = true;
        match op {
            Operator::Block { ty } => {
                let operands = self.block_operands_from_ty(&ty)?;
                self.frames.push(Frame::Block(BlockInfo { ty, operands, complete }));
            },
            Operator::Loop { ty } => {
                let operands = self.block_operands_from_ty(&ty)?;
                self.frames.push(Frame::Loop(BlockInfo { ty, operands, complete }));
            },
            Operator::If { ty } => {
                let operands = self.block_operands_from_ty(&ty)?;
                self.frames.push(Frame::If(BlockInfo { ty, operands, complete }));
            },
            Operator::Else => {
                return self.visit_else();
            },
            Operator::End => {
                return self.visit_end();
            },
            _ => {
                return Some(());
            },
        }
        proof {
            assert(self.frames@.drop_last() =~= old(self).frames@);
            lemma_pushed_frame(self.frames@);
        }
        Some(())
    }

    /// Follows an instruction.
    pub fn visit_operator(&mut self, op: Operator) -> (done: Option<()>)
        requires
            old(self).active(),
        ensures
            final(self).moved(
                old(self),
                step(old(self).config, old(self).env(), old(self).open_frames(), op),
                done,
            ),
    {
        proof {
            lemma_pushed_frame(self.frames@);
        }
        if self.is_complete() {
            return self.visit_unreached(op);
        }
        match op {
            Operator::Block { ty } => self.visit_block(ty),
            Operator::Loop { ty } => self.visit_loop(ty),
            Operator::If { ty } => self.visit_if(ty),
            Operator::Else => self.visit_else(),
            Operator::End => self.visit_end(),
            Operator::Unreachable => self.visit_unreachable(),
            Operator::Br => self.visit_br(),
            Operator::BrTable => self.visit_br_table(),
            Operator::Return => self.visit_return(),
            Operator::ReturnCall => self.visit_return_call(),
            Operator::ReturnCallIndirect => self.visit_return_call_indirect(),
            Operator::Call { function_index } => self.visit_call(function_index),
            Operator::CallIndirect { index } => self.visit_call_indirect(index),
            Operator::LocalGet { local_index } => self.visit_local_get(local_index),
            Operator::GlobalGet { global_index } => self.visit_global_get(global_index),
            _ => {
                let shape = op.shape()?;
                self.visit_shape(shape)
            },
        }
    }
}

/// What an instruction with at most one result does to the innermost frame.
proof fn lemma_exchange<Cfg: AnalysisConfig>(
    cfg: &Cfg,
    frames: Seq<FrameView>,
    pops: nat,
    ty: ValType,
)
    requires
        frames.len() > 0,
    ensures
        exchange(cfg, frames, consuming(pops)) == pop_values(frames, pops),
        exchange(cfg, frames, producing(pops, ty)) == (match pop_values(frames, pops) {
            Some(frames) => push_value(frames, cfg.value_size(ty)),
            None => None,
        }),
        pop_values(frames, 0) == Some(frames),
{
    let sizes = value_sizes(cfg, seq![ty]);
    assert(sizes.drop_last() =~= Seq::empty());
    assert(sizes.last() == cfg.value_size(ty));
    if let Some(popped) = pop_values(frames, pops) {
        assert(push_values(popped, sizes.drop_last()) == Some(popped));
    }
    let operands = frames.last().operands;
    assert(operands.popped(0) =~= operands);
    assert(with_top(frames, frames.last()) =~= frames);
}

/// Taking operands off in two steps is taking them off at once.
proof fn lemma_pop_values(frames: Seq<FrameView>, first: nat, second: nat)
    requires
        frames.len() > 0,
    ensures
        pop_values(frames, first + second) == (match pop_values(frames, first) {
            Some(frames) => pop_values(frames, second),
            None => None,
        }),
{
    let operands = frames.last().operands;
    let n = operands.stack.len();
    if let Some(popped) = pop_values(frames, first) {
        assert(popped.drop_last() =~= frames.drop_last());
        if first + second <= n {
            assert(operands.stack.take(n - first).take(n - first - second)
                =~= operands.stack.take(n - first - second));
        }
    }
}

/// Operands can only be pushed if the first ones of them can.
proof fn lemma_push_values_take(frames: Seq<FrameView>, sizes: Seq<u64>, n: int)
    requires
        0 <= n <= sizes.len(),
        push_values(frames, sizes.take(n)) is None,
    ensures
        push_values(frames, sizes) is None,
    decreases sizes.len() - n,
{
    if n < sizes.len() {
        assert(sizes.take(n + 1).drop_last() =~= sizes.take(n));
        lemma_push_values_take(frames, sizes, n + 1);
    } else {
        assert(sizes.take(n) =~= sizes);
    }
}

/// The view of a list of frames whose last one has been replaced.
proof fn lemma_with_top(frames: Seq<Frame>, top: Frame)
    requires
        frames.len() > 0,
    ensures
        frame_views(frames).last() == frames.last()@,
        frame_views(frames.drop_last().push(top)) == with_top(frame_views(frames), top@),
{
    assert(frame_views(frames.drop_last().push(top)) =~= with_top(frame_views(frames), top@));
}

/// The view of a list of frames with one more frame at its end.
proof fn lemma_pushed_frame(frames: Seq<Frame>)
    requires
        frames.len() > 0,
    ensures
        frame_views(frames) == frame_views(frames.drop_last()).push(frames.last()@),
        frame_views(frames).drop_last() == frame_views(frames.drop_last()),
{
    assert(frame_views(frames) =~= frame_views(frames.drop_last()).push(frames.last()@));
    assert(frame_views(frames).drop_last() =~= frame_views(frames.drop_last()));
}

/// The frame that the visitor has is the frame that it stands for, field by field.
pub proof fn law_frame_view(frame: Frame)
    ensures
        match frame {
            Frame::Block(info) => {
                &&& frame@.kind is Block
                &&& frame@.ty == info.ty
                &&& frame@.operands == info.operands@
                &&& frame@.complete == info.complete
            },
            Frame::If(info) => {
                &&& frame@.kind is If
                &&& frame@.ty == info.ty
                &&& frame@.operands == info.operands@
                &&& frame@.complete == info.complete
            },
            Frame::Else { if_max_depth, else_block } => {
                &&& frame@.kind == (FrameKind::Else { if_max_depth: if_max_depth as nat })
                &&& frame@.ty == else_block.ty
                &&& frame@.operands == else_block.operands@
                &&& frame@.complete == else_block.complete
            },
            Frame::Loop(info) => {
                &&& frame@.kind is Loop
                &&& frame@.ty == info.ty
                &&& frame@.operands == info.operands@
                &&& frame@.complete == info.complete
            },
        },
{
}

/// The frames of the visitor are the frames that they stand for, one by one, and the instructions
/// refer to what the visitor has been given. The parameters of the function are its first locals.
pub proof fn law_visitor_view<Cfg: AnalysisConfig>(visitor: StackSizeVisitor<'_, Cfg>)
    ensures
        visitor.open_frames().len() == visitor.frames@.len(),
        forall|i: int|
            0 <= i < visitor.frames@.len() ==> visitor.open_frames()[i] == visitor.frames@[i]@,
        visitor.env().functions == visitor.functions@,
        visitor.env().globals == visitor.globals@,
        visitor.env().locals == visitor.params@ + visitor.locals@,
        visitor.env().types.len() == visitor.types@.len(),
        forall|i: int|
            #![trigger visitor.env().types[i]]
            0 <= i < visitor.types@.len() ==> visitor.env().types[i].params
                == visitor.types@[i].params@ && visitor.env().types[i].results
                == visitor.types@[i].results@,
{
}

} // verus!
