//! The structured branch builder: if/else lowered to blocks with a
//! merge point, driven in stages against the build context.
//!
//! [`If::new`] creates the two branch blocks and the merge block (whose
//! parameters carry the branches' shared value shape), emits the
//! conditional branch, and leaves the cursor in the taken-path block,
//! sealing it at once — its single predecessor is known.  The caller
//! emits that path's body, then hands its [`ControlFlow`] signal to
//! [`If::first`], which emits the merge jump for a fall-through (never
//! for a preempted path), moves to the other branch and seals it.
//! After the second body, [`Else::finish`] emits that path's merge
//! jump, and — whenever at least one path falls through — seals the
//! merge block, only now that every jump targeting it exists, and
//! yields the merged values read from its parameters.  When both paths
//! were preempted the merge block is unreachable: it is left pristine,
//! no jump or seal touches it, and the conditional propagates
//! [`ControlFlow::Preempt`] to its enclosing builder.
//!
//! A conditional without a second path is the same construction with an
//! empty value shape; [`Else::skip`] rejects a non-unit shape at
//! verification time.

use vstd::prelude::*;

use crate::func::FnCtx;
use crate::model::{extends_cur_only, FnView, InstView, InstViewKind, Val};
use crate::signal::{spec_joined_signal, ControlFlow};
use crate::types::LogicalType;

verus! {

/// The model after opening a conditional: the taken-path block, the
/// other-path block and the merge block (with the shared shape as its
/// parameters) are created in that order, the conditional branch is
/// emitted, and the cursor moves into the taken-path block, which is
/// sealed.
pub open spec fn spec_if_new(v: FnView, cond: Val, shape: Seq<LogicalType>) -> FnView {
    let tb = v.blocks.len() as usize;
    let eb = (v.blocks.len() + 1) as usize;
    let mb = (v.blocks.len() + 2) as usize;
    v.with_block(Seq::empty()).with_block(Seq::empty()).with_block(shape).with_inst(
        InstView {
            kind: InstViewKind::Brif {
                cond: cond.id,
                target_nz: tb,
                args_nz: Seq::empty(),
                target_z: eb,
                args_z: Seq::empty(),
            },
        },
    ).with_cur_filled().with_cursor(tb).with_sealed(tb)
}

/// The model after closing a conditional's first path with signal
/// `jump` (true: a fall-through carrying `args`; false: the path was
/// preempted): the merge jump is emitted only for a fall-through, and
/// the cursor moves to the other path's block, which is sealed.
pub open spec fn spec_if_first(
    v: FnView,
    else_block: usize,
    merge_block: usize,
    jump: bool,
    args: Seq<usize>,
) -> FnView {
    let v1 = if jump {
        v.with_inst(
            InstView { kind: InstViewKind::Jump { target: merge_block, args } },
        ).with_cur_filled()
    } else {
        v
    };
    v1.with_cursor(else_block).with_sealed(else_block)
}

/// The model after closing a conditional's second path: the merge jump
/// is emitted for a fall-through, and unless both paths were preempted
/// the cursor moves to the merge block, sealing it now that every jump
/// targeting it has been emitted.  When both paths were preempted the
/// merge block is unreachable and stays pristine.
pub open spec fn spec_if_finish(
    v: FnView,
    merge_block: usize,
    first_preempted: bool,
    jump: bool,
    args: Seq<usize>,
) -> FnView {
    let v1 = if jump {
        v.with_inst(
            InstView { kind: InstViewKind::Jump { target: merge_block, args } },
        ).with_cur_filled()
    } else {
        v
    };
    if first_preempted && !jump {
        v1
    } else {
        v1.with_cursor(merge_block).with_sealed(merge_block)
    }
}

/// An open conditional: its first path's body is being emitted.
pub struct If {
    /// The block of the path taken when the condition is false.
    pub else_block: usize,
    /// The merge block, parameterized by the shared value shape.
    pub merge_block: usize,
    /// The shared shape both paths must produce.
    pub shape: Vec<LogicalType>,
}

impl If {
    /// The conditional's blocks still await their jumps: the other path
    /// and the merge block exist, are neither sealed nor filled, the
    /// merge block carries the shape, and the cursor stands elsewhere.
    pub open spec fn pending(self, v: FnView) -> bool {
        &&& self.else_block < v.blocks.len()
        &&& self.merge_block < v.blocks.len()
        &&& self.else_block != self.merge_block
        &&& v.current != self.else_block
        &&& v.current != self.merge_block
        &&& v.blocks[self.else_block as int].params.len() == 0
        &&& !v.blocks[self.else_block as int].sealed
        &&& !v.blocks[self.else_block as int].filled
        &&& v.blocks[self.merge_block as int].params == self.shape@
        &&& !v.blocks[self.merge_block as int].sealed
        &&& !v.blocks[self.merge_block as int].filled
    }

    /// Opens a conditional on the boolean `cond` whose two paths will
    /// produce values of the given shape.  Creates the two path blocks
    /// and the merge block, emits the conditional branch, and leaves
    /// the cursor in the taken path's block, sealed at once.
    pub fn new(fx: &mut FnCtx, cond: Val, shape: Vec<LogicalType>) -> (r: If)
        requires
            old(fx).wf(),
            old(fx)@.cursor_open(),
            old(fx)@.val_ok(cond),
            cond.ty == LogicalType::Bool,
        ensures
            final(fx).wf(),
            final(fx)@.cursor_open(),
            final(fx)@ == spec_if_new(old(fx)@, cond, shape@),
            final(fx)@.current == old(fx)@.blocks.len(),
            final(fx)@.blocks.len() == old(fx)@.blocks.len() + 3,
            r.else_block == old(fx)@.blocks.len() + 1,
            r.merge_block == old(fx)@.blocks.len() + 2,
            r.shape@ == shape@,
            r.pending(final(fx)@),
            extends_cur_only(final(fx)@, final(fx)@),
    {
        let empty: Vec<LogicalType> = Vec::new();
        proof {
            crate::func::lemma_wf_implies_tables_ok(*fx);
        }
        let then_block = fx.new_block(&empty);
        let else_block = fx.new_block(&empty);
        let merge_block = fx.new_block(&shape);
        let no_args: Vec<Val> = Vec::new();
        proof {
            assert(FnView::tys_of(no_args@) =~= Seq::<LogicalType>::empty());
        }
        fx.brif_to(cond, then_block, &no_args, else_block, &no_args);
        fx.switch_to(then_block);
        fx.seal(then_block);
        proof {
            assert(fx@ =~~= spec_if_new(old(fx)@, cond, shape@));
        }
        If { else_block, merge_block, shape }
    }

    /// Closes the first path with its signal: a fall-through jumps to
    /// the merge block with its values (whose types must match the
    /// shape); a preempted path — one that already emitted a return —
    /// gets no merge jump.  Moves to the other path's block and seals
    /// it.  Branch evaluation never yields `Ret` or `Continue`.
    pub fn first(self, fx: &mut FnCtx, flow: ControlFlow<Vec<Val>, ()>) -> (r: Else)
        requires
            old(fx).wf(),
            self.pending(old(fx)@),
            flow is Break || flow is Preempt,
            flow matches ControlFlow::Break(args) ==> old(fx)@.cursor_open() && old(
                fx,
            )@.vals_ok(args@) && FnView::tys_of(args@) == self.shape@,
            flow is Preempt ==> old(fx)@.current < old(fx)@.blocks.len() && old(fx)@.cur().filled,
        ensures
            final(fx).wf(),
            final(fx)@.cursor_open(),
            final(fx)@ == spec_if_first(
                old(fx)@,
                self.else_block,
                self.merge_block,
                flow is Break,
                match flow {
                    ControlFlow::Break(args) => FnView::ids_of(args@),
                    _ => Seq::empty(),
                },
            ),
            final(fx)@.current == self.else_block,
            r.merge_block == self.merge_block,
            r.shape@ == self.shape@,
            r.first_preempted == !flow.spec_needs_merge_jump(),
            r.pending(final(fx)@),
    {
        match flow {
            ControlFlow::Break(args) => {
                fx.jump_to(self.merge_block, &args);
                fx.switch_to(self.else_block);
                fx.seal(self.else_block);
                Else {
                    merge_block: self.merge_block,
                    shape: self.shape,
                    first_preempted: false,
                }
            }
            _ => {
                fx.switch_to(self.else_block);
                fx.seal(self.else_block);
                Else { merge_block: self.merge_block, shape: self.shape, first_preempted: true }
            }
        }
    }
}

/// A conditional whose first path is closed: its second path's body is
/// being emitted.
pub struct Else {
    /// The merge block, parameterized by the shared value shape.
    pub merge_block: usize,
    /// The shared shape both paths must produce.
    pub shape: Vec<LogicalType>,
    /// Whether the first path was preempted (no merge jump emitted).
    pub first_preempted: bool,
}

impl Else {
    /// The merge block still awaits its jumps.
    pub open spec fn pending(self, v: FnView) -> bool {
        &&& self.merge_block < v.blocks.len()
        &&& v.current != self.merge_block
        &&& v.blocks[self.merge_block as int].params == self.shape@
        &&& !v.blocks[self.merge_block as int].sealed
        &&& !v.blocks[self.merge_block as int].filled
    }

    /// Closes the second path with its signal and the conditional as a
    /// whole.  A fall-through jumps to the merge block with its values;
    /// then, unless both paths were preempted, the cursor moves to the
    /// merge block — sealed only now, after every jump targeting it —
    /// and the merged values are read from its parameters.  When both
    /// paths were preempted the conditional propagates `Preempt`: the
    /// merge block is unreachable, no structural jump is emitted, and
    /// the enclosing builder must preempt in turn.
    pub fn finish(self, fx: &mut FnCtx, flow: ControlFlow<Vec<Val>, ()>) -> (r: ControlFlow<
        Vec<Val>,
        (),
    >)
        requires
            old(fx).wf(),
            self.pending(old(fx)@),
            flow is Break || flow is Preempt,
            flow matches ControlFlow::Break(args) ==> old(fx)@.cursor_open() && old(
                fx,
            )@.vals_ok(args@) && FnView::tys_of(args@) == self.shape@,
            flow is Preempt ==> old(fx)@.current < old(fx)@.blocks.len() && old(fx)@.cur().filled,
        ensures
            final(fx).wf(),
            final(fx)@ == spec_if_finish(
                old(fx)@,
                self.merge_block,
                self.first_preempted,
                flow is Break,
                match flow {
                    ControlFlow::Break(args) => FnView::ids_of(args@),
                    _ => Seq::empty(),
                },
            ),
            crate::signal::flow_view(r) == spec_joined_signal::<()>(
                self.first_preempted,
                !flow.spec_needs_merge_jump(),
                spec_merged_vals(old(fx)@, self.merge_block, self.shape@),
            ),
            r is Break ==> final(fx)@.cursor_open() && final(fx)@.current == self.merge_block
                && final(fx)@.vals_ok(r->Break_0@) && FnView::tys_of(r->Break_0@) == self.shape@,
            r is Preempt ==> self.first_preempted && !flow.spec_needs_merge_jump() && final(fx)@
                == old(fx)@,
    {
        let jumped = match flow {
            ControlFlow::Break(args) => {
                fx.jump_to(self.merge_block, &args);
                true
            }
            _ => false,
        };
        if self.first_preempted && !jumped {
            ControlFlow::Preempt
        } else {
            fx.switch_to(self.merge_block);
            fx.seal(self.merge_block);
            let merged = fx.block_params(self.merge_block);
            proof {
                assert(FnView::tys_of(merged@) =~= self.shape@);
                assert(merged@ =~= spec_merged_vals(old(fx)@, self.merge_block, self.shape@));
            }
            ControlFlow::Break(merged)
        }
    }

    /// Closes a conditional that has no second path.  Only a unit
    /// shape admits this: omitting the other path while the taken path
    /// produces a value is rejected at verification time.
    pub fn skip(self, fx: &mut FnCtx) -> (r: ControlFlow<Vec<Val>, ()>)
        requires
            old(fx).wf(),
            self.pending(old(fx)@),
            self.shape@.len() == 0,
            old(fx)@.cursor_open(),
        ensures
            final(fx).wf(),
            final(fx)@ == spec_if_finish(
                old(fx)@,
                self.merge_block,
                self.first_preempted,
                true,
                Seq::empty(),
            ),
            r is Break,
            final(fx)@.cursor_open(),
            final(fx)@.current == self.merge_block,
    {
        let no_args: Vec<Val> = Vec::new();
        proof {
            assert(FnView::tys_of(no_args@) =~= self.shape@);
            assert(FnView::ids_of(no_args@) =~= Seq::<usize>::empty());
        }
        self.finish(fx, ControlFlow::Break(no_args))
    }
}

/// The values a conditional's merge block yields: its parameters, whose
/// ids were fixed when the block was created.
pub open spec fn spec_merged_vals(v: FnView, merge_block: usize, shape: Seq<LogicalType>) -> Seq<
    Val,
> {
    Seq::new(
        shape.len(),
        |i: int|
            Val {
                id: (v.blocks[merge_block as int].param_base + i) as usize,
                ty: shape[i],
            },
    )
}

} // verus!
