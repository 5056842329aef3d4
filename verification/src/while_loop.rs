//! The structured loop builder: a while loop lowered to header, body
//! and exit blocks, each parameterized by the loop's carried state, and
//! driven in stages against the build context.
//!
//! [`do_while`] creates the three blocks, jumps into the header with
//! the initial state, and leaves the cursor there; the caller reads the
//! current state from [`WhileCtx::state`], emits the condition, and
//! hands it to [`WhileCtx::cond`], which branches to the body (sealing
//! it — its single predecessor is known) or to the exit, both carrying
//! the state.  After the body, [`WhileCtx::finish`] emits the back
//! edge for a fall-through body — never for a preempted one — and only
//! then seals the header, once both the entry jump and the back edge
//! are known; it then enters and seals the exit and yields the loop's
//! final state.
//!
//! An early function return inside the body (possibly nested in
//! conditionals) is emitted through [`WhileCtx::ret`], which yields
//! [`ControlFlow::Preempt`]; each enclosing branch layer propagates it,
//! and a body that ends preempted gets no back edge.  The loop's exit
//! path stays live either way: the header still branches to the exit
//! when the condition is false.  A `Continue`-style skip to the next
//! iteration from inside the body is reserved and rejected here: were
//! it wanted, it would be emitted as a jump straight to the header,
//! re-evaluating the condition, but no caller of this layer produces
//! it.

use vstd::prelude::*;

use crate::func::{ret_tys, FnCtx};
use crate::model::{FnView, InstView, InstViewKind, Val};
use crate::signal::ControlFlow;
use crate::types::LogicalType;

verus! {

/// The model after opening a loop with initial state `init`: header,
/// body and exit blocks are created in that order, each parameterized
/// by the state shape; the entry jump passes `init` to the header; the
/// cursor moves into the header, still unsealed — its back edge is not
/// yet known.
pub open spec fn spec_do_while(v: FnView, init: Seq<Val>) -> FnView {
    let shape = FnView::tys_of(init);
    let hb = v.blocks.len() as usize;
    v.with_block(shape).with_block(shape).with_block(shape).with_inst(
        InstView { kind: InstViewKind::Jump { target: hb, args: FnView::ids_of(init) } },
    ).with_cur_filled().with_cursor(hb)
}

/// The model after emitting the loop's conditional branch on `c` with
/// the current state `args`: to the body when non-zero, to the exit
/// otherwise, both carrying the state; the cursor moves into the body,
/// sealed at once.
pub open spec fn spec_while_cond(
    v: FnView,
    body: usize,
    exit: usize,
    c: Val,
    args: Seq<usize>,
) -> FnView {
    v.with_inst(
        InstView {
            kind: InstViewKind::Brif {
                cond: c.id,
                target_nz: body,
                args_nz: args,
                target_z: exit,
                args_z: args,
            },
        },
    ).with_cur_filled().with_cursor(body).with_sealed(body)
}

/// The model after closing the loop with the body's signal `jump`
/// (true: a fall-through carrying the next state; false: the body was
/// preempted): the back edge is emitted only for a fall-through; the
/// header is sealed only now, with all its predecessors known; the
/// cursor moves to the exit, which is sealed on entry.
pub open spec fn spec_while_finish(
    v: FnView,
    header: usize,
    exit: usize,
    jump: bool,
    args: Seq<usize>,
) -> FnView {
    let v1 = if jump {
        v.with_inst(
            InstView { kind: InstViewKind::Jump { target: header, args } },
        ).with_cur_filled()
    } else {
        v
    };
    v1.with_sealed(header).with_cursor(exit).with_sealed(exit)
}

/// An open loop: its blocks and carried-state shape.
pub struct WhileCtx {
    /// The header block, where the condition is evaluated.
    pub header: usize,
    /// The body block.
    pub body: usize,
    /// The exit block.
    pub exit: usize,
    /// The carried state's shape.
    pub shape: Vec<LogicalType>,
}

impl WhileCtx {
    /// The loop's blocks before the conditional branch was emitted.
    pub open spec fn pending_cond(self, v: FnView) -> bool {
        &&& self.body < v.blocks.len()
        &&& self.exit < v.blocks.len()
        &&& self.body != self.exit
        &&& v.current != self.body
        &&& v.current != self.exit
        &&& v.blocks[self.body as int].params == self.shape@
        &&& !v.blocks[self.body as int].sealed
        &&& !v.blocks[self.body as int].filled
        &&& v.blocks[self.exit as int].params == self.shape@
        &&& !v.blocks[self.exit as int].sealed
        &&& !v.blocks[self.exit as int].filled
        &&& self.header < v.blocks.len()
        &&& self.header != self.body
        &&& self.header != self.exit
        &&& v.blocks[self.header as int].params == self.shape@
        &&& !v.blocks[self.header as int].sealed
    }

    /// The loop's blocks between the conditional branch and the back
    /// edge.
    pub open spec fn pending_finish(self, v: FnView) -> bool {
        &&& self.header < v.blocks.len()
        &&& self.exit < v.blocks.len()
        &&& self.header != self.exit
        &&& v.current != self.header
        &&& v.current != self.exit
        &&& v.blocks[self.header as int].params == self.shape@
        &&& !v.blocks[self.header as int].sealed
        &&& v.blocks[self.exit as int].params == self.shape@
        &&& !v.blocks[self.exit as int].sealed
        &&& !v.blocks[self.exit as int].filled
    }

    /// The values carried by block `b` of this loop: its parameters.
    pub fn state(&self, fx: &FnCtx, b: usize) -> (r: Vec<Val>)
        requires
            fx.wf(),
            b < fx@.blocks.len(),
            fx@.blocks[b as int].params == self.shape@,
        ensures
            r@.len() == self.shape@.len(),
            FnView::tys_of(r@) == self.shape@,
            fx@.vals_ok(r@),
            r@ == crate::control_flow::spec_merged_vals(fx@, b, self.shape@),
    {
        let r = fx.block_params(b);
        proof {
            assert(FnView::tys_of(r@) =~= self.shape@);
            assert(r@ =~= crate::control_flow::spec_merged_vals(fx@, b, self.shape@));
        }
        r
    }

    /// Emits the loop's conditional branch on the boolean `c`, passing
    /// the current state to both successors, and enters the body block,
    /// sealing it.  Yields the body's incoming state.
    pub fn cond(&self, fx: &mut FnCtx, c: Val, args: &Vec<Val>) -> (st: Vec<Val>)
        requires
            old(fx).wf(),
            old(fx)@.cursor_open(),
            old(fx)@.val_ok(c),
            c.ty == LogicalType::Bool,
            self.pending_cond(old(fx)@),
            old(fx)@.vals_ok(args@),
            FnView::tys_of(args@) == self.shape@,
        ensures
            final(fx).wf(),
            final(fx)@.cursor_open(),
            final(fx)@ == spec_while_cond(old(fx)@, self.body, self.exit, c, FnView::ids_of(args@)),
            final(fx)@.current == self.body,
            self.pending_finish(final(fx)@),
            st@.len() == self.shape@.len(),
            FnView::tys_of(st@) == self.shape@,
            final(fx)@.vals_ok(st@),
    {
        fx.brif_to(c, self.body, args, self.exit, args);
        fx.switch_to(self.body);
        fx.seal(self.body);
        let st = fx.block_params(self.body);
        proof {
            assert(FnView::tys_of(st@) =~= self.shape@);
        }
        st
    }

    /// Emits an early function return from inside the loop's body with
    /// the given values, which must match the function's declared
    /// return type, and yields the `Preempt` signal for the enclosing
    /// builder layers: the path is terminated, so no merge jump or back
    /// edge may follow it.
    pub fn ret(&self, fx: &mut FnCtx, vals: &Vec<Val>) -> (r: ControlFlow<Vec<Val>, ()>)
        requires
            old(fx).wf(),
            old(fx)@.cursor_open(),
            old(fx)@.vals_ok(vals@),
            FnView::tys_of(vals@) == ret_tys(old(fx)@.ret),
        ensures
            final(fx).wf(),
            final(fx)@ == old(fx)@.with_inst(
                InstView { kind: InstViewKind::Ret { args: FnView::ids_of(vals@) } },
            ).with_cur_filled(),
            r is Preempt,
    {
        fx.emit_return(vals);
        ControlFlow::Preempt
    }

    /// Closes the loop with the body's signal: a fall-through jumps
    /// back to the header with the next state; a preempted body — one
    /// that returned on every path — gets no back edge.  The header is
    /// sealed only now, after both the entry jump and any back edge;
    /// the exit is entered and sealed, and the loop's final state is
    /// read from its parameters.  `Ret` and `Continue` are rejected:
    /// an early return is emitted via [`WhileCtx::ret`] and arrives
    /// here as `Preempt`.
    pub fn finish(&self, fx: &mut FnCtx, flow: ControlFlow<Vec<Val>, ()>) -> (r: Vec<Val>)
        requires
            old(fx).wf(),
            self.pending_finish(old(fx)@),
            flow is Break || flow is Preempt,
            flow matches ControlFlow::Break(args) ==> old(fx)@.cursor_open() && old(
                fx,
            )@.vals_ok(args@) && FnView::tys_of(args@) == self.shape@,
            flow is Preempt ==> old(fx)@.current < old(fx)@.blocks.len() && old(fx)@.cur().filled,
        ensures
            final(fx).wf(),
            final(fx)@.cursor_open(),
            final(fx)@ == spec_while_finish(
                old(fx)@,
                self.header,
                self.exit,
                flow is Break,
                match flow {
                    ControlFlow::Break(args) => FnView::ids_of(args@),
                    _ => Seq::empty(),
                },
            ),
            final(fx)@.current == self.exit,
            r@.len() == self.shape@.len(),
            FnView::tys_of(r@) == self.shape@,
            final(fx)@.vals_ok(r@),
    {
        match flow {
            ControlFlow::Break(args) => {
                fx.jump_to(self.header, &args);
            }
            _ => {}
        }
        fx.seal(self.header);
        fx.switch_to(self.exit);
        fx.seal(self.exit);
        let r = fx.block_params(self.exit);
        proof {
            assert(FnView::tys_of(r@) =~= self.shape@);
        }
        r
    }
}

/// Opens a loop whose carried state starts as `init`: creates the
/// header, body and exit blocks, each parameterized by the state's
/// shape, jumps into the header with the initial state, and leaves the
/// cursor there.  The header stays unsealed until the loop is closed.
pub fn do_while(fx: &mut FnCtx, init: &Vec<Val>) -> (r: WhileCtx)
    requires
        old(fx).wf(),
        old(fx)@.cursor_open(),
        old(fx)@.vals_ok(init@),
    ensures
        final(fx).wf(),
        final(fx)@.cursor_open(),
        final(fx)@ == spec_do_while(old(fx)@, init@),
        final(fx)@.blocks.len() == old(fx)@.blocks.len() + 3,
        final(fx)@.current == old(fx)@.blocks.len(),
        r.header == old(fx)@.blocks.len(),
        r.body == old(fx)@.blocks.len() + 1,
        r.exit == old(fx)@.blocks.len() + 2,
        r.shape@ == FnView::tys_of(init@),
        r.pending_cond(final(fx)@),
        final(fx)@.blocks[r.header as int].params == r.shape@,
{
    proof {
        crate::func::lemma_wf_implies_tables_ok(*fx);
    }
    let shape = tys_vec(fx, init);
    let header = fx.new_block(&shape);
    let body = fx.new_block(&shape);
    let exit = fx.new_block(&shape);
    fx.jump_to(header, init);
    fx.switch_to(header);
    proof {
        assert(fx@ =~~= spec_do_while(old(fx)@, init@));
    }
    WhileCtx { header, body, exit, shape }
}

/// The types of a value list, as a vector.
fn tys_vec(fx: &FnCtx, vals: &Vec<Val>) -> (r: Vec<LogicalType>)
    ensures
        r@ == FnView::tys_of(vals@),
{
    let mut r: Vec<LogicalType> = Vec::new();
    let mut i: usize = 0;
    while i < vals.len()
        invariant
            i <= vals@.len(),
            r@ == FnView::tys_of(vals@.take(i as int)),
        decreases vals@.len() - i,
    {
        r.push(vals[i].ty);
        proof {
            assert(r@ =~= FnView::tys_of(vals@.take(i + 1)));
        }
        i = i + 1;
    }
    proof {
        assert(vals@.take(vals@.len() as int) =~= vals@);
    }
    r
}

} // verus!
