//! Library-wide laws, stated over the specification functions that the
//! emission operations' contracts use.
//!
//! Every emission operation of this crate pins the model after the
//! call as a function of the model before it and the operation's
//! arguments — the `spec_*` transition functions of the builder
//! modules.  Construction therefore has no hidden state: the lemmas
//! here record that building the same control-flow program from equal
//! contexts yields equal models, and in particular machine code of
//! identical control-flow-graph shape — the same block count with the
//! same parameter arities.

use vstd::prelude::*;

use crate::control_flow::{spec_if_finish, spec_if_first, spec_if_new};
use crate::func::{spec_binop_ctx, spec_call_ctx};
use crate::model::{FnView, InstViewKind, Val};
use crate::types::LogicalType;
use crate::while_loop::{spec_do_while, spec_while_cond, spec_while_finish};

verus! {

/// The control-flow-graph shape of a model: one entry per block, its
/// parameter arity.
pub open spec fn cfg_shape(v: FnView) -> Seq<nat> {
    Seq::new(v.blocks.len(), |i: int| v.blocks[i].params.len())
}

/// Determinism of construction: the model transitions of every builder
/// are functions, so two builds of the same program from equal models
/// agree step by step — on the whole model, hence on the graph shape.
pub proof fn lemma_build_deterministic(
    v1: FnView,
    v2: FnView,
    cond: Val,
    shape: Seq<LogicalType>,
    init: Seq<Val>,
    op: crate::types::BinOp,
    a: Val,
    b: Val,
    addr: usize,
    args: Seq<Val>,
    ret: Option<LogicalType>,
    blk: usize,
    blk2: usize,
    jump: bool,
    pre: bool,
    ids: Seq<usize>,
)
    requires
        v1 == v2,
    ensures
        spec_if_new(v1, cond, shape) == spec_if_new(v2, cond, shape),
        spec_if_first(v1, blk, blk2, jump, ids) == spec_if_first(v2, blk, blk2, jump, ids),
        spec_if_finish(v1, blk, pre, jump, ids) == spec_if_finish(v2, blk, pre, jump, ids),
        spec_do_while(v1, init) == spec_do_while(v2, init),
        spec_while_cond(v1, blk, blk2, cond, ids) == spec_while_cond(v2, blk, blk2, cond, ids),
        spec_while_finish(v1, blk, blk2, jump, ids) == spec_while_finish(v2, blk, blk2, jump, ids),
        spec_binop_ctx(v1, op, a, b) == spec_binop_ctx(v2, op, a, b),
        spec_call_ctx(v1, addr, args, ret) == spec_call_ctx(v2, addr, args, ret),
        cfg_shape(spec_if_new(v1, cond, shape)) == cfg_shape(spec_if_new(v2, cond, shape)),
        cfg_shape(spec_do_while(v1, init)) == cfg_shape(spec_do_while(v2, init)),
{
}

/// Branch-merge plumbing: a falling-through path's last emitted
/// instruction is the jump into the merge block carrying exactly the
/// path's values, so the merged parameters are fed by each path with
/// the value that path computed.
pub proof fn lemma_branch_feeds_merge(
    v: FnView,
    else_block: usize,
    merge_block: usize,
    args: Seq<usize>,
)
    requires
        v.cursor_open(),
        else_block != v.current,
        else_block < v.blocks.len(),
    ensures
        ({
            let w = spec_if_first(v, else_block, merge_block, true, args);
            &&& w.blocks[v.current as int].insts.last().kind == (InstViewKind::Jump {
                target: merge_block,
                args,
            })
            &&& w.blocks[v.current as int].insts.len() == v.cur().insts.len() + 1
        }),
{
    let w = spec_if_first(v, else_block, merge_block, true, args);
    assert(w.blocks[v.current as int] == v.cur().with_inst(
        crate::model::InstView { kind: InstViewKind::Jump { target: merge_block, args } },
    ).as_filled());
}

/// Loop plumbing: closing a loop with a falling-through body emits the
/// back edge into the header carrying exactly the body's final state,
/// and a preempted body emits no back edge at all — its early return
/// stands as the path's last instruction.
pub proof fn lemma_loop_back_edge(v: FnView, header: usize, exit: usize, args: Seq<usize>)
    requires
        v.cursor_open(),
        header != v.current,
        exit != v.current,
        header < v.blocks.len(),
        exit < v.blocks.len(),
        header != exit,
    ensures
        ({
            let w = spec_while_finish(v, header, exit, true, args);
            &&& w.blocks[v.current as int].insts.last().kind == (InstViewKind::Jump {
                target: header,
                args,
            })
            &&& w.blocks[v.current as int].insts.len() == v.cur().insts.len() + 1
        }),
        ({
            let p = spec_while_finish(v, header, exit, false, Seq::empty());
            p.blocks[v.current as int].insts == v.cur().insts
        }),
{
    let w = spec_while_finish(v, header, exit, true, args);
    assert(w.blocks[v.current as int] == v.cur().with_inst(
        crate::model::InstView { kind: InstViewKind::Jump { target: header, args } },
    ).as_filled());
}

/// Host-call argument order: the emitted indirect call passes exactly
/// the given arguments, in exactly the order given — which is the
/// declared parameter order — and nothing else.
pub proof fn lemma_host_call_order(v: FnView, addr: usize, args: Seq<Val>, ret: Option<LogicalType>)
    requires
        v.cursor_open(),
    ensures
        ({
            let w = spec_call_ctx(v, addr, args, ret);
            let call_at = v.cur().insts.len() as int + 1;
            &&& w.blocks[v.current as int].insts.len() == v.cur().insts.len() + 2
            &&& w.blocks[v.current as int].insts[call_at].kind == (InstViewKind::CallInd {
                callee: v.vals.len() as usize,
                args: FnView::ids_of(args),
                rets: if ret is Some {
                    1nat as usize
                } else {
                    0
                },
            })
        }),
{
    let k1 = crate::model::InstView {
        kind: InstViewKind::Iconst {
            ty: LogicalType::Ptr,
            imm: addr as i64,
            out: v.vals.len() as usize,
        },
    };
    let v1 = v.with_inst(k1).with_val(LogicalType::Ptr);
    assert(v1.blocks[v.current as int].insts == v.cur().insts.push(k1));
}

/// The loop's conditional branch carries the same state to the body
/// and to the exit: whichever way the condition goes, the state values
/// arrive unchanged.
pub proof fn lemma_loop_cond_carries_state(
    v: FnView,
    body: usize,
    exit: usize,
    c: Val,
    args: Seq<usize>,
)
    requires
        v.cursor_open(),
        body != v.current,
        body < v.blocks.len(),
    ensures
        ({
            let w = spec_while_cond(v, body, exit, c, args);
            &&& w.blocks[v.current as int].insts.last().kind matches InstViewKind::Brif {
                cond,
                target_nz,
                args_nz,
                target_z,
                args_z,
            } && cond == c.id && target_nz == body && args_nz == args && target_z == exit && args_z
                == args
        }),
{
    let w = spec_while_cond(v, body, exit, c, args);
    assert(w.blocks[v.current as int].insts.last() == (crate::model::InstView {
        kind: InstViewKind::Brif {
            cond: c.id,
            target_nz: body,
            args_nz: args,
            target_z: exit,
            args_z: args,
        },
    }));
}

/// A conditional both of whose paths were preempted leaves the model
/// exactly as the second path left it: no merge jump, no seal, no
/// cursor move — the conditional defers entirely to the function-level
/// return already emitted on each path.
pub proof fn lemma_both_preempted_emits_nothing(v: FnView, merge_block: usize)
    ensures
        spec_if_finish(v, merge_block, true, false, Seq::empty()) == v,
{
}

} // verus!
