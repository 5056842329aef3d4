//! The iterator-fusion engine: pipelines of map and filter steps over a
//! range source, compiled into a single loop.
//!
//! A [`Pipeline`] describes a chain of combinators; no step produces an
//! intermediate sequence.  Only [`Pipeline::fold`] emits loop blocks:
//! one header, one body and one exit for the whole chain, plus one
//! continuation block per filter step — so a chain of any number of map
//! steps over a source of any length compiles to exactly one loop, and
//! each filter adds a single block, independent of the source's length.
//! A filter rejecting an item short-circuits by branching straight back
//! to the loop header with the accumulator unchanged, never reaching
//! the reducer.
//!
//! The per-item transformations are closed expression trees over the
//! current item (and, for the reducer, the accumulator), evaluated at
//! build time into straight-line instructions inside the loop.

use vstd::prelude::*;

use crate::func::{FnCtx, HostFunc};
use crate::model::{extends_cur_only, FnView, Val};
use crate::slice::Slice;
use crate::types::{BinOp, CmpOp, LogicalType};

verus! {

/// A build-time expression over the current pipeline item (and, where
/// admitted, the fold accumulator), all of one integer logical type.
pub enum JExpr {
    /// The current item.
    Item,
    /// The fold accumulator; admitted only in the reducer.
    Acc,
    /// An integer literal.
    Lit(i64),
    /// A binary arithmetic operation.
    Bin(BinOp, Box<JExpr>, Box<JExpr>),
    /// A comparison; admitted only at the root of a filter predicate.
    Cmp(CmpOp, Box<JExpr>, Box<JExpr>),
}

/// A value expression: no comparison inside, and the accumulator only
/// where `with_acc` admits it.
pub open spec fn value_expr_ok(e: JExpr, with_acc: bool) -> bool
    decreases e,
{
    match e {
        JExpr::Item => true,
        JExpr::Acc => with_acc,
        JExpr::Lit(_) => true,
        JExpr::Bin(_, a, b) => value_expr_ok(*a, with_acc) && value_expr_ok(*b, with_acc),
        JExpr::Cmp(_, _, _) => false,
    }
}

/// A filter predicate: a comparison of two item-only value expressions.
pub open spec fn pred_expr_ok(e: JExpr) -> bool {
    match e {
        JExpr::Cmp(_, a, b) => value_expr_ok(*a, false) && value_expr_ok(*b, false),
        _ => false,
    }
}

/// Every literal of the expression fits the logical type the
/// expression is emitted at.
pub open spec fn expr_lits_fit(e: JExpr, t: LogicalType) -> bool
    decreases e,
{
    match e {
        JExpr::Lit(x) => crate::func::spec_imm_fits(x, t),
        JExpr::Bin(_, a, b) => expr_lits_fit(*a, t) && expr_lits_fit(*b, t),
        JExpr::Cmp(_, a, b) => expr_lits_fit(*a, t) && expr_lits_fit(*b, t),
        _ => true,
    }
}

/// Every literal of every step fits the item type.
pub open spec fn steps_lits_fit(s: Seq<JStep>, t: LogicalType) -> bool {
    forall|i: int|
        0 <= i < s.len() ==> match #[trigger] s[i] {
            JStep::Mapping(m) => expr_lits_fit(m.f, t),
            JStep::Filtering(f) => expr_lits_fit(f.pred, t),
        }
}

/// An item-only value expression is also admissible where the
/// accumulator would be.
pub proof fn lemma_value_expr_mono(e: JExpr)
    requires
        value_expr_ok(e, false),
    ensures
        value_expr_ok(e, true),
    decreases e,
{
    match e {
        JExpr::Bin(_, a, b) => {
            lemma_value_expr_mono(*a);
            lemma_value_expr_mono(*b);
        }
        _ => {}
    }
}

/// The model transition and result of emitting a value expression: the
/// tree is walked left to right, a literal materializes one constant,
/// and each operator node emits its binary operation on the two
/// subtree results.
pub open spec fn spec_emit_value(v: FnView, e: JExpr, item: Val, acc: Val) -> (FnView, Val)
    decreases e,
{
    match e {
        JExpr::Item => (v, item),
        JExpr::Acc => (v, acc),
        JExpr::Lit(x) => (
            v.with_inst(
                crate::model::InstView {
                    kind: crate::model::InstViewKind::Iconst {
                        ty: item.ty,
                        imm: x,
                        out: v.vals.len() as usize,
                    },
                },
            ).with_val(item.ty),
            Val { id: v.vals.len() as usize, ty: item.ty },
        ),
        JExpr::Bin(op, a, b) => {
            let (v1, va) = spec_emit_value(v, *a, item, acc);
            let (v2, vb) = spec_emit_value(v1, *b, item, acc);
            (crate::func::spec_binop_ctx(v2, op, va, vb), crate::func::spec_binop_val(v2, op, va, vb))
        }
        JExpr::Cmp(_, _, _) => (v, item),
    }
}

/// The model transition and result of emitting a filter predicate: the
/// two value operands, then their comparison.
pub open spec fn spec_emit_pred(v: FnView, e: JExpr, item: Val) -> (FnView, Val) {
    match e {
        JExpr::Cmp(cc, a, b) => {
            let (v1, va) = spec_emit_value(v, *a, item, item);
            let (v2, vb) = spec_emit_value(v1, *b, item, item);
            (
                v2.with_inst(
                    crate::model::InstView {
                        kind: crate::model::InstViewKind::Cmp {
                            op: cc,
                            signed: va.ty.spec_signed(),
                            lhs: va.id,
                            rhs: vb.id,
                            out: v2.vals.len() as usize,
                        },
                    },
                ).with_val(LogicalType::Bool),
                Val { id: v2.vals.len() as usize, ty: LogicalType::Bool },
            )
        }
        _ => (v, item),
    }
}

/// Emits the straight-line instructions of a value expression at the
/// cursor, over the given item and accumulator values.
pub fn emit_value(fx: &mut FnCtx, e: &JExpr, item: Val, acc: Val) -> (r: Val)
    requires
        old(fx).wf(),
        old(fx)@.cursor_open(),
        value_expr_ok(*e, true),
        expr_lits_fit(*e, item.ty),
        old(fx)@.val_ok(item),
        old(fx)@.val_ok(acc),
        acc.ty == item.ty,
        item.ty.spec_is_int(),
    ensures
        final(fx).wf(),
        final(fx)@.cursor_open(),
        extends_cur_only(old(fx)@, final(fx)@),
        final(fx)@.val_ok(r),
        r.ty == item.ty,
        (final(fx)@, r) == spec_emit_value(old(fx)@, *e, item, acc),
    decreases *e,
{
    match e {
        JExpr::Item => {
            proof {
                crate::func::lemma_extends_refl(fx@);
            }
            item
        }
        JExpr::Acc => {
            proof {
                crate::func::lemma_extends_refl(fx@);
            }
            acc
        }
        JExpr::Lit(x) => {
            let r = fx.iconst(item.ty, *x);
            proof {
                let k = crate::model::InstView {
                    kind: crate::model::InstViewKind::Iconst {
                        ty: item.ty,
                        imm: *x,
                        out: old(fx)@.vals.len() as usize,
                    },
                };
                crate::func::lemma_extends_with_inst(old(fx)@, k);
                crate::func::lemma_extends_with_val(old(fx)@.with_inst(k), item.ty);
                crate::model::lemma_extends_cur_only_trans(old(fx)@, old(fx)@.with_inst(k), fx@);
            }
            r
        }
        JExpr::Bin(op, a, b) => {
            let va = emit_value(fx, a, item, acc);
            proof {
                crate::func::lemma_val_ok_extends(old(fx)@, fx@, item);
                crate::func::lemma_val_ok_extends(old(fx)@, fx@, acc);
            }
            let ghost mid = fx@;
            let vb = emit_value(fx, b, item, acc);
            proof {
                crate::func::lemma_val_ok_extends(mid, fx@, va);
                crate::model::lemma_extends_cur_only_trans(old(fx)@, mid, fx@);
            }
            let ghost mid2 = fx@;
            let r = fx.binop(*op, va, vb);
            proof {
                crate::func::lemma_binop_extends(mid2, *op, va, vb);
                crate::model::lemma_extends_cur_only_trans(old(fx)@, mid2, fx@);
            }
            r
        }
        JExpr::Cmp(_, _, _) => {
            proof {
                assert(false);
            }
            item
        }
    }
}

/// Emits the straight-line instructions of a filter predicate at the
/// cursor, yielding a boolean value.
pub fn emit_pred(fx: &mut FnCtx, e: &JExpr, item: Val) -> (r: Val)
    requires
        old(fx).wf(),
        old(fx)@.cursor_open(),
        pred_expr_ok(*e),
        expr_lits_fit(*e, item.ty),
        old(fx)@.val_ok(item),
        item.ty.spec_is_int(),
    ensures
        final(fx).wf(),
        final(fx)@.cursor_open(),
        extends_cur_only(old(fx)@, final(fx)@),
        final(fx)@.val_ok(r),
        r.ty == LogicalType::Bool,
        (final(fx)@, r) == spec_emit_pred(old(fx)@, *e, item),
{
    match e {
        JExpr::Cmp(cc, a, b) => {
            proof {
                lemma_value_expr_mono(**a);
                lemma_value_expr_mono(**b);
            }
            let va = emit_value(fx, a, item, item);
            proof {
                crate::func::lemma_val_ok_extends(old(fx)@, fx@, item);
            }
            let ghost mid = fx@;
            let vb = emit_value(fx, b, item, item);
            proof {
                crate::func::lemma_val_ok_extends(mid, fx@, va);
                crate::model::lemma_extends_cur_only_trans(old(fx)@, mid, fx@);
            }
            let ghost mid2 = fx@;
            let r = fx.icmp(*cc, va, vb);
            proof {
                let k = crate::model::InstView {
                    kind: crate::model::InstViewKind::Cmp {
                        op: *cc,
                        signed: va.ty.spec_signed(),
                        lhs: va.id,
                        rhs: vb.id,
                        out: mid2.vals.len() as usize,
                    },
                };
                crate::func::lemma_extends_with_inst(mid2, k);
                crate::func::lemma_extends_with_val(mid2.with_inst(k), LogicalType::Bool);
                crate::model::lemma_extends_cur_only_trans(mid2, mid2.with_inst(k), fx@);
                crate::model::lemma_extends_cur_only_trans(old(fx)@, mid2, fx@);
            }
            r
        }
        _ => {
            proof {
                assert(false);
            }
            item
        }
    }
}

/// A filter step: items failing the predicate never reach the rest of
/// the chain.
pub struct Filter {
    /// The predicate, an item-only comparison expression.
    pub pred: JExpr,
}

/// A map step: each item is replaced by the expression's value.
pub struct Mapped {
    /// The transformation, an item-only value expression.
    pub f: JExpr,
}

/// One combinator of a pipeline.
pub enum JStep {
    /// A map step.
    Mapping(Mapped),
    /// A filter step.
    Filtering(Filter),
}

/// Every step of a chain is well formed.
pub open spec fn steps_ok(s: Seq<JStep>) -> bool {
    forall|i: int|
        0 <= i < s.len() ==> match #[trigger] s[i] {
            JStep::Mapping(m) => value_expr_ok(m.f, false),
            JStep::Filtering(f) => pred_expr_ok(f.pred),
        }
}

/// How many steps of the chain are filters.
pub open spec fn filter_count(s: Seq<JStep>) -> nat
    decreases s.len(),
{
    if s.len() == 0 {
        0
    } else {
        (if s[0] is Filtering {
            1nat
        } else {
            0nat
        }) + filter_count(s.skip(1))
    }
}

/// Filter counting distributes over taking one more step.
pub proof fn lemma_filter_count_take_step(s: Seq<JStep>, k: int)
    requires
        0 <= k < s.len(),
    ensures
        filter_count(s.take(k + 1)) == filter_count(s.take(k)) + (if s[k] is Filtering {
            1nat
        } else {
            0nat
        }),
    decreases k,
{
    if k == 0 {
        assert(s.take(1) =~= seq![s[0]]);
        assert(s.take(1).skip(1) =~= Seq::<JStep>::empty());
        assert(s.take(0) =~= Seq::<JStep>::empty());
    } else {
        lemma_filter_count_take_step(s.skip(1), k - 1);
        assert(s.take(k + 1).skip(1) =~= s.skip(1).take(k));
        assert(s.take(k).skip(1) =~= s.skip(1).take(k - 1));
        assert(s.take(k + 1)[0] == s[0]);
        assert(s.take(k)[0] == s[0]);
        assert(s.skip(1)[k - 1] == s[k]);
    }
}

/// A counted range source: the loop iterates the item from `start`
/// (inclusive) to `end` (exclusive), stepping by one.
pub struct RangeJiter {
    /// The first item.
    pub start: Val,
    /// One past the last item.
    pub end: Val,
}

/// Where a pipeline's items come from.
pub enum PipeSource {
    /// The integers of a counted range.
    Counted(RangeJiter),
    /// The elements of a slice: an index variable steps through it,
    /// checked against the slice's length each iteration.
    Sliced(Slice),
}

/// A fused pipeline: a source and a chain of combinators.
pub struct Pipeline {
    /// The source.
    pub src: PipeSource,
    /// The combinators, applied in order.
    pub steps: Vec<JStep>,
}

/// The index value a source starts from: the range's start value, or a
/// fresh zero constant for a slice.
pub open spec fn spec_fold_index(v: FnView, src: PipeSource) -> (FnView, Val) {
    match src {
        PipeSource::Counted(rj) => (v, rj.start),
        PipeSource::Sliced(_) => (
            v.with_inst(
                crate::model::InstView {
                    kind: crate::model::InstViewKind::Iconst {
                        ty: LogicalType::U64,
                        imm: 0,
                        out: v.vals.len() as usize,
                    },
                },
            ).with_val(LogicalType::U64),
            Val { id: v.vals.len() as usize, ty: LogicalType::U64 },
        ),
    }
}

/// The has-more test a source emits in the loop header: index unequal
/// to the range's end, or index below the slice's length.
pub open spec fn spec_fold_compare(v: FnView, src: PipeSource, i_val: Val) -> (FnView, Val) {
    let out = v.vals.len() as usize;
    match src {
        PipeSource::Counted(rj) => (
            v.with_inst(
                crate::model::InstView {
                    kind: crate::model::InstViewKind::Cmp {
                        op: CmpOp::Ne,
                        signed: i_val.ty.spec_signed(),
                        lhs: i_val.id,
                        rhs: rj.end.id,
                        out,
                    },
                },
            ).with_val(LogicalType::Bool),
            Val { id: out, ty: LogicalType::Bool },
        ),
        PipeSource::Sliced(sl) => (
            v.with_inst(
                crate::model::InstView {
                    kind: crate::model::InstViewKind::Cmp {
                        op: CmpOp::Lt,
                        signed: i_val.ty.spec_signed(),
                        lhs: i_val.id,
                        rhs: sl.len.id,
                        out,
                    },
                },
            ).with_val(LogicalType::Bool),
            Val { id: out, ty: LogicalType::Bool },
        ),
    }
}

/// The item a source yields in the loop body: the index itself for a
/// range, or the element loaded at `base + index * element_size` for a
/// slice.
pub open spec fn spec_fold_item(v: FnView, src: PipeSource, i_val: Val) -> (FnView, Val) {
    match src {
        PipeSource::Counted(_) => (v, i_val),
        PipeSource::Sliced(sl) => {
            let (v1, er) = crate::slice::spec_slice_get(v, sl, i_val);
            let out = v1.vals.len() as usize;
            (
                v1.with_inst(
                    crate::model::InstView {
                        kind: crate::model::InstViewKind::Load {
                            ty: sl.elem,
                            addr: er.addr.id,
                            offset: 0,
                            out,
                        },
                    },
                ).with_val(sl.elem),
                Val { id: out, ty: sl.elem },
            )
        }
    }
}

/// One combinator's emission inside the fused loop body: a map emits
/// its expression over the item; a filter emits its predicate, a fresh
/// continuation block, and the branch that either falls into the
/// continuation or returns straight to the header carrying the loop
/// state `back` unchanged — so a rejected item never reaches what
/// follows.
pub open spec fn spec_fold_step_one(
    v: FnView,
    x: JStep,
    item: Val,
    back: Seq<usize>,
    header: usize,
) -> (FnView, Val) {
    match x {
        JStep::Mapping(m) => spec_emit_value(v, m.f, item, item),
        JStep::Filtering(f) => {
            let (v1, p) = spec_emit_pred(v, f.pred, item);
            let cont = v1.blocks.len() as usize;
            (
                v1.with_block(Seq::empty()).with_inst(
                    crate::model::InstView {
                        kind: crate::model::InstViewKind::Brif {
                            cond: p.id,
                            target_nz: cont,
                            args_nz: Seq::empty(),
                            target_z: header,
                            args_z: back,
                        },
                    },
                ).with_cur_filled().with_cursor(cont).with_sealed(cont),
                item,
            )
        }
    }
}

/// The whole chain's emission inside the loop body, one step after the
/// other, threading the current item value through.
pub open spec fn spec_fold_steps(
    v: FnView,
    steps: Seq<JStep>,
    item: Val,
    back: Seq<usize>,
    header: usize,
) -> (FnView, Val)
    decreases steps.len(),
{
    if steps.len() == 0 {
        (v, item)
    } else {
        let (v1, it1) = spec_fold_step_one(v, steps[0], item, back, header);
        spec_fold_steps(v1, steps.skip(1), it1, back, header)
    }
}

/// Step emission distributes over appending one combinator.
pub proof fn lemma_fold_steps_snoc(
    v: FnView,
    steps: Seq<JStep>,
    x: JStep,
    item: Val,
    back: Seq<usize>,
    header: usize,
)
    ensures
        ({
            let (v1, it1) = spec_fold_steps(v, steps, item, back, header);
            spec_fold_steps(v, steps.push(x), item, back, header) == spec_fold_step_one(
                v1,
                x,
                it1,
                back,
                header,
            )
        }),
    decreases steps.len(),
{
    if steps.len() == 0 {
        assert(steps.push(x)[0] == x);
        assert(steps.push(x).skip(1) =~= Seq::<JStep>::empty());
        let (v1, it1) = spec_fold_step_one(v, x, item, back, header);
        assert(spec_fold_steps(v1, steps.push(x).skip(1), it1, back, header) == (v1, it1));
        assert(spec_fold_steps(v, steps, item, back, header) == (v, item));
        assert(spec_fold_steps(v, steps.push(x), item, back, header) == spec_fold_steps(
            v1,
            steps.push(x).skip(1),
            it1,
            back,
            header,
        ));
    } else {
        assert(steps.push(x)[0] == steps[0]);
        assert(steps.push(x).skip(1) =~= steps.skip(1).push(x));
        let (v1, it1) = spec_fold_step_one(v, steps[0], item, back, header);
        assert(spec_fold_steps(v, steps.push(x), item, back, header) == spec_fold_steps(
            v1,
            steps.skip(1).push(x),
            it1,
            back,
            header,
        ));
        assert(spec_fold_steps(v, steps, item, back, header) == spec_fold_steps(
            v1,
            steps.skip(1),
            it1,
            back,
            header,
        ));
        lemma_fold_steps_snoc(v1, steps.skip(1), x, it1, back, header);
    }
}

/// The model transition of [`Pipeline::fold`]'s loop scaffolding, up
/// to the point where the body block holds the advanced index and the
/// extracted item: index variable declared and initialized; header,
/// body and exit blocks carrying the accumulator; entry jump passing
/// `init`; the header reading the index, testing has-more, and
/// branching with the accumulator both ways; the body stepping the
/// index by one and extracting the item.  Yields the model and the
/// item value.
pub open spec fn spec_fold_setup_view(v: FnView, src: PipeSource, init: Val) -> (FnView, Val) {
    let t = init.ty;
    let (v0, idx0) = spec_fold_index(v, src);
    let rj_var = v0.vars.len() as usize;
    let v1 = v0.with_var(idx0.ty).with_inst(
        crate::model::InstView {
            kind: crate::model::InstViewKind::DefVar { var: rj_var, val: idx0.id },
        },
    );
    let header = v1.blocks.len() as usize;
    let body = (v1.blocks.len() + 1) as usize;
    let exit = (v1.blocks.len() + 2) as usize;
    let v2 = v1.with_block(seq![t]).with_block(seq![t]).with_block(seq![t]);
    let v3 = v2.with_inst(
        crate::model::InstView {
            kind: crate::model::InstViewKind::Jump { target: header, args: seq![init.id] },
        },
    ).with_cur_filled().with_cursor(header);
    let acc0 = Val { id: v3.blocks[header as int].param_base, ty: t };
    let i_val = Val { id: v3.vals.len() as usize, ty: idx0.ty };
    let v4 = v3.with_inst(
        crate::model::InstView {
            kind: crate::model::InstViewKind::UseVar { var: rj_var, out: i_val.id },
        },
    ).with_val(idx0.ty);
    let (v5, has) = spec_fold_compare(v4, src, i_val);
    let v6 = v5.with_inst(
        crate::model::InstView {
            kind: crate::model::InstViewKind::Brif {
                cond: has.id,
                target_nz: body,
                args_nz: seq![acc0.id],
                target_z: exit,
                args_z: seq![acc0.id],
            },
        },
    ).with_cur_filled().with_cursor(body).with_sealed(body);
    let one = Val { id: v6.vals.len() as usize, ty: i_val.ty };
    let v7 = v6.with_inst(
        crate::model::InstView {
            kind: crate::model::InstViewKind::Iconst { ty: i_val.ty, imm: 1, out: one.id },
        },
    ).with_val(i_val.ty);
    let v8 = crate::func::spec_binop_ctx(v7, BinOp::Add, i_val, one);
    let ni = crate::func::spec_binop_val(v7, BinOp::Add, i_val, one);
    let v9 = v8.with_inst(
        crate::model::InstView {
            kind: crate::model::InstViewKind::DefVar { var: rj_var, val: ni.id },
        },
    );
    spec_fold_item(v9, src, i_val)
}

/// The accumulator value of a fold's loop body: the body block's one
/// parameter, whose id follows the header's.
pub open spec fn spec_fold_acc(v: FnView, src: PipeSource, t: LogicalType) -> Val {
    Val { id: (spec_fold_index(v, src).0.vals.len() + 1) as usize, ty: t }
}

/// The complete model transition of [`Pipeline::fold`], and the value
/// it yields: the loop scaffolding of [`spec_fold_setup_view`], then
/// the chain's emission in the body (filters branching back to the
/// header with the accumulator unchanged), the reducer over the
/// surviving item, the back edge carrying the new accumulator, the
/// header sealed only then, the exit entered and sealed, and the exit
/// block's accumulator parameter as the result.
#[verifier::opaque]
pub open spec fn spec_fold(
    v: FnView,
    src: PipeSource,
    steps: Seq<JStep>,
    init: Val,
    reducer: JExpr,
) -> (FnView, Val) {
    let t = init.ty;
    let header = v.blocks.len() as usize;
    let exit = (v.blocks.len() + 2) as usize;
    let acc = spec_fold_acc(v, src, t);
    let (v10, item0) = spec_fold_setup_view(v, src, init);
    let (v11, item1) = spec_fold_steps(v10, steps, item0, seq![acc.id], header);
    let (v12, new_acc) = spec_emit_value(v11, reducer, item1, acc);
    let v13 = v12.with_inst(
        crate::model::InstView {
            kind: crate::model::InstViewKind::Jump { target: header, args: seq![new_acc.id] },
        },
    ).with_cur_filled().with_sealed(header).with_cursor(exit).with_sealed(exit);
    (v13, Val { id: v13.blocks[exit as int].param_base, ty: t })
}

/// The loop scaffolding shared by the pipeline terminals, as built:
/// block and value handles for the open fused loop, with the body
/// block current and the item extracted.
#[derive(Clone, Copy)]
struct FoldFrame {
    header: usize,
    exit: usize,
    acc: Val,
    item: Val,
}

impl Pipeline {
    /// A pipeline over the integers from `start` to `end`.
    pub fn range(start: Val, end: Val) -> (r: Pipeline)
        ensures
            r.src matches PipeSource::Counted(rj) && rj.start == start && rj.end == end,
            r.steps@ =~= Seq::<JStep>::empty(),
    {
        Pipeline { src: PipeSource::Counted(RangeJiter { start, end }), steps: Vec::new() }
    }

    /// A pipeline over the elements of a slice.
    pub fn over_slice(s: Slice) -> (r: Pipeline)
        ensures
            r.src matches PipeSource::Sliced(sl) && sl == s,
            r.steps@ =~= Seq::<JStep>::empty(),
    {
        Pipeline { src: PipeSource::Sliced(s), steps: Vec::new() }
    }

    /// This pipeline with a filter step appended.
    pub fn filtered(self, pred: JExpr) -> (r: Pipeline)
        ensures
            r.src == self.src,
            r.steps@.len() == self.steps@.len() + 1,
            r.steps@ == self.steps@.push(JStep::Filtering(Filter { pred })),
    {
        let mut steps = self.steps;
        steps.push(JStep::Filtering(Filter { pred }));
        Pipeline { src: self.src, steps }
    }

    /// This pipeline with a map step appended.
    pub fn mapped(self, f: JExpr) -> (r: Pipeline)
        ensures
            r.src == self.src,
            r.steps@.len() == self.steps@.len() + 1,
            r.steps@ == self.steps@.push(JStep::Mapping(Mapped { f })),
    {
        let mut steps = self.steps;
        steps.push(JStep::Mapping(Mapped { f }));
        Pipeline { src: self.src, steps }
    }

    /// Builds the fused loop's scaffolding: declares and initializes
    /// the index variable, creates the header, body and exit blocks
    /// carrying the accumulator, enters the header, emits the index
    /// read, the has-more test and the branch, then — in the body —
    /// steps the index by one before anything can branch back, and
    /// extracts the item.
    #[verifier::rlimit(100)]
    fn fold_setup(&self, fx: &mut FnCtx, init: Val) -> (r: FoldFrame)
        requires
            old(fx).wf(),
            old(fx)@.cursor_open(),
            old(fx)@.val_ok(init),
            init.ty.spec_is_int(),
            match self.src {
                PipeSource::Counted(rj) => old(fx)@.val_ok(rj.start) && old(fx)@.val_ok(rj.end)
                    && rj.start.ty == init.ty && rj.end.ty == init.ty,
                PipeSource::Sliced(sl) => sl.wf_in(old(fx)@) && sl.elem == init.ty,
            },
        ensures
            final(fx).wf(),
            final(fx)@.cursor_open(),
            (final(fx)@, r.item) == spec_fold_setup_view(old(fx)@, self.src, init),
            r.header == old(fx)@.blocks.len() as usize,
            r.exit == (old(fx)@.blocks.len() + 2) as usize,
            r.acc == spec_fold_acc(old(fx)@, self.src, init.ty),
            final(fx)@.blocks.len() == old(fx)@.blocks.len() + 3,
            r.header < final(fx)@.blocks.len(),
            r.exit < final(fx)@.blocks.len(),
            r.header != r.exit,
            final(fx)@.current != r.header,
            final(fx)@.current != r.exit,
            final(fx)@.blocks[r.header as int].params == seq![init.ty],
            !final(fx)@.blocks[r.header as int].sealed,
            final(fx)@.blocks[r.exit as int].params == seq![init.ty],
            !final(fx)@.blocks[r.exit as int].sealed,
            !final(fx)@.blocks[r.exit as int].filled,
            final(fx)@.val_ok(r.item),
            r.item.ty == init.ty,
            final(fx)@.val_ok(r.acc),
            r.acc.ty == init.ty,
            final(fx)@.ret == old(fx)@.ret,
            final(fx)@.sig_params == old(fx)@.sig_params,
    {
        let t = init.ty;
        let idx0 = match &self.src {
            PipeSource::Counted(rj) => rj.start,
            PipeSource::Sliced(_) => fx.iconst(LogicalType::U64, 0),
        };
        proof {
            if self.src is Sliced {
                assert(fx@.vals[init.id as int] == old(fx)@.vals[init.id as int]);
                match self.src {
                    PipeSource::Sliced(sl) => {
                        assert(fx@.vals[sl.base.id as int] == old(fx)@.vals[sl.base.id as int]);
                        assert(fx@.vals[sl.len.id as int] == old(fx)@.vals[sl.len.id as int]);
                    }
                    _ => {}
                }
            }
            assert((fx@, idx0) =~~= spec_fold_index(old(fx)@, self.src));
        }
        let ghost g0 = spec_fold_index(old(fx)@, self.src).0;
        let ghost with_idx = fx@;
        let rj = fx.new_var(idx0);
        proof {
            crate::func::lemma_wf_implies_tables_ok(*fx);
            assert(fx@.vals == with_idx.vals);
            assert(rj.id == g0.vars.len() as usize);
            assert(fx@ =~~= g0.with_var(idx0.ty).with_inst(
                crate::model::InstView {
                    kind: crate::model::InstViewKind::DefVar { var: rj.id, val: idx0.id },
                },
            ));
        }
        let ghost g1 = g0.with_var(idx0.ty).with_inst(
            crate::model::InstView {
                kind: crate::model::InstViewKind::DefVar { var: rj.id, val: idx0.id },
            },
        );
        let mut shape: Vec<LogicalType> = Vec::new();
        shape.push(t);
        let header = fx.new_block(&shape);
        let body = fx.new_block(&shape);
        let exit = fx.new_block(&shape);
        proof {
            assert(shape@ =~= seq![t]);
            assert(fx@ =~~= g1.with_block(seq![t]).with_block(seq![t]).with_block(seq![t]));
        }
        let ghost g2 = g1.with_block(seq![t]).with_block(seq![t]).with_block(seq![t]);
        let mut init_args: Vec<Val> = Vec::new();
        init_args.push(init);
        proof {
            assert(FnView::tys_of(init_args@) =~= shape@);
            assert(fx@.val_ok(init)) by {
                assert(fx@.vals[init.id as int] == with_idx.vals[init.id as int]);
            }
        }
        fx.jump_to(header, &init_args);
        fx.switch_to(header);
        proof {
            assert(FnView::ids_of(init_args@) =~= seq![init.id]);
            assert(fx@ =~~= g2.with_inst(
                crate::model::InstView {
                    kind: crate::model::InstViewKind::Jump { target: header, args: seq![init.id] },
                },
            ).with_cur_filled().with_cursor(header));
        }
        let ghost g3 = g2.with_inst(
            crate::model::InstView {
                kind: crate::model::InstViewKind::Jump { target: header, args: seq![init.id] },
            },
        ).with_cur_filled().with_cursor(header);
        let hdr_state = fx.block_params(header);
        let acc0 = hdr_state[0];
        proof {
            assert(acc0 == (Val { id: g3.blocks[header as int].param_base, ty: t }));
        }
        let i_val = fx.read_var(rj);
        proof {
            assert(fx@ =~~= g3.with_inst(
                crate::model::InstView {
                    kind: crate::model::InstViewKind::UseVar { var: rj.id, out: i_val.id },
                },
            ).with_val(idx0.ty));
        }
        let ghost g4 = g3.with_inst(
            crate::model::InstView {
                kind: crate::model::InstViewKind::UseVar { var: rj.id, out: i_val.id },
            },
        ).with_val(idx0.ty);
        let has = match &self.src {
            PipeSource::Counted(rj_src) => {
                proof {
                    assert(fx@.vals[rj_src.end.id as int] == with_idx.vals[rj_src.end.id as int]);
                }
                fx.icmp(CmpOp::Ne, i_val, rj_src.end)
            }
            PipeSource::Sliced(sl) => {
                proof {
                    assert(fx@.vals[sl.len.id as int] == with_idx.vals[sl.len.id as int]);
                }
                fx.icmp(CmpOp::Lt, i_val, sl.len)
            }
        };
        proof {
            assert((fx@, has) =~~= spec_fold_compare(g4, self.src, i_val));
        }
        let ghost g5 = spec_fold_compare(g4, self.src, i_val).0;
        let mut hdr_args: Vec<Val> = Vec::new();
        hdr_args.push(acc0);
        proof {
            assert(FnView::tys_of(hdr_args@) =~= shape@);
        }
        fx.brif_to(has, body, &hdr_args, exit, &hdr_args);
        fx.switch_to(body);
        fx.seal(body);
        proof {
            assert(FnView::ids_of(hdr_args@) =~= seq![acc0.id]);
            assert(fx@ =~~= g5.with_inst(
                crate::model::InstView {
                    kind: crate::model::InstViewKind::Brif {
                        cond: has.id,
                        target_nz: body,
                        args_nz: seq![acc0.id],
                        target_z: exit,
                        args_z: seq![acc0.id],
                    },
                },
            ).with_cur_filled().with_cursor(body).with_sealed(body));
        }
        let ghost g6 = g5.with_inst(
            crate::model::InstView {
                kind: crate::model::InstViewKind::Brif {
                    cond: has.id,
                    target_nz: body,
                    args_nz: seq![acc0.id],
                    target_z: exit,
                    args_z: seq![acc0.id],
                },
            },
        ).with_cur_filled().with_cursor(body).with_sealed(body);
        let body_state = fx.block_params(body);
        let acc = body_state[0];
        proof {
            assert(acc == (Val { id: g6.blocks[body as int].param_base, ty: t }));
            assert(acc == spec_fold_acc(old(fx)@, self.src, t));
        }
        // step the source before any filter can branch back to the
        // header, so a rejected item is never revisited
        proof {
            assert(fx@.val_ok(i_val));
        }
        let one = fx.iconst(i_val.ty, 1);
        proof {
            assert(fx@.val_ok(i_val));
            assert(fx@ =~~= g6.with_inst(
                crate::model::InstView {
                    kind: crate::model::InstViewKind::Iconst { ty: i_val.ty, imm: 1, out: one.id },
                },
            ).with_val(i_val.ty));
        }
        let ghost g7 = g6.with_inst(
            crate::model::InstView {
                kind: crate::model::InstViewKind::Iconst { ty: i_val.ty, imm: 1, out: one.id },
            },
        ).with_val(i_val.ty);
        let next_i = fx.binop(BinOp::Add, i_val, one);
        proof {
            assert(fx@ =~~= crate::func::spec_binop_ctx(g7, BinOp::Add, i_val, one));
        }
        let ghost g8 = crate::func::spec_binop_ctx(g7, BinOp::Add, i_val, one);
        fx.assign(rj, next_i);
        proof {
            assert(fx@ =~~= g8.with_inst(
                crate::model::InstView {
                    kind: crate::model::InstViewKind::DefVar { var: rj.id, val: next_i.id },
                },
            ));
        }
        let ghost g9 = g8.with_inst(
            crate::model::InstView {
                kind: crate::model::InstViewKind::DefVar { var: rj.id, val: next_i.id },
            },
        );
        let ghost pre_item = fx@;
        let item = match &self.src {
            PipeSource::Counted(_) => {
                proof {
                    crate::func::lemma_extends_refl(fx@);
                }
                i_val
            }
            PipeSource::Sliced(sl) => {
                proof {
                    assert(fx@.vals[sl.base.id as int] == with_idx.vals[sl.base.id as int]);
                    assert(fx@.vals[sl.len.id as int] == with_idx.vals[sl.len.id as int]);
                    assert(fx@.val_ok(i_val));
                }
                let ghost s0 = fx@;
                let er = sl.get(fx, i_val);
                let ghost s1 = fx@;
                let rv = er.get(fx);
                proof {
                    crate::model::lemma_extends_cur_only_trans(s0, s1, fx@);
                }
                rv
            }
        };
        proof {
            assert(crate::model::extends_cur_only(pre_item, fx@));
            assert(fx@.blocks[header as int] == pre_item.blocks[header as int]);
            assert(fx@.blocks[exit as int] == pre_item.blocks[exit as int]);
            assert(fx@.val_ok(acc));
            assert(fx@.val_ok(item));
            assert((fx@, item) =~~= spec_fold_item(g9, self.src, i_val));
            assert((fx@, item) =~~= spec_fold_setup_view(old(fx)@, self.src, init));
        }
        FoldFrame { header, exit, acc, item }
    }

    /// Compiles the whole chain into one loop folding the items into an
    /// accumulator: the loop's carried state is the accumulator alone,
    /// the source is stepped once per iteration, each filter
    /// short-circuits back to the header, and the reducer combines the
    /// surviving item with the accumulator.
    ///
    /// Exactly `3 + (number of filter steps)` blocks are created,
    /// however long the chain of maps and however long the source: the
    /// fusion produces one loop with no intermediate materialization.
    /// The emitted program and the result value are pinned exactly by
    /// [`spec_fold`].
    #[verifier::rlimit(100)]
    pub fn fold(&self, fx: &mut FnCtx, init: Val, reducer: JExpr) -> (r: Val)
        requires
            old(fx).wf(),
            old(fx)@.cursor_open(),
            old(fx)@.val_ok(init),
            init.ty.spec_is_int(),
            match self.src {
                PipeSource::Counted(rj) => old(fx)@.val_ok(rj.start) && old(fx)@.val_ok(rj.end)
                    && rj.start.ty == init.ty && rj.end.ty == init.ty,
                PipeSource::Sliced(sl) => sl.wf_in(old(fx)@) && sl.elem == init.ty,
            },
            steps_ok(self.steps@),
            steps_lits_fit(self.steps@, init.ty),
            value_expr_ok(reducer, true),
            expr_lits_fit(reducer, init.ty),
        ensures
            final(fx).wf(),
            final(fx)@.cursor_open(),
            final(fx)@.blocks.len() == old(fx)@.blocks.len() + 3 + filter_count(self.steps@),
            final(fx)@.val_ok(r),
            r.ty == init.ty,
            final(fx)@.ret == old(fx)@.ret,
            final(fx)@.sig_params == old(fx)@.sig_params,
            (final(fx)@, r) == spec_fold(old(fx)@, self.src, self.steps@, init, reducer),
    {
        let t = init.ty;
        let frame = self.fold_setup(fx, init);
        let header = frame.header;
        let exit = frame.exit;
        let acc = frame.acc;
        let mut item = frame.item;
        let ghost after_setup = fx@;
        let ghost item0g = item;
        proof {
            assert(self.steps@.take(0) =~= Seq::<JStep>::empty());
            assert(spec_fold_steps(after_setup, self.steps@.take(0), item0g, seq![acc.id], header)
                == (after_setup, item0g));
        }
        let n = self.steps.len();
        let mut k: usize = 0;
        while k < n
            invariant
                n == self.steps@.len(),
                k <= n,
                steps_ok(self.steps@),
                steps_lits_fit(self.steps@, t),
                fx.wf(),
                fx@.cursor_open(),
                fx@.blocks.len() == after_setup.blocks.len() + filter_count(self.steps@.take(k as int)),
                header < after_setup.blocks.len(),
                exit < after_setup.blocks.len(),
                header != exit,
                fx@.current != header,
                fx@.current != exit,
                fx@.blocks[header as int].params == seq![t],
                !fx@.blocks[header as int].sealed,
                fx@.blocks[exit as int].params == seq![t],
                !fx@.blocks[exit as int].sealed,
                !fx@.blocks[exit as int].filled,
                fx@.val_ok(item),
                item.ty == t,
                fx@.val_ok(acc),
                acc.ty == t,
                t == init.ty,
                t.spec_is_int(),
                fx@.ret == after_setup.ret,
                fx@.sig_params == after_setup.sig_params,
                fx@ == spec_fold_steps(
                    after_setup,
                    self.steps@.take(k as int),
                    item0g,
                    seq![acc.id],
                    header,
                ).0,
                item == spec_fold_steps(
                    after_setup,
                    self.steps@.take(k as int),
                    item0g,
                    seq![acc.id],
                    header,
                ).1,
            decreases n - k,
        {
            proof {
                lemma_filter_count_take_step(self.steps@, k as int);
            }
            let ghost pre = fx@;
            let ghost item_pre = item;
            match &self.steps[k] {
                JStep::Mapping(m) => {
                    proof {
                        lemma_value_expr_mono(m.f);
                        assert(self.steps@[k as int] == JStep::Mapping(*m));
                    }
                    item = emit_value(fx, &m.f, item, item);
                    proof {
                        assert(pre.blocks[header as int] == fx@.blocks[header as int]);
                        assert(pre.blocks[exit as int] == fx@.blocks[exit as int]);
                        crate::func::lemma_val_ok_extends(pre, fx@, acc);
                        assert(self.steps@.take(k + 1) =~= self.steps@.take(k as int).push(
                            self.steps@[k as int],
                        ));
                        assert((fx@, item) =~~= spec_fold_step_one(
                            pre,
                            self.steps@[k as int],
                            item_pre,
                            seq![acc.id],
                            header,
                        ));
                        lemma_fold_steps_snoc(
                            after_setup,
                            self.steps@.take(k as int),
                            self.steps@[k as int],
                            item0g,
                            seq![acc.id],
                            header,
                        );
                    }
                }
                JStep::Filtering(f) => {
                    let p = emit_pred(fx, &f.pred, item);
                    proof {
                        assert(self.steps@[k as int] == JStep::Filtering(*f));
                        assert(pre.blocks[header as int] == fx@.blocks[header as int]);
                        assert(pre.blocks[exit as int] == fx@.blocks[exit as int]);
                        crate::func::lemma_val_ok_extends(pre, fx@, acc);
                        crate::func::lemma_val_ok_extends(pre, fx@, item);
                        crate::func::lemma_wf_implies_tables_ok(*fx);
                    }
                    let ghost after_pred = fx@;
                    let empty_sh: Vec<LogicalType> = Vec::new();
                    let cont = fx.new_block(&empty_sh);
                    let no_args: Vec<Val> = Vec::new();
                    let mut back_args: Vec<Val> = Vec::new();
                    back_args.push(acc);
                    proof {
                        assert(FnView::tys_of(no_args@) =~= Seq::<LogicalType>::empty());
                        assert(FnView::tys_of(back_args@) =~= seq![t]);
                    }
                    fx.brif_to(p, cont, &no_args, header, &back_args);
                    fx.switch_to(cont);
                    fx.seal(cont);
                    proof {
                        assert(empty_sh@ =~= Seq::<LogicalType>::empty());
                        assert(FnView::ids_of(no_args@) =~= Seq::<usize>::empty());
                        assert(FnView::ids_of(back_args@) =~= seq![acc.id]);
                        assert(self.steps@.take(k + 1) =~= self.steps@.take(k as int).push(
                            self.steps@[k as int],
                        ));
                        assert(fx@ =~~= after_pred.with_block(Seq::empty()).with_inst(
                            crate::model::InstView {
                                kind: crate::model::InstViewKind::Brif {
                                    cond: p.id,
                                    target_nz: cont,
                                    args_nz: Seq::empty(),
                                    target_z: header,
                                    args_z: seq![acc.id],
                                },
                            },
                        ).with_cur_filled().with_cursor(cont).with_sealed(cont));
                        assert((fx@, item) =~~= spec_fold_step_one(
                            pre,
                            self.steps@[k as int],
                            item_pre,
                            seq![acc.id],
                            header,
                        ));
                        lemma_fold_steps_snoc(
                            after_setup,
                            self.steps@.take(k as int),
                            self.steps@[k as int],
                            item0g,
                            seq![acc.id],
                            header,
                        );
                    }
                }
            }
            k = k + 1;
        }
        proof {
            assert(self.steps@.take(n as int) =~= self.steps@);
        }
        let ghost g11 = fx@;
        let ghost item1g = item;
        let new_acc = emit_value(fx, &reducer, item, acc);
        let ghost g12 = fx@;
        let mut back: Vec<Val> = Vec::new();
        back.push(new_acc);
        proof {
            assert(FnView::tys_of(back@) =~= seq![t]);
        }
        fx.jump_to(header, &back);
        fx.seal(header);
        fx.switch_to(exit);
        fx.seal(exit);
        let out = fx.block_params(exit);
        let r = out[0];
        proof {
            assert(fx@.val_ok(r));
            assert(FnView::ids_of(back@) =~= seq![new_acc.id]);
            assert(fx@ =~~= g12.with_inst(
                crate::model::InstView {
                    kind: crate::model::InstViewKind::Jump { target: header, args: seq![new_acc.id] },
                },
            ).with_cur_filled().with_sealed(header).with_cursor(exit).with_sealed(exit));
            assert(r == (Val { id: fx@.blocks[exit as int].param_base, ty: t }));
            assert((fx@, r) =~~= spec_fold(old(fx)@, self.src, self.steps@, init, reducer)) by {
                reveal(spec_fold);
            }
        }
        r
    }

    /// Builds the consumer loop's scaffolding: as [`Pipeline::fold_setup`]
    /// but with no carried accumulator — the blocks take no parameters
    /// and every jump passes none.
    #[verifier::rlimit(100)]
    fn for_each_setup(&self, fx: &mut FnCtx, item_ty: LogicalType) -> (r: FoldFrame)
        requires
            old(fx).wf(),
            old(fx)@.cursor_open(),
            item_ty.spec_is_int(),
            match self.src {
                PipeSource::Counted(rj) => old(fx)@.val_ok(rj.start) && old(fx)@.val_ok(rj.end)
                    && rj.start.ty == item_ty && rj.end.ty == item_ty,
                PipeSource::Sliced(sl) => sl.wf_in(old(fx)@) && sl.elem == item_ty,
            },
        ensures
            final(fx).wf(),
            final(fx)@.cursor_open(),
            (final(fx)@, r.item) == spec_for_each_setup_view(old(fx)@, self.src),
            r.header == old(fx)@.blocks.len() as usize,
            r.exit == (old(fx)@.blocks.len() + 2) as usize,
            final(fx)@.blocks.len() == old(fx)@.blocks.len() + 3,
            r.header < final(fx)@.blocks.len(),
            r.exit < final(fx)@.blocks.len(),
            r.header != r.exit,
            final(fx)@.current != r.header,
            final(fx)@.current != r.exit,
            final(fx)@.blocks[r.header as int].params == Seq::<LogicalType>::empty(),
            !final(fx)@.blocks[r.header as int].sealed,
            final(fx)@.blocks[r.exit as int].params == Seq::<LogicalType>::empty(),
            !final(fx)@.blocks[r.exit as int].sealed,
            !final(fx)@.blocks[r.exit as int].filled,
            final(fx)@.val_ok(r.item),
            r.item.ty == item_ty,
            final(fx)@.ret == old(fx)@.ret,
            final(fx)@.sig_params == old(fx)@.sig_params,
    {
        let idx0 = match &self.src {
            PipeSource::Counted(rj) => rj.start,
            PipeSource::Sliced(_) => fx.iconst(LogicalType::U64, 0),
        };
        proof {
            if self.src is Sliced {
                match self.src {
                    PipeSource::Sliced(sl) => {
                        assert(fx@.vals[sl.base.id as int] == old(fx)@.vals[sl.base.id as int]);
                        assert(fx@.vals[sl.len.id as int] == old(fx)@.vals[sl.len.id as int]);
                    }
                    _ => {}
                }
            }
            assert((fx@, idx0) =~~= spec_fold_index(old(fx)@, self.src));
        }
        let ghost g0 = spec_fold_index(old(fx)@, self.src).0;
        let ghost with_idx = fx@;
        let rj = fx.new_var(idx0);
        proof {
            crate::func::lemma_wf_implies_tables_ok(*fx);
            assert(fx@.vals == with_idx.vals);
            assert(rj.id == g0.vars.len() as usize);
            assert(fx@ =~~= g0.with_var(idx0.ty).with_inst(
                crate::model::InstView {
                    kind: crate::model::InstViewKind::DefVar { var: rj.id, val: idx0.id },
                },
            ));
        }
        let ghost g1 = g0.with_var(idx0.ty).with_inst(
            crate::model::InstView {
                kind: crate::model::InstViewKind::DefVar { var: rj.id, val: idx0.id },
            },
        );
        let shape: Vec<LogicalType> = Vec::new();
        let header = fx.new_block(&shape);
        let body = fx.new_block(&shape);
        let exit = fx.new_block(&shape);
        proof {
            assert(shape@ =~= Seq::<LogicalType>::empty());
            assert(fx@ =~~= g1.with_block(Seq::empty()).with_block(Seq::empty()).with_block(
                Seq::empty(),
            ));
        }
        let ghost g2 = g1.with_block(Seq::empty()).with_block(Seq::empty()).with_block(
            Seq::empty(),
        );
        let no_args: Vec<Val> = Vec::new();
        proof {
            assert(FnView::tys_of(no_args@) =~= shape@);
        }
        fx.jump_to(header, &no_args);
        fx.switch_to(header);
        proof {
            assert(FnView::ids_of(no_args@) =~= Seq::<usize>::empty());
            assert(fx@ =~~= g2.with_inst(
                crate::model::InstView {
                    kind: crate::model::InstViewKind::Jump { target: header, args: Seq::empty() },
                },
            ).with_cur_filled().with_cursor(header));
        }
        let ghost g3 = g2.with_inst(
            crate::model::InstView {
                kind: crate::model::InstViewKind::Jump { target: header, args: Seq::empty() },
            },
        ).with_cur_filled().with_cursor(header);
        let i_val = fx.read_var(rj);
        proof {
            assert(fx@ =~~= g3.with_inst(
                crate::model::InstView {
                    kind: crate::model::InstViewKind::UseVar { var: rj.id, out: i_val.id },
                },
            ).with_val(idx0.ty));
        }
        let ghost g4 = g3.with_inst(
            crate::model::InstView {
                kind: crate::model::InstViewKind::UseVar { var: rj.id, out: i_val.id },
            },
        ).with_val(idx0.ty);
        let has = match &self.src {
            PipeSource::Counted(rj_src) => {
                proof {
                    assert(fx@.vals[rj_src.end.id as int] == with_idx.vals[rj_src.end.id as int]);
                }
                fx.icmp(CmpOp::Ne, i_val, rj_src.end)
            }
            PipeSource::Sliced(sl) => {
                proof {
                    assert(fx@.vals[sl.len.id as int] == with_idx.vals[sl.len.id as int]);
                }
                fx.icmp(CmpOp::Lt, i_val, sl.len)
            }
        };
        proof {
            assert((fx@, has) =~~= spec_fold_compare(g4, self.src, i_val));
        }
        let ghost g5 = spec_fold_compare(g4, self.src, i_val).0;
        fx.brif_to(has, body, &no_args, exit, &no_args);
        fx.switch_to(body);
        fx.seal(body);
        proof {
            assert(fx@ =~~= g5.with_inst(
                crate::model::InstView {
                    kind: crate::model::InstViewKind::Brif {
                        cond: has.id,
                        target_nz: body,
                        args_nz: Seq::empty(),
                        target_z: exit,
                        args_z: Seq::empty(),
                    },
                },
            ).with_cur_filled().with_cursor(body).with_sealed(body));
        }
        let ghost g6 = g5.with_inst(
            crate::model::InstView {
                kind: crate::model::InstViewKind::Brif {
                    cond: has.id,
                    target_nz: body,
                    args_nz: Seq::empty(),
                    target_z: exit,
                    args_z: Seq::empty(),
                },
            },
        ).with_cur_filled().with_cursor(body).with_sealed(body);
        // step the source before any filter can branch back to the
        // header, so a rejected item is never revisited
        let one = fx.iconst(i_val.ty, 1);
        proof {
            assert(fx@.val_ok(i_val));
            assert(fx@ =~~= g6.with_inst(
                crate::model::InstView {
                    kind: crate::model::InstViewKind::Iconst { ty: i_val.ty, imm: 1, out: one.id },
                },
            ).with_val(i_val.ty));
        }
        let ghost g7 = g6.with_inst(
            crate::model::InstView {
                kind: crate::model::InstViewKind::Iconst { ty: i_val.ty, imm: 1, out: one.id },
            },
        ).with_val(i_val.ty);
        let next_i = fx.binop(BinOp::Add, i_val, one);
        proof {
            assert(fx@ =~~= crate::func::spec_binop_ctx(g7, BinOp::Add, i_val, one));
        }
        let ghost g8 = crate::func::spec_binop_ctx(g7, BinOp::Add, i_val, one);
        fx.assign(rj, next_i);
        proof {
            assert(fx@ =~~= g8.with_inst(
                crate::model::InstView {
                    kind: crate::model::InstViewKind::DefVar { var: rj.id, val: next_i.id },
                },
            ));
        }
        let ghost g9 = g8.with_inst(
            crate::model::InstView {
                kind: crate::model::InstViewKind::DefVar { var: rj.id, val: next_i.id },
            },
        );
        let ghost pre_item = fx@;
        let item = match &self.src {
            PipeSource::Counted(_) => {
                proof {
                    crate::func::lemma_extends_refl(fx@);
                }
                i_val
            }
            PipeSource::Sliced(sl) => {
                proof {
                    assert(fx@.vals[sl.base.id as int] == with_idx.vals[sl.base.id as int]);
                    assert(fx@.vals[sl.len.id as int] == with_idx.vals[sl.len.id as int]);
                    assert(fx@.val_ok(i_val));
                }
                let ghost s0 = fx@;
                let er = sl.get(fx, i_val);
                let ghost s1 = fx@;
                let rv = er.get(fx);
                proof {
                    crate::model::lemma_extends_cur_only_trans(s0, s1, fx@);
                }
                rv
            }
        };
        proof {
            assert(crate::model::extends_cur_only(pre_item, fx@));
            assert(fx@.blocks[header as int] == pre_item.blocks[header as int]);
            assert(fx@.blocks[exit as int] == pre_item.blocks[exit as int]);
            assert(fx@.val_ok(item));
            assert((fx@, item) =~~= spec_fold_item(g9, self.src, i_val));
            assert((fx@, item) =~~= spec_for_each_setup_view(old(fx)@, self.src));
        }
        FoldFrame { header, exit, acc: item, item }
    }

    /// Compiles the chain into one loop that calls the host function
    /// once per surviving item, with the item as its single argument.
    /// The same fusion as [`Pipeline::fold`]: `3 + (number of filter
    /// steps)` blocks, one loop, no intermediate sequence.  The
    /// emitted program is pinned exactly by [`spec_for_each`].
    #[verifier::rlimit(100)]
    pub fn for_each(&self, fx: &mut FnCtx, item_ty: LogicalType, consumer: &HostFunc)
        requires
            old(fx).wf(),
            old(fx)@.cursor_open(),
            item_ty.spec_is_int(),
            match self.src {
                PipeSource::Counted(rj) => old(fx)@.val_ok(rj.start) && old(fx)@.val_ok(rj.end)
                    && rj.start.ty == item_ty && rj.end.ty == item_ty,
                PipeSource::Sliced(sl) => sl.wf_in(old(fx)@) && sl.elem == item_ty,
            },
            steps_ok(self.steps@),
            steps_lits_fit(self.steps@, item_ty),
            consumer.param_tys() == seq![item_ty],
            consumer.ret_ty() is None,
        ensures
            final(fx).wf(),
            final(fx)@.cursor_open(),
            final(fx)@.blocks.len() == old(fx)@.blocks.len() + 3 + filter_count(self.steps@),
            final(fx)@.ret == old(fx)@.ret,
            final(fx)@.sig_params == old(fx)@.sig_params,
            final(fx)@ == spec_for_each(old(fx)@, self.src, self.steps@, consumer.spec_addr()),
    {
        let t = item_ty;
        let frame = self.for_each_setup(fx, item_ty);
        let header = frame.header;
        let exit = frame.exit;
        let mut item = frame.item;
        let ghost after_setup = fx@;
        let ghost item0g = item;
        proof {
            assert(self.steps@.take(0) =~= Seq::<JStep>::empty());
            assert(spec_fold_steps(
                after_setup,
                self.steps@.take(0),
                item0g,
                Seq::empty(),
                header,
            ) == (after_setup, item0g));
        }
        let n = self.steps.len();
        let mut k: usize = 0;
        while k < n
            invariant
                n == self.steps@.len(),
                k <= n,
                steps_ok(self.steps@),
                steps_lits_fit(self.steps@, t),
                fx.wf(),
                fx@.cursor_open(),
                fx@.blocks.len() == after_setup.blocks.len() + filter_count(self.steps@.take(k as int)),
                header < after_setup.blocks.len(),
                exit < after_setup.blocks.len(),
                header != exit,
                fx@.current != header,
                fx@.current != exit,
                fx@.blocks[header as int].params == Seq::<LogicalType>::empty(),
                !fx@.blocks[header as int].sealed,
                fx@.blocks[exit as int].params == Seq::<LogicalType>::empty(),
                !fx@.blocks[exit as int].sealed,
                !fx@.blocks[exit as int].filled,
                fx@.val_ok(item),
                item.ty == t,
                t == item_ty,
                t.spec_is_int(),
                fx@.ret == after_setup.ret,
                fx@.sig_params == after_setup.sig_params,
                fx@ == spec_fold_steps(
                    after_setup,
                    self.steps@.take(k as int),
                    item0g,
                    Seq::empty(),
                    header,
                ).0,
                item == spec_fold_steps(
                    after_setup,
                    self.steps@.take(k as int),
                    item0g,
                    Seq::empty(),
                    header,
                ).1,
            decreases n - k,
        {
            proof {
                lemma_filter_count_take_step(self.steps@, k as int);
            }
            let ghost pre = fx@;
            let ghost item_pre = item;
            match &self.steps[k] {
                JStep::Mapping(m) => {
                    proof {
                        lemma_value_expr_mono(m.f);
                        assert(self.steps@[k as int] == JStep::Mapping(*m));
                    }
                    item = emit_value(fx, &m.f, item, item);
                    proof {
                        assert(pre.blocks[header as int] == fx@.blocks[header as int]);
                        assert(pre.blocks[exit as int] == fx@.blocks[exit as int]);
                        assert(self.steps@.take(k + 1) =~= self.steps@.take(k as int).push(
                            self.steps@[k as int],
                        ));
                        assert((fx@, item) =~~= spec_fold_step_one(
                            pre,
                            self.steps@[k as int],
                            item_pre,
                            Seq::empty(),
                            header,
                        ));
                        lemma_fold_steps_snoc(
                            after_setup,
                            self.steps@.take(k as int),
                            self.steps@[k as int],
                            item0g,
                            Seq::empty(),
                            header,
                        );
                    }
                }
                JStep::Filtering(f) => {
                    let p = emit_pred(fx, &f.pred, item);
                    proof {
                        assert(self.steps@[k as int] == JStep::Filtering(*f));
                        assert(pre.blocks[header as int] == fx@.blocks[header as int]);
                        assert(pre.blocks[exit as int] == fx@.blocks[exit as int]);
                        crate::func::lemma_val_ok_extends(pre, fx@, item);
                        crate::func::lemma_wf_implies_tables_ok(*fx);
                    }
                    let ghost after_pred = fx@;
                    let empty_sh: Vec<LogicalType> = Vec::new();
                    let cont = fx.new_block(&empty_sh);
                    let no_args2: Vec<Val> = Vec::new();
                    proof {
                        assert(FnView::tys_of(no_args2@) =~= Seq::<LogicalType>::empty());
                    }
                    fx.brif_to(p, cont, &no_args2, header, &no_args2);
                    fx.switch_to(cont);
                    fx.seal(cont);
                    proof {
                        assert(empty_sh@ =~= Seq::<LogicalType>::empty());
                        assert(FnView::ids_of(no_args2@) =~= Seq::<usize>::empty());
                        assert(self.steps@.take(k + 1) =~= self.steps@.take(k as int).push(
                            self.steps@[k as int],
                        ));
                        assert(fx@ =~~= after_pred.with_block(Seq::empty()).with_inst(
                            crate::model::InstView {
                                kind: crate::model::InstViewKind::Brif {
                                    cond: p.id,
                                    target_nz: cont,
                                    args_nz: Seq::empty(),
                                    target_z: header,
                                    args_z: Seq::empty(),
                                },
                            },
                        ).with_cur_filled().with_cursor(cont).with_sealed(cont));
                        assert((fx@, item) =~~= spec_fold_step_one(
                            pre,
                            self.steps@[k as int],
                            item_pre,
                            Seq::empty(),
                            header,
                        ));
                        lemma_fold_steps_snoc(
                            after_setup,
                            self.steps@.take(k as int),
                            self.steps@[k as int],
                            item0g,
                            Seq::empty(),
                            header,
                        );
                    }
                }
            }
            k = k + 1;
        }
        proof {
            assert(self.steps@.take(n as int) =~= self.steps@);
        }
        let ghost g11 = fx@;
        let ghost item1g = item;
        let mut call_args: Vec<Val> = Vec::new();
        call_args.push(item);
        proof {
            assert(FnView::tys_of(call_args@) =~= seq![item_ty]);
        }
        consumer.call(fx, &call_args);
        let ghost g12 = fx@;
        proof {
            assert(call_args@ =~= seq![item1g]);
            assert(g12 =~~= crate::func::spec_call_ctx(
                g11,
                consumer.spec_addr(),
                seq![item1g],
                Option::None,
            ));
        }
        let back: Vec<Val> = Vec::new();
        proof {
            assert(FnView::tys_of(back@) =~= Seq::<LogicalType>::empty());
        }
        fx.jump_to(header, &back);
        fx.seal(header);
        fx.switch_to(exit);
        fx.seal(exit);
        proof {
            assert(FnView::ids_of(back@) =~= Seq::<usize>::empty());
            assert(fx@ =~~= g12.with_inst(
                crate::model::InstView {
                    kind: crate::model::InstViewKind::Jump { target: header, args: Seq::empty() },
                },
            ).with_cur_filled().with_sealed(header).with_cursor(exit).with_sealed(exit));
            assert(fx@ =~~= spec_for_each(old(fx)@, self.src, self.steps@, consumer.spec_addr()))
                by {
                reveal(spec_for_each);
            }
        }
    }
}

/// The model transition of [`Pipeline::for_each`]'s loop scaffolding:
/// as [`spec_fold_setup_view`] but with parameterless blocks and
/// argumentless jumps — there is no carried accumulator.
pub open spec fn spec_for_each_setup_view(v: FnView, src: PipeSource) -> (FnView, Val) {
    let (v0, idx0) = spec_fold_index(v, src);
    let rj_var = v0.vars.len() as usize;
    let v1 = v0.with_var(idx0.ty).with_inst(
        crate::model::InstView {
            kind: crate::model::InstViewKind::DefVar { var: rj_var, val: idx0.id },
        },
    );
    let header = v1.blocks.len() as usize;
    let body = (v1.blocks.len() + 1) as usize;
    let exit = (v1.blocks.len() + 2) as usize;
    let v2 = v1.with_block(Seq::empty()).with_block(Seq::empty()).with_block(Seq::empty());
    let v3 = v2.with_inst(
        crate::model::InstView {
            kind: crate::model::InstViewKind::Jump { target: header, args: Seq::empty() },
        },
    ).with_cur_filled().with_cursor(header);
    let i_val = Val { id: v3.vals.len() as usize, ty: idx0.ty };
    let v4 = v3.with_inst(
        crate::model::InstView {
            kind: crate::model::InstViewKind::UseVar { var: rj_var, out: i_val.id },
        },
    ).with_val(idx0.ty);
    let (v5, has) = spec_fold_compare(v4, src, i_val);
    let v6 = v5.with_inst(
        crate::model::InstView {
            kind: crate::model::InstViewKind::Brif {
                cond: has.id,
                target_nz: body,
                args_nz: Seq::empty(),
                target_z: exit,
                args_z: Seq::empty(),
            },
        },
    ).with_cur_filled().with_cursor(body).with_sealed(body);
    let one = Val { id: v6.vals.len() as usize, ty: i_val.ty };
    let v7 = v6.with_inst(
        crate::model::InstView {
            kind: crate::model::InstViewKind::Iconst { ty: i_val.ty, imm: 1, out: one.id },
        },
    ).with_val(i_val.ty);
    let v8 = crate::func::spec_binop_ctx(v7, BinOp::Add, i_val, one);
    let ni = crate::func::spec_binop_val(v7, BinOp::Add, i_val, one);
    let v9 = v8.with_inst(
        crate::model::InstView {
            kind: crate::model::InstViewKind::DefVar { var: rj_var, val: ni.id },
        },
    );
    spec_fold_item(v9, src, i_val)
}

/// The complete model transition of [`Pipeline::for_each`]: the
/// parameterless loop scaffolding, the chain's emission (filters
/// branching straight back to the header), one indirect call to the
/// consumer's registered address with the surviving item as its single
/// argument, the argumentless back edge, the header sealed only then,
/// and the exit entered and sealed.
#[verifier::opaque]
pub open spec fn spec_for_each(
    v: FnView,
    src: PipeSource,
    steps: Seq<JStep>,
    consumer_addr: usize,
) -> FnView {
    let header = v.blocks.len() as usize;
    let exit = (v.blocks.len() + 2) as usize;
    let (v10, item0) = spec_for_each_setup_view(v, src);
    let (v11, item1) = spec_fold_steps(v10, steps, item0, Seq::empty(), header);
    let v12 = crate::func::spec_call_ctx(v11, consumer_addr, seq![item1], Option::None);
    v12.with_inst(
        crate::model::InstView {
            kind: crate::model::InstViewKind::Jump { target: header, args: Seq::empty() },
        },
    ).with_cur_filled().with_sealed(header).with_cursor(exit).with_sealed(exit)
}

} // verus!
