//! The per-function build context and its emission operations.
//!
//! A [`FnCtx`] owns the in-progress function: the backend builder, the
//! mirror tables tying every model identifier to its backend handle, and
//! the model of the control-flow graph built so far.  Exactly one exists
//! per function under construction, and it is threaded explicitly through
//! every builder call — there is no hidden current context.
//!
//! Every operation's contract pins the model after the call as a function
//! of the model before it, so building a given program is deterministic
//! by construction; the sealing discipline (a block sealed exactly once,
//! jumps only into existing blocks with arguments matching the target's
//! parameter shape, no instruction after a terminator) is enforced by the
//! operations' preconditions.

use vstd::prelude::*;

use crate::backend;
use crate::model::{BlockModel, BlockView, FnView, InstKind, InstView, InstViewKind, RawOp, Val, Var};
use crate::model::{lemma_with_block_params, lemma_with_cur_filled_params, lemma_with_cursor_params, lemma_with_inst_params, lemma_with_sealed_params, lemma_with_val_params, lemma_with_var_params};
use crate::types::{BinOp, CmpOp, LogicalType};

verus! {

/// Maps a logical type to the backend type of the same width.
pub(crate) fn backend_ty(t: LogicalType) -> cranelift::codegen::ir::Type {
    let b = t.bits();
    if b == 8 {
        backend::ty_i8()
    } else if b == 16 {
        backend::ty_i16()
    } else if b == 32 {
        backend::ty_i32()
    } else {
        backend::ty_i64()
    }
}

/// The raw backend instruction selected for a binary operation on a type
/// of the given signedness.
pub open spec fn raw_of(op: BinOp, signed: bool) -> RawOp {
    match op {
        BinOp::Add => RawOp::Iadd,
        BinOp::Sub => RawOp::Isub,
        BinOp::Mul => RawOp::Imul,
        BinOp::Div => if signed {
            RawOp::Sdiv
        } else {
            RawOp::Udiv
        },
        BinOp::Rem => if signed {
            RawOp::Srem
        } else {
            RawOp::Urem
        },
        BinOp::Shl => RawOp::Ishl,
        BinOp::Shr => if signed {
            RawOp::Sshr
        } else {
            RawOp::Ushr
        },
        BinOp::BitAnd => RawOp::Band,
        BinOp::BitOr => RawOp::Bor,
        BinOp::BitXor => RawOp::Bxor,
    }
}

/// The immediate fits the logical type: the backend accepts a constant
/// only when its raw bits lie within the type's width, so for types
/// narrower than 64 bits that is the type's unsigned range, and a
/// 64-bit constant carries any bit pattern.
pub open spec fn spec_imm_fits(imm: i64, t: LogicalType) -> bool {
    let b = t.spec_bits();
    if b == 8 {
        0 <= imm <= 0xff
    } else if b == 16 {
        0 <= imm <= 0xffff
    } else if b == 32 {
        0 <= imm <= 0xffff_ffff
    } else {
        true
    }
}

/// The return-slot types corresponding to a declared return type.
pub open spec fn ret_tys(r: Option<LogicalType>) -> Seq<LogicalType> {
    match r {
        Option::None => Seq::empty(),
        Option::Some(t) => seq![t],
    }
}

/// The model after a binary operation of `op` on `a` and `b`.
///
/// Unsigned addition emits the wrapping add, an unsigned comparison of
/// the sum against an operand, and a trap-on-overflow; unsigned
/// subtraction emits the borrow test, the trap, and the subtraction.
/// Everything else is a single raw instruction chosen by [`raw_of`].
pub open spec fn spec_binop_ctx(v: FnView, op: BinOp, a: Val, b: Val) -> FnView {
    if op == BinOp::Add && !a.ty.spec_signed() {
        let sum_id = v.vals.len() as usize;
        let flag_id = (v.vals.len() + 1) as usize;
        v.with_inst(
            InstView {
                kind: InstViewKind::Binary { op: RawOp::Iadd, lhs: a.id, rhs: b.id, out: sum_id },
            },
        )
            .with_val(a.ty)
            .with_inst(
            InstView {
                kind: InstViewKind::Cmp {
                    op: CmpOp::Lt,
                    signed: false,
                    lhs: sum_id,
                    rhs: a.id,
                    out: flag_id,
                },
            },
        )
            .with_val(LogicalType::Bool)
            .with_inst(InstView { kind: InstViewKind::TrapIfOverflow { cond: flag_id } })
    } else if op == BinOp::Sub && !a.ty.spec_signed() {
        let flag_id = v.vals.len() as usize;
        let diff_id = (v.vals.len() + 1) as usize;
        v.with_inst(
            InstView {
                kind: InstViewKind::Cmp {
                    op: CmpOp::Lt,
                    signed: false,
                    lhs: a.id,
                    rhs: b.id,
                    out: flag_id,
                },
            },
        )
            .with_val(LogicalType::Bool)
            .with_inst(InstView { kind: InstViewKind::TrapIfOverflow { cond: flag_id } })
            .with_inst(
            InstView {
                kind: InstViewKind::Binary { op: RawOp::Isub, lhs: a.id, rhs: b.id, out: diff_id },
            },
        )
            .with_val(a.ty)
    } else {
        v.with_inst(
            InstView {
                kind: InstViewKind::Binary {
                    op: raw_of(op, a.ty.spec_signed()),
                    lhs: a.id,
                    rhs: b.id,
                    out: v.vals.len() as usize,
                },
            },
        ).with_val(a.ty)
    }
}

/// The value a binary operation yields, in terms of the model before it.
pub open spec fn spec_binop_val(v: FnView, op: BinOp, a: Val, b: Val) -> Val {
    if op == BinOp::Sub && !a.ty.spec_signed() {
        Val { id: (v.vals.len() + 1) as usize, ty: a.ty }
    } else {
        Val { id: v.vals.len() as usize, ty: a.ty }
    }
}

/// The build context of one function under construction.
pub struct FnCtx<'a> {
    /// The backend's function builder.
    pub(crate) builder: cranelift_frontend::FunctionBuilder<'a>,
    /// The target configuration, captured at build entry.
    pub(crate) cfg: cranelift::codegen::isa::TargetFrontendConfig,
    /// Backend handle of each model block, index for index.
    pub(crate) cl_blocks: Vec<cranelift::codegen::ir::Block>,
    /// Backend handle of each model value, index for index.
    pub(crate) cl_vals: Vec<cranelift::codegen::ir::Value>,
    /// Backend handle of each model variable, index for index.
    pub(crate) cl_vars: Vec<cranelift_frontend::Variable>,
    /// Backend handle of each stack slot, index for index.
    pub(crate) cl_slots: Vec<cranelift::codegen::ir::StackSlot>,
    /// The model of every block created so far.
    pub(crate) blocks: Vec<BlockModel>,
    /// The logical type of every value id.
    pub(crate) vals: Vec<LogicalType>,
    /// The logical type of every variable id.
    pub(crate) vars: Vec<LogicalType>,
    /// The block the cursor stands in.
    pub(crate) current: usize,
    /// The declared parameter shapes.
    pub(crate) sig_params: Vec<crate::types::AbiShape>,
    /// The declared return type.
    pub(crate) ret: Option<LogicalType>,
}

impl<'a> View for FnCtx<'a> {
    type V = FnView;

    closed spec fn view(&self) -> FnView {
        FnView {
            blocks: self.blocks@.map_values(|b: BlockModel| b@),
            vals: self.vals@,
            vars: self.vars@,
            slots: self.cl_slots@.len() as usize,
            current: self.current,
            sig_params: self.sig_params@,
            ret: self.ret,
        }
    }
}

impl<'a> FnCtx<'a> {
    /// The mirror tables and the model agree in length, and block
    /// parameter ids lie inside the value table with the types the block
    /// declares.
    pub closed spec fn tables_ok(self) -> bool {
        &&& self.cl_blocks@.len() == self@.blocks.len()
        &&& self.cl_vals@.len() == self@.vals.len()
        &&& self.cl_vars@.len() == self@.vars.len()
        &&& self@.vals.len() <= usize::MAX
        &&& self@.vars.len() <= usize::MAX
        &&& self@.blocks.len() <= usize::MAX
        &&& self@.params_consistent()
    }

    /// [`FnCtx::tables_ok`], and the cursor stands in an existing block.
    pub closed spec fn wf(self) -> bool {
        &&& self.tables_ok()
        &&& self@.current < self@.blocks.len()
    }

    /// Number of blocks created so far.
    pub fn block_count(&self) -> (r: usize)
        ensures
            r == self@.blocks.len(),
    {
        self.blocks.len()
    }

    /// Number of parameters of block `b`.
    pub fn block_param_count(&self, b: usize) -> (r: usize)
        requires
            b < self@.blocks.len(),
    ensures
            r == self@.blocks[b as int].params.len(),
    {
        self.blocks[b].params.len()
    }

    /// Number of instructions emitted into block `b`.
    pub fn block_inst_count(&self, b: usize) -> (r: usize)
        requires
            b < self@.blocks.len(),
        ensures
            r == self@.blocks[b as int].insts.len(),
    {
        self.blocks[b].insts.len()
    }

    /// Whether the last instruction of block `b` is the trap-on-overflow
    /// test.
    pub fn block_ends_in_overflow_trap(&self, b: usize) -> (r: bool)
        requires
            b < self@.blocks.len(),
        ensures
            r == (self@.blocks[b as int].insts.len() > 0 && self@.blocks[b as int].insts.last().kind
                is TrapIfOverflow),
    {
        let n = self.blocks[b].insts.len();
        if n == 0 {
            false
        } else {
            matches!(self.blocks[b].insts[n - 1], InstKind::TrapIfOverflow { .. })
        }
    }

    /// Number of variables the model holds.
    pub fn var_count(&self) -> (r: usize)
        ensures
            r == self@.vars.len(),
    {
        self.vars.len()
    }

    /// Length of the model's value table.
    pub fn value_table_len(&self) -> (r: usize)
        ensures
            r == self@.vals.len(),
    {
        self.vals.len()
    }

    /// The logical type of value `id`.
    pub fn val_ty(&self, id: usize) -> (r: LogicalType)
        requires
            id < self@.vals.len(),
        ensures
            r == self@.vals[id as int],
    {
        self.vals[id]
    }

    /// The value slot and logical type of parameter `i` of block `b`.
    pub fn block_param_at(&self, b: usize, i: usize) -> (r: (usize, LogicalType))
        requires
            self.wf(),
            b < self@.blocks.len(),
            i < self@.blocks[b as int].params.len(),
        ensures
            r.0 == self@.blocks[b as int].param_base + i,
            r.0 < self@.vals.len(),
            r.1 == self@.blocks[b as int].params[i as int],
    {
        proof {
            assert(self@.params_consistent_at(b as int));
        }
        (self.blocks[b].param_base + i, self.blocks[b].params[i])
    }

    /// A copy of the instruction at position `i` of block `b`.
    pub fn inst_at(&self, b: usize, i: usize) -> (r: InstKind)
        requires
            b < self@.blocks.len(),
            i < self@.blocks[b as int].insts.len(),
        ensures
            r@ == self@.blocks[b as int].insts[i as int],
    {
        match &self.blocks[b].insts[i] {
            InstKind::Iconst { ty, imm, out } => InstKind::Iconst { ty: *ty, imm: *imm, out: *out },
            InstKind::Binary { op, lhs, rhs, out } => InstKind::Binary {
                op: *op,
                lhs: *lhs,
                rhs: *rhs,
                out: *out,
            },
            InstKind::Cmp { op, signed, lhs, rhs, out } => InstKind::Cmp {
                op: *op,
                signed: *signed,
                lhs: *lhs,
                rhs: *rhs,
                out: *out,
            },
            InstKind::TrapIfOverflow { cond } => InstKind::TrapIfOverflow { cond: *cond },
            InstKind::DefVar { var, val } => InstKind::DefVar { var: *var, val: *val },
            InstKind::UseVar { var, out } => InstKind::UseVar { var: *var, out: *out },
            InstKind::Jump { target, args } => InstKind::Jump {
                target: *target,
                args: clone_ids(args),
            },
            InstKind::Brif { cond, target_nz, args_nz, target_z, args_z } => InstKind::Brif {
                cond: *cond,
                target_nz: *target_nz,
                args_nz: clone_ids(args_nz),
                target_z: *target_z,
                args_z: clone_ids(args_z),
            },
            InstKind::Ret { args } => InstKind::Ret { args: clone_ids(args) },
            InstKind::CallInd { callee, args, rets } => InstKind::CallInd {
                callee: *callee,
                args: clone_ids(args),
                rets: *rets,
            },
            InstKind::Load { ty, addr, offset, out } => InstKind::Load {
                ty: *ty,
                addr: *addr,
                offset: *offset,
                out: *out,
            },
            InstKind::Store { val, addr, offset } => InstKind::Store {
                val: *val,
                addr: *addr,
                offset: *offset,
            },
            InstKind::StackAddr { slot, out } => InstKind::StackAddr { slot: *slot, out: *out },
        }
    }

    /// The argument ids of the indirect call at position `i` of block
    /// `b`, when that instruction is a call.
    pub fn call_arg_ids(&self, b: usize, i: usize) -> (r: Option<Vec<usize>>)
        requires
            b < self@.blocks.len(),
            i < self@.blocks[b as int].insts.len(),
        ensures
            match self@.blocks[b as int].insts[i as int].kind {
                InstViewKind::CallInd { args, .. } => r matches Some(v) && v@ == args,
                _ => r is None,
            },
    {
        match &self.blocks[b].insts[i] {
            InstKind::CallInd { args, .. } => {
                let mut out: Vec<usize> = Vec::new();
                let mut j: usize = 0;
                while j < args.len()
                    invariant
                        j <= args@.len(),
                        out@ == args@.take(j as int),
                    decreases args@.len() - j,
                {
                    out.push(args[j]);
                    proof {
                        assert(out@ =~= args@.take(j + 1));
                    }
                    j = j + 1;
                }
                proof {
                    assert(args@.take(args@.len() as int) =~= args@);
                }
                Option::Some(out)
            }
            _ => Option::None,
        }
    }

    /// Whether block `b` holds a return instruction.
    pub fn block_has_ret(&self, b: usize) -> (r: bool)
        requires
            b < self@.blocks.len(),
        ensures
            r == exists|i: int|
                0 <= i < self@.blocks[b as int].insts.len() && self@.blocks[b as int].insts[i].kind
                    is Ret,
    {
        let n = self.blocks[b].insts.len();
        let mut i: usize = 0;
        while i < n
            invariant
                b < self@.blocks.len(),
                n == self@.blocks[b as int].insts.len(),
                i <= n,
                forall|j: int| 0 <= j < i ==> !(#[trigger] self@.blocks[b as int].insts[j].kind
                    is Ret),
            decreases n - i,
        {
            if matches!(self.blocks[b].insts[i], InstKind::Ret { .. }) {
                proof {
                    assert(self@.blocks[b as int].insts[i as int].kind is Ret);
                }
                return true;
            }
            i = i + 1;
        }
        false
    }

    /// Appends one instruction to the cursor block.
    fn push_cur_inst(&mut self, k: InstKind)
        requires
            old(self).wf(),
        ensures
            final(self).wf(),
            final(self)@ == old(self)@.with_inst(k@),
            final(self).builder == old(self).builder,
            final(self).cl_blocks == old(self).cl_blocks,
            final(self).cl_vals == old(self).cl_vals,
            final(self).cl_vars == old(self).cl_vars,
            final(self).cl_slots == old(self).cl_slots,
    {
        let cur = self.current;
        let blk = &mut self.blocks[cur];
        blk.insts.push(k);
        proof {
            assert(self.blocks@ =~= old(self).blocks@.update(
                cur as int,
                self.blocks@[cur as int],
            ));
            assert(self.blocks@[cur as int]@.insts =~= old(self).blocks@[cur as int]@.insts.push(k@));
            assert(self@.blocks =~= old(self)@.blocks.update(
                cur as int,
                old(self)@.blocks[cur as int].with_inst(k@),
            ));
            assert(self@ =~~= old(self)@.with_inst(k@));
            lemma_with_inst_params(old(self)@, k@);
        }
    }

    /// Marks the cursor block filled.
    fn fill_cur(&mut self)
        requires
            old(self).wf(),
        ensures
            final(self).wf(),
            final(self)@ == old(self)@.with_cur_filled(),
            final(self).builder == old(self).builder,
            final(self).cl_blocks == old(self).cl_blocks,
            final(self).cl_vals == old(self).cl_vals,
            final(self).cl_vars == old(self).cl_vars,
            final(self).cl_slots == old(self).cl_slots,
    {
        let cur = self.current;
        let blk = &mut self.blocks[cur];
        blk.filled = true;
        proof {
            assert(self@.blocks =~= old(self)@.blocks.update(
                cur as int,
                old(self)@.blocks[cur as int].as_filled(),
            ));
            assert(self@ =~~= old(self)@.with_cur_filled());
            lemma_with_cur_filled_params(old(self)@);
        }
    }

    /// Materializes an integer constant of the given logical type at the
    /// cursor.  The immediate must fit the type: an out-of-range
    /// constant is a build-time violation, rejected here rather than
    /// left for the backend's function verifier.
    pub fn iconst(&mut self, ty: LogicalType, imm: i64) -> (r: Val)
        requires
            old(self).wf(),
            old(self)@.cursor_open(),
            spec_imm_fits(imm, ty),
        ensures
            final(self).wf(),
            final(self)@.cursor_open(),
            final(self)@ == old(self)@.with_inst(
                InstView {
                    kind: InstViewKind::Iconst { ty, imm, out: old(self)@.vals.len() as usize },
                },
            ).with_val(ty),
            r == (Val { id: old(self)@.vals.len() as usize, ty }),
            final(self)@.val_ok(r),
    {
        let t = backend_ty(ty);
        let v = backend::ins_iconst(&mut self.builder, t, imm);
        let id = self.vals.len();
        self.cl_vals.push(v);
        self.vals.push(ty);
        proof {
            vstd::std_specs::vec::axiom_spec_len(&self.vals);
            assert(self@ =~~= old(self)@.with_val(ty));
            lemma_with_val_params(old(self)@, ty);
        }
        self.push_cur_inst(InstKind::Iconst { ty, imm, out: id });
        proof {
            assert(self@ =~~= old(self)@.with_inst(
                InstView { kind: InstViewKind::Iconst { ty, imm, out: id } },
            ).with_val(ty));
        }
        Val { id, ty }
    }

    /// Emits the integer comparison `a op b`, yielding a boolean value.
    /// Ordered comparisons are signed exactly when the operands' logical
    /// type is signed.
    pub fn icmp(&mut self, op: CmpOp, a: Val, b: Val) -> (r: Val)
        requires
            old(self).wf(),
            old(self)@.cursor_open(),
            old(self)@.val_ok(a),
            old(self)@.val_ok(b),
            a.ty == b.ty,
            a.ty.spec_is_int(),
        ensures
            final(self).wf(),
            final(self)@.cursor_open(),
            final(self)@ == old(self)@.with_inst(
                InstView {
                    kind: InstViewKind::Cmp {
                        op,
                        signed: a.ty.spec_signed(),
                        lhs: a.id,
                        rhs: b.id,
                        out: old(self)@.vals.len() as usize,
                    },
                },
            ).with_val(LogicalType::Bool),
            r == (Val { id: old(self)@.vals.len() as usize, ty: LogicalType::Bool }),
            final(self)@.val_ok(r),
    {
        let signed = a.ty.signed();
        let cc = cc_of(op, signed);
        let x = self.cl_vals[a.id];
        let y = self.cl_vals[b.id];
        let v = backend::ins_icmp(&mut self.builder, cc, x, y);
        let id = self.vals.len();
        self.cl_vals.push(v);
        self.vals.push(LogicalType::Bool);
        proof {
            vstd::std_specs::vec::axiom_spec_len(&self.vals);
            assert(self@ =~~= old(self)@.with_val(LogicalType::Bool));
            lemma_with_val_params(old(self)@, LogicalType::Bool);
        }
        self.push_cur_inst(InstKind::Cmp { op, signed, lhs: a.id, rhs: b.id, out: id });
        proof {
            assert(self@ =~~= old(self)@.with_inst(
                InstView {
                    kind: InstViewKind::Cmp {
                        op,
                        signed: a.ty.spec_signed(),
                        lhs: a.id,
                        rhs: b.id,
                        out: id,
                    },
                },
            ).with_val(LogicalType::Bool));
        }
        Val { id, ty: LogicalType::Bool }
    }

    /// Emits one raw binary instruction; shared tail of `binop`.
    fn raw_binop(&mut self, raw: RawOp, ty: LogicalType, lhs: usize, rhs: usize) -> (r: Val)
        requires
            old(self).wf(),
            old(self)@.cursor_open(),
            lhs < old(self)@.vals.len(),
            rhs < old(self)@.vals.len(),
        ensures
            final(self).wf(),
            final(self)@.cursor_open(),
            final(self)@ == old(self)@.with_inst(
                InstView {
                    kind: InstViewKind::Binary {
                        op: raw,
                        lhs,
                        rhs,
                        out: old(self)@.vals.len() as usize,
                    },
                },
            ).with_val(ty),
            r == (Val { id: old(self)@.vals.len() as usize, ty }),
    {
        let x = self.cl_vals[lhs];
        let y = self.cl_vals[rhs];
        let v = match raw {
            RawOp::Iadd => backend::ins_iadd(&mut self.builder, x, y),
            RawOp::Isub => backend::ins_isub(&mut self.builder, x, y),
            RawOp::Imul => backend::ins_imul(&mut self.builder, x, y),
            RawOp::Udiv => backend::ins_udiv(&mut self.builder, x, y),
            RawOp::Sdiv => backend::ins_sdiv(&mut self.builder, x, y),
            RawOp::Urem => backend::ins_urem(&mut self.builder, x, y),
            RawOp::Srem => backend::ins_srem(&mut self.builder, x, y),
            RawOp::Ishl => backend::ins_ishl(&mut self.builder, x, y),
            RawOp::Ushr => backend::ins_ushr(&mut self.builder, x, y),
            RawOp::Sshr => backend::ins_sshr(&mut self.builder, x, y),
            RawOp::Band => backend::ins_band(&mut self.builder, x, y),
            RawOp::Bor => backend::ins_bor(&mut self.builder, x, y),
            RawOp::Bxor => backend::ins_bxor(&mut self.builder, x, y),
        };
        let id = self.vals.len();
        self.cl_vals.push(v);
        self.vals.push(ty);
        proof {
            vstd::std_specs::vec::axiom_spec_len(&self.vals);
            assert(self@ =~~= old(self)@.with_val(ty));
            lemma_with_val_params(old(self)@, ty);
        }
        self.push_cur_inst(InstKind::Binary { op: raw, lhs, rhs, out: id });
        proof {
            assert(self@ =~~= old(self)@.with_inst(
                InstView { kind: InstViewKind::Binary { op: raw, lhs, rhs, out: id } },
            ).with_val(ty));
        }
        Val { id, ty }
    }

    /// Emits the arithmetic operation `a op b` on two values of one
    /// integer logical type.
    ///
    /// Unsigned addition and subtraction emit an overflow test that traps
    /// the generated code when the mathematical result leaves the type's
    /// range; signed addition and subtraction wrap; division, remainder
    /// and right shift select the signed or unsigned instruction by the
    /// operands' logical type.
    pub fn binop(&mut self, op: BinOp, a: Val, b: Val) -> (r: Val)
        requires
            old(self).wf(),
            old(self)@.cursor_open(),
            old(self)@.val_ok(a),
            old(self)@.val_ok(b),
            a.ty == b.ty,
            a.ty.spec_is_int(),
        ensures
            final(self).wf(),
            final(self)@.cursor_open(),
            final(self)@ == spec_binop_ctx(old(self)@, op, a, b),
            r == spec_binop_val(old(self)@, op, a, b),
            r.ty == a.ty,
            final(self)@.val_ok(r),
    {
        if !a.ty.signed() && matches!(op, BinOp::Add) {
            let sum = self.raw_binop(RawOp::Iadd, a.ty, a.id, b.id);
            proof {
                assert(self@.vals =~= old(self)@.vals.push(a.ty));
                assert(self@.val_ok(a));
                assert(self@.val_ok(sum));
            }
            let flag = self.icmp(CmpOp::Lt, Val { id: sum.id, ty: a.ty }, a);
            let c = self.cl_vals[flag.id];
            backend::ins_trapnz_overflow(&mut self.builder, c);
            self.push_cur_inst(InstKind::TrapIfOverflow { cond: flag.id });
            proof {
                assert(self@ =~~= spec_binop_ctx(old(self)@, op, a, b));
            }
            sum
        } else if !a.ty.signed() && matches!(op, BinOp::Sub) {
            let flag = self.icmp(CmpOp::Lt, a, b);
            let c = self.cl_vals[flag.id];
            backend::ins_trapnz_overflow(&mut self.builder, c);
            self.push_cur_inst(InstKind::TrapIfOverflow { cond: flag.id });
            let r = self.raw_binop(RawOp::Isub, a.ty, a.id, b.id);
            proof {
                assert(self@ =~~= spec_binop_ctx(old(self)@, op, a, b));
            }
            r
        } else {
            let signed = a.ty.signed();
            let raw = match op {
                BinOp::Add => RawOp::Iadd,
                BinOp::Sub => RawOp::Isub,
                BinOp::Mul => RawOp::Imul,
                BinOp::Div => if signed {
                    RawOp::Sdiv
                } else {
                    RawOp::Udiv
                },
                BinOp::Rem => if signed {
                    RawOp::Srem
                } else {
                    RawOp::Urem
                },
                BinOp::Shl => RawOp::Ishl,
                BinOp::Shr => if signed {
                    RawOp::Sshr
                } else {
                    RawOp::Ushr
                },
                BinOp::BitAnd => RawOp::Band,
                BinOp::BitOr => RawOp::Bor,
                BinOp::BitXor => RawOp::Bxor,
            };
            let r = self.raw_binop(raw, a.ty, a.id, b.id);
            proof {
                assert(raw == raw_of(op, a.ty.spec_signed()));
                assert(self@ =~~= spec_binop_ctx(old(self)@, op, a, b));
            }
            r
        }
    }

    /// Declares a variable holding `init`'s type and records its initial
    /// definition.
    pub fn new_var(&mut self, init: Val) -> (r: Var)
        requires
            old(self).wf(),
            old(self)@.cursor_open(),
            old(self)@.val_ok(init),
        ensures
            final(self).wf(),
            final(self)@.cursor_open(),
            final(self)@ == old(self)@.with_var(init.ty).with_inst(
                InstView {
                    kind: InstViewKind::DefVar { var: old(self)@.vars.len() as usize, val: init.id },
                },
            ),
            r == (Var { id: old(self)@.vars.len() as usize, ty: init.ty }),
            final(self)@.var_ok(r),
    {
        let t = backend_ty(init.ty);
        let var = backend::fb_declare_var(&mut self.builder, t);
        let id = self.vars.len();
        self.cl_vars.push(var);
        self.vars.push(init.ty);
        let v = self.cl_vals[init.id];
        backend::fb_def_var(&mut self.builder, var, v);
        proof {
            vstd::std_specs::vec::axiom_spec_len(&self.vars);
            assert(self@ =~~= old(self)@.with_var(init.ty));
            lemma_with_var_params(old(self)@, init.ty);
        }
        self.push_cur_inst(InstKind::DefVar { var: id, val: init.id });
        proof {
            assert(self@ =~~= old(self)@.with_var(init.ty).with_inst(
                InstView { kind: InstViewKind::DefVar { var: id, val: init.id } },
            ));
        }
        Var { id, ty: init.ty }
    }

    /// Records a new definition of `v` with the value `x`.  SSA renaming;
    /// no instruction in the generated code beyond bookkeeping.
    pub fn assign(&mut self, v: Var, x: Val)
        requires
            old(self).wf(),
            old(self)@.cursor_open(),
            old(self)@.var_ok(v),
            old(self)@.val_ok(x),
            x.ty == v.ty,
        ensures
            final(self).wf(),
            final(self)@.cursor_open(),
            final(self)@ == old(self)@.with_inst(
                InstView { kind: InstViewKind::DefVar { var: v.id, val: x.id } },
            ),
    {
        let var = self.cl_vars[v.id];
        let val = self.cl_vals[x.id];
        backend::fb_def_var(&mut self.builder, var, val);
        self.push_cur_inst(InstKind::DefVar { var: v.id, val: x.id });
    }

    /// Reads `v`'s latest definition, yielding a fresh value of the
    /// variable's type.
    pub fn read_var(&mut self, v: Var) -> (r: Val)
        requires
            old(self).wf(),
            old(self)@.cursor_open(),
            old(self)@.var_ok(v),
        ensures
            final(self).wf(),
            final(self)@.cursor_open(),
            final(self)@ == old(self)@.with_inst(
                InstView {
                    kind: InstViewKind::UseVar { var: v.id, out: old(self)@.vals.len() as usize },
                },
            ).with_val(v.ty),
            r == (Val { id: old(self)@.vals.len() as usize, ty: v.ty }),
            final(self)@.val_ok(r),
    {
        let var = self.cl_vars[v.id];
        let value = backend::fb_use_var(&mut self.builder, var);
        let id = self.vals.len();
        self.cl_vals.push(value);
        self.vals.push(v.ty);
        proof {
            vstd::std_specs::vec::axiom_spec_len(&self.vals);
            assert(self@ =~~= old(self)@.with_val(v.ty));
            lemma_with_val_params(old(self)@, v.ty);
        }
        self.push_cur_inst(InstKind::UseVar { var: v.id, out: id });
        proof {
            assert(self@ =~~= old(self)@.with_inst(
                InstView { kind: InstViewKind::UseVar { var: v.id, out: id } },
            ).with_val(v.ty));
        }
        Val { id, ty: v.ty }
    }

    /// Creates a new block whose parameters have the given logical types,
    /// in order.  The block's parameters take the next free value ids.
    /// The cursor does not move.
    pub(crate) fn new_block(&mut self, params: &Vec<LogicalType>) -> (b: usize)
        requires
            old(self).tables_ok(),
        ensures
            final(self).tables_ok(),
            old(self).wf() ==> final(self).wf(),
            final(self)@ == old(self)@.with_block(params@),
            b == old(self)@.blocks.len(),
            old(self).wf() ==> final(self)@.cursor_open() == old(self)@.cursor_open(),
    {
        let blk = backend::fb_create_block(&mut self.builder);
        let b = self.blocks.len();
        self.cl_blocks.push(blk);
        let param_base = self.vals.len();
        let mut tys: Vec<LogicalType> = Vec::new();
        let mut i: usize = 0;
        while i < params.len()
            invariant
                i <= params@.len(),
                tys@ == params@.take(i as int),
                self.vals@ == old(self).vals@ + params@.take(i as int),
                self.cl_vals@.len() == self.vals@.len(),
                self.blocks == old(self).blocks,
                self.cl_blocks@ == old(self).cl_blocks@.push(blk),
                self.cl_vars == old(self).cl_vars,
                self.cl_slots == old(self).cl_slots,
                self.vars == old(self).vars,
                self.current == old(self).current,
                self.sig_params == old(self).sig_params,
                self.ret == old(self).ret,
                param_base == old(self).vals@.len(),
            decreases params@.len() - i,
        {
            let t = backend_ty(params[i]);
            let v = backend::fb_append_block_param(&mut self.builder, blk, t);
            self.cl_vals.push(v);
            self.vals.push(params[i]);
            tys.push(params[i]);
            proof {
                assert(tys@ =~= params@.take(i + 1));
                assert(self.vals@ =~= old(self).vals@ + params@.take(i + 1));
            }
            i = i + 1;
        }
        proof {
            assert(params@.take(params@.len() as int) =~= params@);
        }
        self.blocks.push(
            BlockModel {
                params: tys,
                param_base,
                insts: Vec::new(),
                sealed: false,
                filled: false,
            },
        );
        proof {
            assert(self@.blocks =~~= old(self)@.blocks.push(
                BlockView {
                    params: params@,
                    param_base: old(self)@.vals.len() as usize,
                    insts: Seq::empty(),
                    sealed: false,
                    filled: false,
                },
            ));
            vstd::std_specs::vec::axiom_spec_len(&self.vals);
            vstd::std_specs::vec::axiom_spec_len(&self.blocks);
            assert(self@ =~~= old(self)@.with_block(params@));
            lemma_with_block_params(old(self)@, params@);
        }
        b
    }

    /// The parameter values of block `b`, in order.
    pub fn block_params(&self, b: usize) -> (r: Vec<Val>)
        requires
            self.wf(),
            b < self@.blocks.len(),
        ensures
            r@.len() == self@.blocks[b as int].params.len(),
            forall|i: int|
                0 <= i < r@.len() ==> #[trigger] r@[i] == (Val {
                    id: (self@.blocks[b as int].param_base + i) as usize,
                    ty: self@.blocks[b as int].params[i],
                }),
            self@.vals_ok(r@),
    {
        let base = self.blocks[b].param_base;
        let n = self.blocks[b].params.len();
        let vlen = self.vals.len();
        proof {
            assert(self@.params_consistent_at(b as int));
        }
        let mut r: Vec<Val> = Vec::new();
        let mut i: usize = 0;
        while i < n
            invariant
                self.wf(),
                b < self@.blocks.len(),
                base == self@.blocks[b as int].param_base,
                n == self@.blocks[b as int].params.len(),
                vlen == self@.vals.len(),
                base + n <= vlen,
                i <= n,
                r@.len() == i,
                forall|j: int|
                    0 <= j < i ==> #[trigger] r@[j] == (Val {
                        id: (base + j) as usize,
                        ty: self@.blocks[b as int].params[j],
                    }),
            decreases n - i,
        {
            r.push(Val { id: base + i, ty: self.blocks[b].params[i] });
            i = i + 1;
        }
        proof {
            assert(self@.params_consistent_at(b as int));
            assert forall|i: int| 0 <= i < r@.len() implies self@.val_ok(#[trigger] r@[i]) by {
                assert(r@[i].id == base + i);
                assert(self@.vals[base + i] == self@.blocks[b as int].params[i]);
            }
        }
        r
    }

    /// Moves the cursor to block `b`.  The block left behind must be
    /// filled, and the destination must not be.
    pub(crate) fn switch_to(&mut self, b: usize)
        requires
            old(self).wf(),
            b < old(self)@.blocks.len(),
            old(self)@.cur().filled,
            !old(self)@.blocks[b as int].filled,
        ensures
            final(self).wf(),
            final(self)@ == old(self)@.with_cursor(b),
            final(self)@.cursor_open(),
    {
        let blk = self.cl_blocks[b];
        backend::fb_switch_to_block(&mut self.builder, blk);
        self.current = b;
        proof {
            assert(self@ =~~= old(self)@.with_cursor(b));
            lemma_with_cursor_params(old(self)@, b);
        }
    }

    /// Seals block `b`: declares that every branch targeting it has been
    /// emitted.  A block is sealed exactly once; reading its parameters
    /// before sealing, or sealing twice, is rejected at build time.
    pub(crate) fn seal(&mut self, b: usize)
        requires
            old(self).wf(),
            b < old(self)@.blocks.len(),
            !old(self)@.blocks[b as int].sealed,
        ensures
            final(self).wf(),
            final(self)@ == old(self)@.with_sealed(b),
    {
        let blk = self.cl_blocks[b];
        backend::fb_seal_block(&mut self.builder, blk);
        let bm = &mut self.blocks[b];
        bm.sealed = true;
        proof {
            assert(self@.blocks =~= old(self)@.blocks.update(
                b as int,
                old(self)@.blocks[b as int].as_sealed(),
            ));
            assert(self@ =~~= old(self)@.with_sealed(b));
            lemma_with_sealed_params(old(self)@, b);
        }
    }

    /// Emits an unconditional jump to `target`, passing `args` as its
    /// block arguments, in order.  The arguments' types must match the
    /// target's parameter shape.  Fills the cursor block.
    pub(crate) fn jump_to(&mut self, target: usize, args: &Vec<Val>)
        requires
            old(self).wf(),
            old(self)@.cursor_open(),
            target < old(self)@.blocks.len(),
            old(self)@.vals_ok(args@),
            FnView::tys_of(args@) == old(self)@.blocks[target as int].params,
        ensures
            final(self).wf(),
            final(self)@ == old(self)@.with_inst(
                InstView { kind: InstViewKind::Jump { target, args: FnView::ids_of(args@) } },
            ).with_cur_filled(),
    {
        let (cl_args, ids) = self.arg_lists(args);
        let blk = self.cl_blocks[target];
        backend::ins_jump(&mut self.builder, blk, &cl_args);
        self.push_cur_inst(InstKind::Jump { target, args: ids });
        self.fill_cur();
    }

    /// Emits a conditional branch on the boolean `c`: to `t` with `targs`
    /// when non-zero, else to `e` with `eargs`.  Each argument list must
    /// match its target's parameter shape.  Fills the cursor block.
    pub(crate) fn brif_to(&mut self, c: Val, t: usize, targs: &Vec<Val>, e: usize, eargs: &Vec<Val>)
        requires
            old(self).wf(),
            old(self)@.cursor_open(),
            old(self)@.val_ok(c),
            c.ty == LogicalType::Bool,
            t < old(self)@.blocks.len(),
            e < old(self)@.blocks.len(),
            old(self)@.vals_ok(targs@),
            old(self)@.vals_ok(eargs@),
            FnView::tys_of(targs@) == old(self)@.blocks[t as int].params,
            FnView::tys_of(eargs@) == old(self)@.blocks[e as int].params,
        ensures
            final(self).wf(),
            final(self)@ == old(self)@.with_inst(
                InstView {
                    kind: InstViewKind::Brif {
                        cond: c.id,
                        target_nz: t,
                        args_nz: FnView::ids_of(targs@),
                        target_z: e,
                        args_z: FnView::ids_of(eargs@),
                    },
                },
            ).with_cur_filled(),
    {
        let (cl_t, tids) = self.arg_lists(targs);
        let (cl_e, eids) = self.arg_lists(eargs);
        let cv = self.cl_vals[c.id];
        let tb = self.cl_blocks[t];
        let eb = self.cl_blocks[e];
        backend::ins_brif(&mut self.builder, cv, tb, &cl_t, eb, &cl_e);
        self.push_cur_inst(
            InstKind::Brif { cond: c.id, target_nz: t, args_nz: tids, target_z: e, args_z: eids },
        );
        self.fill_cur();
    }

    /// Emits a return from the generated function with `args`, whose
    /// types must match the declared return type.  Fills the cursor
    /// block.
    pub fn emit_return(&mut self, args: &Vec<Val>)
        requires
            old(self).wf(),
            old(self)@.cursor_open(),
            old(self)@.vals_ok(args@),
            FnView::tys_of(args@) == ret_tys(old(self)@.ret),
        ensures
            final(self).wf(),
            final(self)@ == old(self)@.with_inst(
                InstView { kind: InstViewKind::Ret { args: FnView::ids_of(args@) } },
            ).with_cur_filled(),
    {
        let mut cl_args: Vec<cranelift::codegen::ir::Value> = Vec::new();
        let mut ids: Vec<usize> = Vec::new();
        let mut i: usize = 0;
        while i < args.len()
            invariant
                old(self).wf(),
                *self == *old(self),
                i <= args@.len(),
                old(self)@.vals_ok(args@),
                ids@ == FnView::ids_of(args@.take(i as int)),
                cl_args@.len() == i,
            decreases args@.len() - i,
        {
            let v = args[i];
            cl_args.push(self.cl_vals[v.id]);
            ids.push(v.id);
            proof {
                assert(ids@ =~= FnView::ids_of(args@.take(i + 1)));
            }
            i = i + 1;
        }
        proof {
            assert(args@.take(args@.len() as int) =~= args@);
        }
        backend::ins_return(&mut self.builder, &cl_args);
        self.push_cur_inst(InstKind::Ret { args: ids });
        self.fill_cur();
    }

    /// Converts an argument list to backend block arguments alongside the
    /// model id list.
    fn arg_lists(&self, args: &Vec<Val>) -> (r: (
        Vec<cranelift::codegen::ir::BlockArg>,
        Vec<usize>,
    ))
        requires
            self.wf(),
            self@.vals_ok(args@),
        ensures
            r.1@ == FnView::ids_of(args@),
            r.0@.len() == args@.len(),
    {
        let mut cl_args: Vec<cranelift::codegen::ir::BlockArg> = Vec::new();
        let mut ids: Vec<usize> = Vec::new();
        let mut i: usize = 0;
        while i < args.len()
            invariant
                self.wf(),
                self@.vals_ok(args@),
                i <= args@.len(),
                ids@ == FnView::ids_of(args@.take(i as int)),
                cl_args@.len() == i,
            decreases args@.len() - i,
        {
            let v = args[i];
            cl_args.push(backend::block_arg_of(self.cl_vals[v.id]));
            ids.push(v.id);
            proof {
                assert(ids@ =~= FnView::ids_of(args@.take(i + 1)));
            }
            i = i + 1;
        }
        proof {
            assert(args@.take(args@.len() as int) =~= args@);
        }
        (cl_args, ids)
    }
}

/// One host-level parameter of a function under construction, as handed
/// to the body builder: a scalar parameter becomes a mutable variable, a
/// slice parameter becomes its length and data-pointer values (in that
/// order), and an opaque pointer parameter is a single pointer value.
#[derive(Clone, Copy, Debug, PartialEq, Eq, Structural)]
pub enum ParamVal {
    /// A scalar parameter, stored in a variable.
    Scalar(Var),
    /// A slice parameter: its length, then its data pointer.
    SlicePair { len: Val, ptr: Val },
    /// An opaque pointer parameter.
    Opaque(Val),
}

/// `p` is the well-typed handle for a parameter of shape `s` whose
/// first calling-convention slot is `slot` in the model `v`.  A slice
/// parameter's two handles carry exactly its two slots in declared
/// order: the length slot first, the data-pointer slot second; an
/// opaque pointer carries its one slot.  A scalar parameter's value is
/// copied into a fresh variable, so its handle is the variable, typed
/// as the slot.
pub open spec fn param_matches(v: FnView, p: ParamVal, s: crate::types::AbiShape, slot: int) -> bool {
    match p {
        ParamVal::Scalar(var) => s is Scalar && v.var_ok(var) && var.ty == s->Scalar_0,
        ParamVal::SlicePair { len, ptr } => s is Slice && v.val_ok(len) && len.ty
            == LogicalType::U64 && len.id == slot && v.val_ok(ptr) && ptr.ty == LogicalType::Ptr
            && ptr.id == slot + 1,
        ParamVal::Opaque(val) => s is Pointer && v.val_ok(val) && val.ty == LogicalType::Ptr
            && val.id == slot,
    }
}

/// A parameter handle stays well typed when the value and variable
/// tables only grow.
pub proof fn lemma_param_matches_mono(
    v: FnView,
    w: FnView,
    p: ParamVal,
    s: crate::types::AbiShape,
    slot: int,
)
    requires
        param_matches(v, p, s, slot),
        v.vals.len() <= w.vals.len(),
        forall|i: int| 0 <= i < v.vals.len() ==> w.vals[i] == v.vals[i],
        v.vars.len() <= w.vars.len(),
        forall|i: int| 0 <= i < v.vars.len() ==> w.vars[i] == v.vars[i],
    ensures
        param_matches(w, p, s, slot),
{
}

/// The model after an indirect call to the machine address `addr`: the
/// address is materialized as a pointer constant, then the call passes
/// the arguments in exactly the order given, and the call's result (one
/// value for a returning callee, none otherwise) takes the next id.
pub open spec fn spec_call_ctx(
    v: FnView,
    addr: usize,
    args: Seq<Val>,
    ret: Option<LogicalType>,
) -> FnView {
    let fid = v.vals.len() as usize;
    let v2 = v.with_inst(
        InstView { kind: InstViewKind::Iconst { ty: LogicalType::Ptr, imm: addr as i64, out: fid } },
    ).with_val(LogicalType::Ptr).with_inst(
        InstView {
            kind: InstViewKind::CallInd {
                callee: fid,
                args: FnView::ids_of(args),
                rets: if ret is Some {
                    1
                } else {
                    0
                },
            },
        },
    );
    match ret {
        Option::Some(t) => v2.with_val(t),
        Option::None => v2,
    }
}

/// The value an indirect call yields, in terms of the model before it.
pub open spec fn spec_call_val(v: FnView, ret: Option<LogicalType>) -> Option<Val> {
    match ret {
        Option::Some(t) => Option::Some(Val { id: (v.vals.len() + 1) as usize, ty: t }),
        Option::None => Option::None,
    }
}

impl<'a> FnCtx<'a> {
    /// Emits an indirect call to the function at machine address
    /// `callee_addr`, whose parameter slots are `params` and whose
    /// return is `ret`.  The arguments are passed in exactly the order
    /// given, one per parameter slot, and must carry the declared slot
    /// types.  Yields the call's result value for a returning callee.
    pub fn emit_call_indirect(
        &mut self,
        callee_addr: usize,
        params: &Vec<LogicalType>,
        ret: Option<LogicalType>,
        args: &Vec<Val>,
    ) -> (r: Option<Val>)
        requires
            old(self).wf(),
            old(self)@.cursor_open(),
            old(self)@.vals_ok(args@),
            FnView::tys_of(args@) == params@,
        ensures
            final(self).wf(),
            final(self)@.cursor_open(),
            final(self)@ == spec_call_ctx(old(self)@, callee_addr, args@, ret),
            r == spec_call_val(old(self)@, ret),
            r matches Option::Some(v) ==> final(self)@.val_ok(v),
            ret is Some <==> r is Some,
    {
        let cc = backend::config_call_conv(&self.cfg);
        let mut sig = backend::new_signature(cc);
        let mut i: usize = 0;
        while i < params.len()
            invariant
                *self == *old(self),
            decreases params@.len() - i,
        {
            backend::sig_push_param(&mut sig, backend_ty(params[i]));
            i = i + 1;
        }
        match ret {
            Option::Some(t) => backend::sig_push_return(&mut sig, backend_ty(t)),
            Option::None => {}
        }
        let sigref = backend::fb_import_signature(&mut self.builder, sig);
        let fptr = self.iconst(LogicalType::Ptr, callee_addr as i64);
        proof {
            assert forall|k: int| 0 <= k < args@.len() implies self@.val_ok(#[trigger] args@[k]) by {
                assert(old(self)@.val_ok(args@[k]));
                assert(self@.vals[args@[k].id as int] == old(self)@.vals[args@[k].id as int]);
            }
        }
        let (cl_args, ids) = self.call_arg_lists(args);
        let callee_cl = self.cl_vals[fptr.id];
        match ret {
            Option::None => {
                backend::emit_call_indirect_noret(&mut self.builder, sigref, callee_cl, &cl_args);
                self.push_cur_inst(InstKind::CallInd { callee: fptr.id, args: ids, rets: 0 });
                proof {
                    assert(self@ =~~= spec_call_ctx(old(self)@, callee_addr, args@, ret));
                }
                Option::None
            }
            Option::Some(t) => {
                let v = backend::emit_call_indirect_ret(&mut self.builder, sigref, callee_cl, &cl_args);
                self.push_cur_inst(InstKind::CallInd { callee: fptr.id, args: ids, rets: 1 });
                let id = self.vals.len();
                self.cl_vals.push(v);
                self.vals.push(t);
                proof {
                    vstd::std_specs::vec::axiom_spec_len(&self.vals);
                    assert(self@ =~~= spec_call_ctx(old(self)@, callee_addr, args@, ret));
                    crate::model::lemma_with_val_params(
                        old(self)@.with_inst(
                            InstView {
                                kind: InstViewKind::Iconst {
                                    ty: LogicalType::Ptr,
                                    imm: callee_addr as i64,
                                    out: old(self)@.vals.len() as usize,
                                },
                            },
                        ).with_val(LogicalType::Ptr).with_inst(
                            InstView {
                                kind: InstViewKind::CallInd {
                                    callee: old(self)@.vals.len() as usize,
                                    args: FnView::ids_of(args@),
                                    rets: 1,
                                },
                            },
                        ),
                        t,
                    );
                }
                Option::Some(Val { id, ty: t })
            }
        }
    }

    /// Converts an argument list to backend values alongside the model
    /// id list.
    fn call_arg_lists(&self, args: &Vec<Val>) -> (r: (
        Vec<cranelift::codegen::ir::Value>,
        Vec<usize>,
    ))
        requires
            self.wf(),
            self@.vals_ok(args@),
        ensures
            r.1@ == FnView::ids_of(args@),
            r.0@.len() == args@.len(),
    {
        let mut cl_args: Vec<cranelift::codegen::ir::Value> = Vec::new();
        let mut ids: Vec<usize> = Vec::new();
        let mut i: usize = 0;
        while i < args.len()
            invariant
                self.wf(),
                self@.vals_ok(args@),
                i <= args@.len(),
                ids@ == FnView::ids_of(args@.take(i as int)),
                cl_args@.len() == i,
            decreases args@.len() - i,
        {
            let v = args[i];
            cl_args.push(self.cl_vals[v.id]);
            ids.push(v.id);
            proof {
                assert(ids@ =~= FnView::ids_of(args@.take(i + 1)));
            }
            i = i + 1;
        }
        proof {
            assert(args@.take(args@.len() as int) =~= args@);
        }
        (cl_args, ids)
    }

    /// Adds a 64-bit unsigned offset to a pointer value, yielding a
    /// pointer.  Wrapping addition: address arithmetic carries no
    /// overflow test.
    pub fn ptr_add(&mut self, base: Val, off: Val) -> (r: Val)
        requires
            old(self).wf(),
            old(self)@.cursor_open(),
            old(self)@.val_ok(base),
            old(self)@.val_ok(off),
            base.ty == LogicalType::Ptr,
            off.ty == LogicalType::U64,
        ensures
            final(self).wf(),
            final(self)@.cursor_open(),
            final(self)@ == old(self)@.with_inst(
                InstView {
                    kind: InstViewKind::Binary {
                        op: RawOp::Iadd,
                        lhs: base.id,
                        rhs: off.id,
                        out: old(self)@.vals.len() as usize,
                    },
                },
            ).with_val(LogicalType::Ptr),
            r == (Val { id: old(self)@.vals.len() as usize, ty: LogicalType::Ptr }),
            final(self)@.val_ok(r),
    {
        self.raw_binop(RawOp::Iadd, LogicalType::Ptr, base.id, off.id)
    }

    /// Loads a value of the given logical type from `addr` plus a
    /// constant byte offset.  The address must be pointer typed; the
    /// access itself is unchecked — bounds are the caller's contract
    /// with the memory it points into.
    pub fn load(&mut self, ty: LogicalType, addr: Val, offset: i32) -> (r: Val)
        requires
            old(self).wf(),
            old(self)@.cursor_open(),
            old(self)@.val_ok(addr),
            addr.ty == LogicalType::Ptr,
        ensures
            final(self).wf(),
            final(self)@.cursor_open(),
            final(self)@ == old(self)@.with_inst(
                InstView {
                    kind: InstViewKind::Load {
                        ty,
                        addr: addr.id,
                        offset,
                        out: old(self)@.vals.len() as usize,
                    },
                },
            ).with_val(ty),
            r == (Val { id: old(self)@.vals.len() as usize, ty }),
            final(self)@.val_ok(r),
    {
        let t = backend_ty(ty);
        let a = self.cl_vals[addr.id];
        let v = backend::ins_load(&mut self.builder, t, a, offset);
        let id = self.vals.len();
        self.cl_vals.push(v);
        self.vals.push(ty);
        proof {
            vstd::std_specs::vec::axiom_spec_len(&self.vals);
            assert(self@ =~~= old(self)@.with_val(ty));
            lemma_with_val_params(old(self)@, ty);
        }
        self.push_cur_inst(InstKind::Load { ty, addr: addr.id, offset, out: id });
        proof {
            assert(self@ =~~= old(self)@.with_inst(
                InstView { kind: InstViewKind::Load { ty, addr: addr.id, offset, out: id } },
            ).with_val(ty));
        }
        Val { id, ty }
    }

    /// Stores `v` at `addr` plus a constant byte offset.  The address
    /// must be pointer typed; the access itself is unchecked.
    pub fn store(&mut self, v: Val, addr: Val, offset: i32)
        requires
            old(self).wf(),
            old(self)@.cursor_open(),
            old(self)@.val_ok(v),
            old(self)@.val_ok(addr),
            addr.ty == LogicalType::Ptr,
        ensures
            final(self).wf(),
            final(self)@.cursor_open(),
            final(self)@ == old(self)@.with_inst(
                InstView { kind: InstViewKind::Store { val: v.id, addr: addr.id, offset } },
            ),
    {
        let x = self.cl_vals[v.id];
        let a = self.cl_vals[addr.id];
        backend::ins_store(&mut self.builder, x, a, offset);
        self.push_cur_inst(InstKind::Store { val: v.id, addr: addr.id, offset });
    }

    /// Creates an explicit stack slot of the given size and alignment
    /// in the function's frame and yields its address as a pointer
    /// value.
    pub fn stack_slot_addr(&mut self, size: u32, align_log2: u8) -> (r: Val)
        requires
            old(self).wf(),
            old(self)@.cursor_open(),
        ensures
            final(self).wf(),
            final(self)@.cursor_open(),
            final(self)@ == old(self)@.with_slot().with_inst(
                InstView {
                    kind: InstViewKind::StackAddr {
                        slot: old(self)@.slots as usize,
                        out: old(self)@.vals.len() as usize,
                    },
                },
            ).with_val(LogicalType::Ptr),
            r == (Val { id: old(self)@.vals.len() as usize, ty: LogicalType::Ptr }),
            final(self)@.val_ok(r),
    {
        let slot = backend::fb_create_stack_slot(&mut self.builder, size, align_log2);
        let sid = self.cl_slots.len();
        self.cl_slots.push(slot);
        let pt = backend::config_pointer_type(&self.cfg);
        let v = backend::ins_stack_addr(&mut self.builder, pt, slot, 0);
        let id = self.vals.len();
        self.cl_vals.push(v);
        self.vals.push(LogicalType::Ptr);
        proof {
            vstd::std_specs::vec::axiom_spec_len(&self.vals);
            assert(self@ =~~= old(self)@.with_slot().with_val(LogicalType::Ptr));
            crate::model::lemma_params_consistent_extend(old(self)@, old(self)@.with_slot());
            lemma_with_val_params(old(self)@.with_slot(), LogicalType::Ptr);
        }
        self.push_cur_inst(InstKind::StackAddr { slot: sid, out: id });
        proof {
            assert(self@ =~~= old(self)@.with_slot().with_inst(
                InstView { kind: InstViewKind::StackAddr { slot: sid, out: id } },
            ).with_val(LogicalType::Ptr));
        }
        Val { id, ty: LogicalType::Ptr }
    }

    /// A build context over a fresh backend builder, with no blocks,
    /// values or variables yet.
    pub(crate) fn fresh(
        builder: cranelift_frontend::FunctionBuilder<'a>,
        cfg: cranelift::codegen::isa::TargetFrontendConfig,
        sig_params: Vec<crate::types::AbiShape>,
        ret: Option<LogicalType>,
    ) -> (r: FnCtx<'a>)
        ensures
            r.tables_ok(),
            r@.blocks.len() == 0,
            r@.vals.len() == 0,
            r@.vars.len() == 0,
            r@.current == 0,
            r@.sig_params == sig_params@,
            r@.ret == ret,
    {
        FnCtx {
            builder,
            cfg,
            cl_blocks: Vec::new(),
            cl_vals: Vec::new(),
            cl_vars: Vec::new(),
            cl_slots: Vec::new(),
            blocks: Vec::new(),
            vals: Vec::new(),
            vars: Vec::new(),
            current: 0,
            sig_params,
            ret,
        }
    }

    /// Enters the entry block right after it was created, before any
    /// other block exists.  Used once per build, by the context's
    /// function-entry step.
    pub(crate) fn enter_initial(&mut self)
        requires
            old(self).tables_ok(),
            old(self)@.blocks.len() == 1,
            old(self)@.current == 0,
            !old(self)@.blocks[0 as int].filled,
        ensures
            final(self).wf(),
            final(self)@ == old(self)@,
            final(self)@.cursor_open(),
    {
        let blk = self.cl_blocks[0];
        backend::fb_switch_to_block(&mut self.builder, blk);
    }

    /// Ends the build: hands the finished function to the backend.
    /// Every block must be complete or pristine, and the cursor block —
    /// the last one entered — must end in a terminator.  Returns the
    /// declared signature, to be passed to the context's define step.
    pub fn finalize(self) -> (r: FuncSig)
        requires
            self.wf(),
            self@.all_complete(),
            self@.cur().filled,
        ensures
            r.params@ == self@.sig_params,
            r.ret == self@.ret,
    {
        let FnCtx { builder, cfg, sig_params, ret, .. } = self;
        backend::builder_finalize(builder, &cfg);
        FuncSig { params: sig_params, ret }
    }
}

/// The declared signature of a finished function body, carried from the
/// build to the context's define step.
pub struct FuncSig {
    /// The parameter shapes, in order.
    pub params: Vec<crate::types::AbiShape>,
    /// The return type, if any.
    pub ret: Option<LogicalType>,
}

/// A handle to a function that was defined and compiled in its owning
/// context.  Generated code may call it through
/// [`Func::call`]; the host obtains a callable address through the
/// context's compiled-function accessor.
pub struct Func {
    /// The backend's numeric index for the declared function.
    pub id: u32,
    /// The machine address of the compiled code.
    pub addr: usize,
    /// The declared parameter shapes.
    pub params: Vec<crate::types::AbiShape>,
    /// The declared return type.
    pub ret: Option<LogicalType>,
}

impl Func {
    /// The machine address of the compiled function.
    pub open spec fn spec_addr(self) -> usize {
        self.addr
    }

    /// The declared parameter shapes.
    pub open spec fn param_shapes(self) -> Seq<crate::types::AbiShape> {
        self.params@
    }

    /// The declared return type.
    pub open spec fn ret_ty(self) -> Option<LogicalType> {
        self.ret
    }

    /// The machine address of the compiled function.
    pub fn addr(&self) -> (r: usize)
        ensures
            r == self.spec_addr(),
    {
        self.addr
    }

    /// The declared return type.
    pub fn ret_of(&self) -> (r: Option<LogicalType>)
        ensures
            r == self.ret_ty(),
    {
        self.ret
    }

    /// Emits a call to this function from the function under
    /// construction.  One argument per parameter slot, in declaration
    /// order, with a slice passing its length slot first.
    pub fn call(&self, fx: &mut FnCtx, args: &Vec<Val>) -> (r: Option<Val>)
        requires
            old(fx).wf(),
            old(fx)@.cursor_open(),
            old(fx)@.vals_ok(args@),
            FnView::tys_of(args@) == crate::types::spec_slots_of(self.param_shapes()),
        ensures
            final(fx).wf(),
            final(fx)@.cursor_open(),
            final(fx)@ == spec_call_ctx(old(fx)@, self.spec_addr(), args@, self.ret_ty()),
            r == spec_call_val(old(fx)@, self.ret_ty()),
            self.ret_ty() is Some <==> r is Some,
    {
        let slots = crate::types::slots_of(&self.params);
        fx.emit_call_indirect(self.addr, &slots, self.ret, args)
    }
}

/// A host function callable from generated code: a plain machine
/// address registered with an explicit signature descriptor.  Obtained
/// from the owning context's registry; never constructed from an
/// unregistered address by the library.
pub struct HostFunc {
    /// The registered machine address.
    pub addr: usize,
    /// The registered parameter slot types, in order.
    pub params: Vec<LogicalType>,
    /// The registered return type.
    pub ret: Option<LogicalType>,
}

impl HostFunc {
    /// The registered machine address.
    pub open spec fn spec_addr(self) -> usize {
        self.addr
    }

    /// The registered parameter slot types.
    pub open spec fn param_tys(self) -> Seq<LogicalType> {
        self.params@
    }

    /// The registered return type.
    pub open spec fn ret_ty(self) -> Option<LogicalType> {
        self.ret
    }

    /// Emits a call to this host function from the function under
    /// construction.  The generated call passes the arguments in
    /// exactly the order given, which is the declared parameter order.
    pub fn call(&self, fx: &mut FnCtx, args: &Vec<Val>) -> (r: Option<Val>)
        requires
            old(fx).wf(),
            old(fx)@.cursor_open(),
            old(fx)@.vals_ok(args@),
            FnView::tys_of(args@) == self.param_tys(),
        ensures
            final(fx).wf(),
            final(fx)@.cursor_open(),
            final(fx)@ == spec_call_ctx(old(fx)@, self.spec_addr(), args@, self.ret_ty()),
            r == spec_call_val(old(fx)@, self.ret_ty()),
            self.ret_ty() is Some <==> r is Some,
    {
        fx.emit_call_indirect(self.addr, &self.params, self.ret, args)
    }
}

/// The frame relation holds reflexively at any valid cursor.
pub proof fn lemma_extends_refl(v: FnView)
    requires
        v.current < v.blocks.len(),
    ensures
        crate::model::extends_cur_only(v, v),
{
}

/// Appending one instruction to the cursor block is within the frame.
pub proof fn lemma_extends_with_inst(v: FnView, k: InstView)
    requires
        v.current < v.blocks.len(),
    ensures
        crate::model::extends_cur_only(v, v.with_inst(k)),
{
}

/// Appending one value is within the frame.
pub proof fn lemma_extends_with_val(v: FnView, t: LogicalType)
    requires
        v.current < v.blocks.len(),
    ensures
        crate::model::extends_cur_only(v, v.with_val(t)),
{
    assert(v.with_val(t).vals =~= v.vals.push(t));
}

/// A binary operation's whole emission is within the frame.
pub proof fn lemma_binop_extends(v: FnView, op: BinOp, a: Val, b: Val)
    requires
        v.cursor_open(),
    ensures
        crate::model::extends_cur_only(v, spec_binop_ctx(v, op, a, b)),
{
    if op == BinOp::Add && !a.ty.spec_signed() {
        let k1 = InstView {
            kind: InstViewKind::Binary {
                op: RawOp::Iadd,
                lhs: a.id,
                rhs: b.id,
                out: v.vals.len() as usize,
            },
        };
        let v1 = v.with_inst(k1);
        let v2 = v1.with_val(a.ty);
        let k2 = InstView {
            kind: InstViewKind::Cmp {
                op: CmpOp::Lt,
                signed: false,
                lhs: v.vals.len() as usize,
                rhs: a.id,
                out: (v.vals.len() + 1) as usize,
            },
        };
        let v3 = v2.with_inst(k2);
        let v4 = v3.with_val(LogicalType::Bool);
        let k3 = InstView {
            kind: InstViewKind::TrapIfOverflow { cond: (v.vals.len() + 1) as usize },
        };
        lemma_extends_with_inst(v, k1);
        lemma_extends_with_val(v1, a.ty);
        crate::model::lemma_extends_cur_only_trans(v, v1, v2);
        lemma_extends_with_inst(v2, k2);
        crate::model::lemma_extends_cur_only_trans(v, v2, v3);
        lemma_extends_with_val(v3, LogicalType::Bool);
        crate::model::lemma_extends_cur_only_trans(v, v3, v4);
        lemma_extends_with_inst(v4, k3);
        crate::model::lemma_extends_cur_only_trans(v, v4, v4.with_inst(k3));
    } else if op == BinOp::Sub && !a.ty.spec_signed() {
        let k1 = InstView {
            kind: InstViewKind::Cmp {
                op: CmpOp::Lt,
                signed: false,
                lhs: a.id,
                rhs: b.id,
                out: v.vals.len() as usize,
            },
        };
        let v1 = v.with_inst(k1);
        let v2 = v1.with_val(LogicalType::Bool);
        let k2 = InstView { kind: InstViewKind::TrapIfOverflow { cond: v.vals.len() as usize } };
        let v3 = v2.with_inst(k2);
        let k3 = InstView {
            kind: InstViewKind::Binary {
                op: RawOp::Isub,
                lhs: a.id,
                rhs: b.id,
                out: (v.vals.len() + 1) as usize,
            },
        };
        let v4 = v3.with_inst(k3);
        lemma_extends_with_inst(v, k1);
        lemma_extends_with_val(v1, LogicalType::Bool);
        crate::model::lemma_extends_cur_only_trans(v, v1, v2);
        lemma_extends_with_inst(v2, k2);
        crate::model::lemma_extends_cur_only_trans(v, v2, v3);
        lemma_extends_with_inst(v3, k3);
        crate::model::lemma_extends_cur_only_trans(v, v3, v4);
        lemma_extends_with_val(v4, a.ty);
        crate::model::lemma_extends_cur_only_trans(v, v4, v4.with_val(a.ty));
    } else {
        let k = InstView {
            kind: InstViewKind::Binary {
                op: raw_of(op, a.ty.spec_signed()),
                lhs: a.id,
                rhs: b.id,
                out: v.vals.len() as usize,
            },
        };
        lemma_extends_with_inst(v, k);
        lemma_extends_with_val(v.with_inst(k), a.ty);
        crate::model::lemma_extends_cur_only_trans(v, v.with_inst(k), v.with_inst(k).with_val(a.ty));
    }
}

/// A value stays valid under the frame relation.
pub proof fn lemma_val_ok_extends(v: FnView, w: FnView, x: Val)
    requires
        crate::model::extends_cur_only(v, w),
        v.val_ok(x),
    ensures
        w.val_ok(x),
{
}

/// Well-formedness of a build context subsumes the table invariants.
pub proof fn lemma_wf_implies_tables_ok(c: FnCtx<'_>)
    requires
        c.wf(),
    ensures
        c.tables_ok(),
{
}

/// Copies an id list.
fn clone_ids(v: &Vec<usize>) -> (r: Vec<usize>)
    ensures
        r@ == v@,
{
    let mut r: Vec<usize> = Vec::new();
    let mut i: usize = 0;
    while i < v.len()
        invariant
            i <= v@.len(),
            r@ == v@.take(i as int),
        decreases v@.len() - i,
    {
        r.push(v[i]);
        proof {
            assert(r@ =~= v@.take(i + 1));
        }
        i = i + 1;
    }
    proof {
        assert(v@.take(v@.len() as int) =~= v@);
    }
    r
}

/// The backend condition code for a comparison on operands of the given
/// signedness.
fn cc_of(op: CmpOp, signed: bool) -> cranelift::codegen::ir::condcodes::IntCC {
    match op {
        CmpOp::Eq => cranelift::codegen::ir::condcodes::IntCC::Equal,
        CmpOp::Ne => cranelift::codegen::ir::condcodes::IntCC::NotEqual,
        CmpOp::Lt => if signed {
            cranelift::codegen::ir::condcodes::IntCC::SignedLessThan
        } else {
            cranelift::codegen::ir::condcodes::IntCC::UnsignedLessThan
        },
        CmpOp::Le => if signed {
            cranelift::codegen::ir::condcodes::IntCC::SignedLessThanOrEqual
        } else {
            cranelift::codegen::ir::condcodes::IntCC::UnsignedLessThanOrEqual
        },
        CmpOp::Gt => if signed {
            cranelift::codegen::ir::condcodes::IntCC::SignedGreaterThan
        } else {
            cranelift::codegen::ir::condcodes::IntCC::UnsignedGreaterThan
        },
        CmpOp::Ge => if signed {
            cranelift::codegen::ir::condcodes::IntCC::SignedGreaterThanOrEqual
        } else {
            cranelift::codegen::ir::condcodes::IntCC::UnsignedGreaterThanOrEqual
        },
    }
}

/// Unsigned addition and subtraction always emit the overflow trap: the
/// instruction sequence recorded for them ends in the trap test for
/// subtraction's borrow check and contains it for addition, so a
/// compiled unsigned addition whose operands' sum leaves the type's
/// range traps instead of wrapping silently.
pub proof fn lemma_unsigned_addsub_trap(v: FnView, op: BinOp, a: Val, b: Val)
    requires
        v.cursor_open(),
        !a.ty.spec_signed(),
        op == BinOp::Add || op == BinOp::Sub,
    ensures
        exists|i: int|
            0 <= i < spec_binop_ctx(v, op, a, b).cur().insts.len() && spec_binop_ctx(
                v,
                op,
                a,
                b,
            ).cur().insts[i].kind is TrapIfOverflow,
{
    let after = spec_binop_ctx(v, op, a, b);
    if op == BinOp::Add {
        assert(after.cur().insts.len() == v.cur().insts.len() + 3);
        assert(after.cur().insts[v.cur().insts.len() + 2int].kind is TrapIfOverflow);
    } else {
        assert(after.cur().insts.len() == v.cur().insts.len() + 3);
        assert(after.cur().insts[v.cur().insts.len() + 1int].kind is TrapIfOverflow);
    }
}

/// Signed addition emits exactly the single wrapping add instruction —
/// no trap — per two's-complement semantics.
pub proof fn lemma_signed_add_wraps(v: FnView, a: Val, b: Val)
    requires
        v.cursor_open(),
        a.ty.spec_signed(),
    ensures
        spec_binop_ctx(v, BinOp::Add, a, b).cur().insts == v.cur().insts.push(
            InstView {
                kind: InstViewKind::Binary {
                    op: RawOp::Iadd,
                    lhs: a.id,
                    rhs: b.id,
                    out: v.vals.len() as usize,
                },
            },
        ),
{
    assert(spec_binop_ctx(v, BinOp::Add, a, b).cur().insts =~= v.cur().insts.push(
        InstView {
            kind: InstViewKind::Binary {
                op: RawOp::Iadd,
                lhs: a.id,
                rhs: b.id,
                out: v.vals.len() as usize,
            },
        },
    ));
}

} // verus!
