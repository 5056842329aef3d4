//! The build context's model of the function under construction.
//!
//! Every block the builder creates, every parameter appended to a block,
//! and every instruction emitted through the backend is mirrored, index
//! for index, in the plain data structures of this module.  Contracts
//! about the code generator — which instructions an operation emits,
//! which arguments a jump passes, how many blocks a builder creates, when
//! a block is sealed — are stated over this model.
//!
//! Value, variable and block identifiers are indices into the context's
//! tables, assigned densely in order of creation.

use vstd::prelude::*;

use crate::types::{BinOp, CmpOp, LogicalType};

verus! {

/// A typed, immutable handle to a single value definition in the function
/// under construction.  Valid only within the build context that created
/// it.
#[derive(Clone, Copy, Debug, PartialEq, Eq, Structural)]
pub struct Val {
    /// Index of the definition in the context's value table.
    pub id: usize,
    /// The logical type of the value.
    pub ty: LogicalType,
}

/// A typed, mutable storage location in the function under construction.
/// Reading yields a fresh [`Val`] carrying its latest definition; writing
/// records a new definition (SSA renaming, not a memory store).
#[derive(Clone, Copy, Debug, PartialEq, Eq, Structural)]
pub struct Var {
    /// Index of the variable in the context's variable table.
    pub id: usize,
    /// The logical type of the variable.
    pub ty: LogicalType,
}

/// The raw arithmetic instruction selected for a binary operation.
#[derive(Clone, Copy, Debug, PartialEq, Eq, Structural)]
pub enum RawOp {
    Iadd,
    Isub,
    Imul,
    Udiv,
    Sdiv,
    Urem,
    Srem,
    Ishl,
    Ushr,
    Sshr,
    Band,
    Bor,
    Bxor,
}

/// One emitted instruction, as recorded in the model.  Instructions that
/// produce a value produce the next free value id at the point they are
/// emitted.
#[derive(Clone, Debug)]
pub enum InstKind {
    /// Materializes an integer constant; produces the value `out`.
    Iconst { ty: LogicalType, imm: i64, out: usize },
    /// A raw binary operation on two prior values; produces the value
    /// `out`.
    Binary { op: RawOp, lhs: usize, rhs: usize, out: usize },
    /// An integer comparison; produces the boolean value `out`.
    Cmp { op: CmpOp, signed: bool, lhs: usize, rhs: usize, out: usize },
    /// Traps the generated code when the operand is non-zero, with the
    /// integer-overflow trap code; produces no value.
    TrapIfOverflow { cond: usize },
    /// Records a new definition of a variable; produces no value.
    DefVar { var: usize, val: usize },
    /// Reads a variable's latest definition; produces the value `out`.
    UseVar { var: usize, out: usize },
    /// Unconditional jump; a terminator.
    Jump { target: usize, args: Vec<usize> },
    /// Conditional branch: to `target_nz` with `args_nz` when the
    /// condition is non-zero, else to `target_z` with `args_z`; a
    /// terminator.
    Brif {
        cond: usize,
        target_nz: usize,
        args_nz: Vec<usize>,
        target_z: usize,
        args_z: Vec<usize>,
    },
    /// Return from the generated function; a terminator.
    Ret { args: Vec<usize> },
    /// Indirect call to the address in `callee` passing `args` in order;
    /// produces `rets` values.
    CallInd { callee: usize, args: Vec<usize>, rets: usize },
    /// Loads a value of the given type from `addr` plus a byte offset;
    /// produces the value `out`.
    Load { ty: LogicalType, addr: usize, offset: i32, out: usize },
    /// Stores `val` at `addr` plus a byte offset; produces no value.
    Store { val: usize, addr: usize, offset: i32 },
    /// The address of a stack slot; produces the pointer value `out`.
    StackAddr { slot: usize, out: usize },
}

/// Specification view of one emitted instruction.
#[verifier::ext_equal]
pub struct InstView {
    pub kind: InstViewKind,
}

/// The cases of [`InstView`].
#[verifier::ext_equal]
pub enum InstViewKind {
    Iconst { ty: LogicalType, imm: i64, out: usize },
    Binary { op: RawOp, lhs: usize, rhs: usize, out: usize },
    Cmp { op: CmpOp, signed: bool, lhs: usize, rhs: usize, out: usize },
    TrapIfOverflow { cond: usize },
    DefVar { var: usize, val: usize },
    UseVar { var: usize, out: usize },
    Jump { target: usize, args: Seq<usize> },
    Brif {
        cond: usize,
        target_nz: usize,
        args_nz: Seq<usize>,
        target_z: usize,
        args_z: Seq<usize>,
    },
    Ret { args: Seq<usize> },
    CallInd { callee: usize, args: Seq<usize>, rets: usize },
    Load { ty: LogicalType, addr: usize, offset: i32, out: usize },
    Store { val: usize, addr: usize, offset: i32 },
    StackAddr { slot: usize, out: usize },
}

impl View for InstKind {
    type V = InstView;

    open spec fn view(&self) -> InstView {
        InstView {
            kind: match self {
                InstKind::Iconst { ty, imm, out } => InstViewKind::Iconst {
                    ty: *ty,
                    imm: *imm,
                    out: *out,
                },
                InstKind::Binary { op, lhs, rhs, out } => InstViewKind::Binary {
                    op: *op,
                    lhs: *lhs,
                    rhs: *rhs,
                    out: *out,
                },
                InstKind::Cmp { op, signed, lhs, rhs, out } => InstViewKind::Cmp {
                    op: *op,
                    signed: *signed,
                    lhs: *lhs,
                    rhs: *rhs,
                    out: *out,
                },
                InstKind::TrapIfOverflow { cond } => InstViewKind::TrapIfOverflow { cond: *cond },
                InstKind::DefVar { var, val } => InstViewKind::DefVar { var: *var, val: *val },
                InstKind::UseVar { var, out } => InstViewKind::UseVar { var: *var, out: *out },
                InstKind::Jump { target, args } => InstViewKind::Jump {
                    target: *target,
                    args: args@,
                },
                InstKind::Brif { cond, target_nz, args_nz, target_z, args_z } => InstViewKind::Brif {
                    cond: *cond,
                    target_nz: *target_nz,
                    args_nz: args_nz@,
                    target_z: *target_z,
                    args_z: args_z@,
                },
                InstKind::Ret { args } => InstViewKind::Ret { args: args@ },
                InstKind::CallInd { callee, args, rets } => InstViewKind::CallInd {
                    callee: *callee,
                    args: args@,
                    rets: *rets,
                },
                InstKind::Load { ty, addr, offset, out } => InstViewKind::Load {
                    ty: *ty,
                    addr: *addr,
                    offset: *offset,
                    out: *out,
                },
                InstKind::Store { val, addr, offset } => InstViewKind::Store {
                    val: *val,
                    addr: *addr,
                    offset: *offset,
                },
                InstKind::StackAddr { slot, out } => InstViewKind::StackAddr { slot: *slot, out: *out },
            },
        }
    }
}

/// The model of one control-flow-graph block.
#[derive(Clone, Debug)]
pub struct BlockModel {
    /// The ordered logical types of the block's parameters — the SSA
    /// join mechanism for values arriving from its predecessors.
    pub params: Vec<LogicalType>,
    /// Value id of the block's first parameter; parameter `i` has id
    /// `param_base + i`.
    pub param_base: usize,
    /// Instructions emitted into the block, in order.
    pub insts: Vec<InstKind>,
    /// Whether the block has been sealed (all predecessors declared).
    /// A block is sealed exactly once.
    pub sealed: bool,
    /// Whether the block ends in a terminator; a filled block accepts no
    /// further instructions.
    pub filled: bool,
}

/// Specification view of one block.
#[verifier::ext_equal]
pub struct BlockView {
    pub params: Seq<LogicalType>,
    pub param_base: usize,
    pub insts: Seq<InstView>,
    pub sealed: bool,
    pub filled: bool,
}

impl View for BlockModel {
    type V = BlockView;

    open spec fn view(&self) -> BlockView {
        BlockView {
            params: self.params@,
            param_base: self.param_base,
            insts: self.insts@.map_values(|k: InstKind| k@),
            sealed: self.sealed,
            filled: self.filled,
        }
    }
}

impl BlockView {
    /// This block with one more instruction.
    pub open spec fn with_inst(self, k: InstView) -> BlockView {
        BlockView { insts: self.insts.push(k), ..self }
    }

    /// This block, sealed.
    pub open spec fn as_sealed(self) -> BlockView {
        BlockView { sealed: true, ..self }
    }

    /// This block, filled by a terminator.
    pub open spec fn as_filled(self) -> BlockView {
        BlockView { filled: true, ..self }
    }
}

/// Specification view of the whole function under construction.
#[verifier::ext_equal]
pub struct FnView {
    /// All blocks, in order of creation.
    pub blocks: Seq<BlockView>,
    /// The logical type of every value id.
    pub vals: Seq<LogicalType>,
    /// The logical type of every variable id.
    pub vars: Seq<LogicalType>,
    /// Number of stack slots created.
    pub slots: usize,
    /// The block the cursor stands in.
    pub current: usize,
    /// The declared parameter shapes.
    pub sig_params: Seq<crate::types::AbiShape>,
    /// The declared return type, if any.
    pub ret: Option<LogicalType>,
}

impl FnView {
    /// The block under the cursor.
    pub open spec fn cur(self) -> BlockView {
        self.blocks[self.current as int]
    }

    /// The cursor block exists and still accepts instructions.
    pub open spec fn cursor_open(self) -> bool {
        self.current < self.blocks.len() && !self.cur().filled
    }

    /// `v` is a value of this function with the type it claims.
    pub open spec fn val_ok(self, v: Val) -> bool {
        v.id < self.vals.len() && self.vals[v.id as int] == v.ty
    }

    /// Every member of `vs` is a value of this function with the type it
    /// claims.
    pub open spec fn vals_ok(self, vs: Seq<Val>) -> bool {
        forall|i: int| 0 <= i < vs.len() ==> self.val_ok(#[trigger] vs[i])
    }

    /// `v` is a variable of this function with the type it claims.
    pub open spec fn var_ok(self, v: Var) -> bool {
        v.id < self.vars.len() && self.vars[v.id as int] == v.ty
    }

    /// `b` names a block of this function.
    pub open spec fn block_ok(self, b: usize) -> bool {
        b < self.blocks.len()
    }

    /// The types of `vs`, in order.
    pub open spec fn tys_of(vs: Seq<Val>) -> Seq<LogicalType> {
        vs.map_values(|v: Val| v.ty)
    }

    /// The ids of `vs`, in order.
    pub open spec fn ids_of(vs: Seq<Val>) -> Seq<usize> {
        vs.map_values(|v: Val| v.id)
    }

    /// This function with one more instruction in the cursor block.
    pub open spec fn with_inst(self, k: InstView) -> FnView {
        FnView {
            blocks: self.blocks.update(self.current as int, self.cur().with_inst(k)),
            ..self
        }
    }

    /// This function with one more value of type `t`.
    pub open spec fn with_val(self, t: LogicalType) -> FnView {
        FnView { vals: self.vals.push(t), ..self }
    }

    /// This function with one more variable of type `t`.
    pub open spec fn with_var(self, t: LogicalType) -> FnView {
        FnView { vars: self.vars.push(t), ..self }
    }

    /// This function with one more stack slot.
    pub open spec fn with_slot(self) -> FnView {
        FnView { slots: (self.slots + 1) as usize, ..self }
    }

    /// This function with the cursor block filled.
    pub open spec fn with_cur_filled(self) -> FnView {
        FnView {
            blocks: self.blocks.update(self.current as int, self.cur().as_filled()),
            ..self
        }
    }

    /// This function with block `b` sealed.
    pub open spec fn with_sealed(self, b: usize) -> FnView {
        FnView {
            blocks: self.blocks.update(b as int, self.blocks[b as int].as_sealed()),
            ..self
        }
    }

    /// This function with the cursor moved to block `b`.
    pub open spec fn with_cursor(self, b: usize) -> FnView {
        FnView { current: b, ..self }
    }

    /// This function with one more block of the given parameter types
    /// appended; the block's parameters take the next free value ids, in
    /// order.
    pub open spec fn with_block(self, params: Seq<LogicalType>) -> FnView {
        FnView {
            blocks: self.blocks.push(
                BlockView {
                    params: params,
                    param_base: self.vals.len() as usize,
                    insts: Seq::empty(),
                    sealed: false,
                    filled: false,
                },
            ),
            vals: self.vals + params,
            ..self
        }
    }

    /// Every block is either complete — sealed and filled — or pristine:
    /// created but never entered, with no instruction, no seal and no
    /// fill.  This is the state the backend requires before the function
    /// can be finalized; a pristine block is one no fall-through ever
    /// reached, such as the merge point of a conditional both of whose
    /// paths returned.
    pub open spec fn all_complete(self) -> bool {
        forall|i: int|
            0 <= i < self.blocks.len() ==> ((#[trigger] self.blocks[i]).sealed
                && self.blocks[i].filled) || (self.blocks[i].insts.len() == 0
                && !self.blocks[i].sealed && !self.blocks[i].filled)
    }

    /// Block `i`'s parameter ids lie inside the value table, and the
    /// table records the block's parameter types at those ids.
    pub open spec fn params_consistent_at(self, i: int) -> bool {
        &&& self.blocks[i].param_base + self.blocks[i].params.len() <= self.vals.len()
        &&& forall|j: int|
            0 <= j < self.blocks[i].params.len() ==> self.vals[self.blocks[i].param_base + j]
                == #[trigger] self.blocks[i].params[j]
    }

    /// [`FnView::params_consistent_at`] holds of every block.
    pub open spec fn params_consistent(self) -> bool {
        forall|i: int| 0 <= i < self.blocks.len() ==> #[trigger] self.params_consistent_at(i)
    }
}

/// `w` differs from `v` only by instructions appended to the cursor
/// block and by new values and variables: every other block is
/// untouched, and the cursor block keeps its parameters, sealing and
/// fill state.  This is the frame a branch or loop builder relies on
/// while client code emits a path's body.
pub open spec fn extends_cur_only(v: FnView, w: FnView) -> bool {
    &&& w.blocks.len() == v.blocks.len()
    &&& w.current == v.current
    &&& forall|i: int|
        0 <= i < v.blocks.len() && i != v.current ==> w.blocks[i] == #[trigger] v.blocks[i]
    &&& w.blocks[v.current as int].params == v.cur().params
    &&& w.blocks[v.current as int].param_base == v.cur().param_base
    &&& w.blocks[v.current as int].sealed == v.cur().sealed
    &&& w.blocks[v.current as int].filled == v.cur().filled
    &&& v.vals.len() <= w.vals.len()
    &&& forall|i: int| 0 <= i < v.vals.len() ==> w.vals[i] == v.vals[i]
    &&& v.vars.len() <= w.vars.len()
    &&& forall|i: int| 0 <= i < v.vars.len() ==> w.vars[i] == v.vars[i]
    &&& w.sig_params == v.sig_params
    &&& w.ret == v.ret
}

/// The frame relation is transitive.
pub proof fn lemma_extends_cur_only_trans(a: FnView, b: FnView, c: FnView)
    requires
        extends_cur_only(a, b),
        extends_cur_only(b, c),
        a.current < a.blocks.len(),
    ensures
        extends_cur_only(a, c),
{
}

/// Parameter consistency carries over to any model whose blocks keep
/// their parameter lists and bases and whose value table only grew.
pub proof fn lemma_params_consistent_extend(v: FnView, w: FnView)
    requires
        v.params_consistent(),
        v.vals.is_prefix_of(w.vals),
        w.blocks.len() == v.blocks.len(),
        forall|i: int|
            0 <= i < w.blocks.len() ==> (#[trigger] w.blocks[i]).param_base == v.blocks[i].param_base
                && w.blocks[i].params == v.blocks[i].params,
    ensures
        w.params_consistent(),
{
    assert forall|i: int| 0 <= i < w.blocks.len() implies w.params_consistent_at(i) by {
        assert(v.params_consistent_at(i));
        assert forall|j: int|
            0 <= j < w.blocks[i].params.len() implies w.vals[w.blocks[i].param_base + j]
            == #[trigger] w.blocks[i].params[j] by {
            assert(v.blocks[i].params[j] == w.blocks[i].params[j]);
            assert(v.vals[v.blocks[i].param_base + j] == v.blocks[i].params[j]);
            assert(w.vals[v.blocks[i].param_base + j] == v.vals[v.blocks[i].param_base + j]);
        }
    }
}

/// Appending an instruction preserves parameter consistency.
pub proof fn lemma_with_inst_params(v: FnView, k: InstView)
    requires
        v.params_consistent(),
        v.current < v.blocks.len(),
    ensures
        v.with_inst(k).params_consistent(),
{
    lemma_params_consistent_extend(v, v.with_inst(k));
}

/// Appending a value preserves parameter consistency.
pub proof fn lemma_with_val_params(v: FnView, t: LogicalType)
    requires
        v.params_consistent(),
    ensures
        v.with_val(t).params_consistent(),
{
    assert(v.vals.is_prefix_of(v.with_val(t).vals)) by {
        assert(v.with_val(t).vals.subrange(0, v.vals.len() as int) =~= v.vals);
    }
    lemma_params_consistent_extend(v, v.with_val(t));
}

/// Appending a variable preserves parameter consistency.
pub proof fn lemma_with_var_params(v: FnView, t: LogicalType)
    requires
        v.params_consistent(),
    ensures
        v.with_var(t).params_consistent(),
{
    lemma_params_consistent_extend(v, v.with_var(t));
}

/// Filling the cursor block preserves parameter consistency.
pub proof fn lemma_with_cur_filled_params(v: FnView)
    requires
        v.params_consistent(),
        v.current < v.blocks.len(),
    ensures
        v.with_cur_filled().params_consistent(),
{
    lemma_params_consistent_extend(v, v.with_cur_filled());
}

/// Sealing a block preserves parameter consistency.
pub proof fn lemma_with_sealed_params(v: FnView, b: usize)
    requires
        v.params_consistent(),
        b < v.blocks.len(),
    ensures
        v.with_sealed(b).params_consistent(),
{
    lemma_params_consistent_extend(v, v.with_sealed(b));
}

/// Moving the cursor preserves parameter consistency.
pub proof fn lemma_with_cursor_params(v: FnView, b: usize)
    requires
        v.params_consistent(),
    ensures
        v.with_cursor(b).params_consistent(),
{
    lemma_params_consistent_extend(v, v.with_cursor(b));
}

/// Appending a block whose parameters take the next free value ids
/// preserves parameter consistency and establishes it for the new block.
pub proof fn lemma_with_block_params(v: FnView, params: Seq<LogicalType>)
    requires
        v.params_consistent(),
        v.vals.len() <= usize::MAX,
    ensures
        v.with_block(params).params_consistent(),
{
    let w = v.with_block(params);
    assert(v.vals.is_prefix_of(w.vals)) by {
        assert(w.vals.subrange(0, v.vals.len() as int) =~= v.vals);
    }
    assert forall|i: int| 0 <= i < w.blocks.len() implies w.params_consistent_at(i) by {
        if i < v.blocks.len() {
            assert(v.params_consistent_at(i));
            assert(w.blocks[i] == v.blocks[i]);
            assert forall|j: int|
                0 <= j < w.blocks[i].params.len() implies w.vals[w.blocks[i].param_base + j]
                == #[trigger] w.blocks[i].params[j] by {
                assert(v.vals[v.blocks[i].param_base + j] == v.blocks[i].params[j]);
                assert(w.vals[v.blocks[i].param_base + j] == v.vals[v.blocks[i].param_base + j]);
            }
        } else {
            assert(w.blocks[i].param_base == v.vals.len());
            assert(w.blocks[i].params == params);
            assert forall|j: int|
                0 <= j < w.blocks[i].params.len() implies w.vals[w.blocks[i].param_base + j]
                == #[trigger] w.blocks[i].params[j] by {
                assert(w.vals[v.vals.len() + j] == params[j]);
            }
        }
    }
}

} // verus!
