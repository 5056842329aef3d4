//! A reference evaluator for the recorded model.
//!
//! The build context records every block and instruction of the
//! function under construction.  The evaluator here runs that record
//! on host values, mirroring the documented semantics of each emitted
//! instruction — wrapping arithmetic, the explicit overflow traps,
//! comparisons of either signedness, variables and block arguments —
//! so a program's computed values can be examined without touching the
//! generated machine code.  It is a diagnostic instrument: values are
//! carried as 64-bit words masked to their logical width, a step
//! budget bounds execution, and anything outside the model's closed
//! world — a host call, a memory access, signed division, or an
//! ill-formed reference — ends evaluation as [`Outcome::Stuck`].

use vstd::prelude::*;

use crate::func::FnCtx;
use crate::model::{InstKind, RawOp};
use crate::types::{CmpOp, LogicalType};

verus! {

/// How an evaluation ended.
#[derive(Clone, Debug, PartialEq, Eq)]
pub enum Outcome {
    /// The program returned, with its return values.
    Returned(Vec<u64>),
    /// The program reached a trap: an overflow test fired, or a
    /// division by zero.
    Trapped,
    /// The step budget ran out.
    OutOfFuel,
    /// The program reached something the evaluator does not model, or
    /// an ill-formed reference.
    Stuck,
}

/// `x` masked to the width of `t`.
pub open spec fn spec_mask(x: u64, t: LogicalType) -> u64 {
    let b = t.spec_bits();
    if b == 8 {
        x & 0xff
    } else if b == 16 {
        x & 0xffff
    } else if b == 32 {
        x & 0xffff_ffff
    } else {
        x
    }
}

/// `x` masked to the width of `t`.
#[verifier::when_used_as_spec(spec_mask)]
fn mask(x: u64, t: LogicalType) -> (r: u64)
    ensures
        r == spec_mask(x, t),
{
    let b = t.bits();
    if b == 8 {
        x & 0xff
    } else if b == 16 {
        x & 0xffff
    } else if b == 32 {
        x & 0xffff_ffff
    } else {
        x
    }
}

/// The comparison key of `x` under the given signedness: flipping the
/// sign bit orders signed values by their unsigned keys.
pub open spec fn spec_cmp_key(x: u64, t: LogicalType, signed: bool) -> u64 {
    if signed {
        let b = t.spec_bits();
        let bit = if b == 8 {
            0x80u64
        } else if b == 16 {
            0x8000u64
        } else if b == 32 {
            0x8000_0000u64
        } else {
            0x8000_0000_0000_0000u64
        };
        spec_mask(x ^ bit, t)
    } else {
        x
    }
}

/// The comparison key of `x` under the given signedness.
#[verifier::when_used_as_spec(spec_cmp_key)]
fn cmp_key(x: u64, t: LogicalType, signed: bool) -> (r: u64)
    ensures
        r == spec_cmp_key(x, t, signed),
{
    if signed {
        let b = t.bits();
        let bit = if b == 8 {
            0x80u64
        } else if b == 16 {
            0x8000u64
        } else if b == 32 {
            0x8000_0000u64
        } else {
            0x8000_0000_0000_0000u64
        };
        mask(x ^ bit, t)
    } else {
        x
    }
}

/// Specification view of an evaluation outcome.
#[verifier::ext_equal]
pub enum OutcomeV {
    Returned(Seq<u64>),
    Trapped,
    OutOfFuel,
    Stuck,
}

/// The specification view of an outcome.
pub open spec fn outcome_view(o: Outcome) -> OutcomeV {
    match o {
        Outcome::Returned(v) => OutcomeV::Returned(v@),
        Outcome::Trapped => OutcomeV::Trapped,
        Outcome::OutOfFuel => OutcomeV::OutOfFuel,
        Outcome::Stuck => OutcomeV::Stuck,
    }
}

/// A state of the reference evaluation: one word per model value and
/// per variable, and the position about to execute.
#[verifier::ext_equal]
pub struct EvalState {
    pub vals: Seq<u64>,
    pub vars: Seq<u64>,
    pub cur: usize,
    pub pc: usize,
}

/// The jump-argument transfer: the arguments are read from the current
/// values, then written — masked to the parameter types — into the
/// target block's parameter slots.  `None` when the target, an
/// argument, or a slot is out of range.
pub open spec fn spec_pass_args(
    m: crate::model::FnView,
    vals: Seq<u64>,
    target: usize,
    args: Seq<usize>,
) -> Option<Seq<u64>> {
    if target >= m.blocks.len() {
        Option::None
    } else if args.len() != m.blocks[target as int].params.len() {
        Option::None
    } else if exists|j: int| 0 <= j < args.len() && #[trigger] args[j] >= vals.len() {
        Option::None
    } else if args.len() > 0 && m.blocks[target as int].param_base + args.len() > vals.len() {
        Option::None
    } else {
        let base = m.blocks[target as int].param_base;
        Option::Some(
            Seq::new(
                vals.len(),
                |i: int|
                    if base <= i < base + args.len() {
                        spec_mask(vals[args[i - base] as int], m.blocks[target as int].params[i - base])
                    } else {
                        vals[i]
                    },
            ),
        )
    }
}

/// The reference evaluation itself: one recursive step per fuel unit,
/// following the documented semantics of each recorded instruction —
/// wrapping arithmetic masked to the logical width, division by zero
/// and a firing overflow test trapping, comparisons by sign-adjusted
/// keys, variables and block arguments transferred as stored — and
/// ending `Stuck` on anything outside the modeled world.
pub open spec fn spec_interp(m: crate::model::FnView, st: EvalState, fuel: nat) -> OutcomeV
    decreases fuel,
{
    if fuel == 0 {
        OutcomeV::OutOfFuel
    } else if st.cur >= m.blocks.len() {
        OutcomeV::Stuck
    } else if st.pc >= m.blocks[st.cur as int].insts.len() {
        OutcomeV::Stuck
    } else {
        match m.blocks[st.cur as int].insts[st.pc as int].kind {
            crate::model::InstViewKind::Iconst { ty, imm, out } => {
                if out >= st.vals.len() {
                    OutcomeV::Stuck
                } else {
                    spec_interp(
                        m,
                        EvalState {
                            vals: st.vals.update(out as int, spec_mask(imm as u64, ty)),
                            pc: (st.pc + 1) as usize,
                            ..st
                        },
                        (fuel - 1) as nat,
                    )
                }
            }
            crate::model::InstViewKind::Binary { op, lhs, rhs, out } => {
                if lhs >= st.vals.len() || rhs >= st.vals.len() || out >= st.vals.len() || out
                    >= m.vals.len() {
                    OutcomeV::Stuck
                } else {
                    let t = m.vals[out as int];
                    let a = st.vals[lhs as int];
                    let b = st.vals[rhs as int];
                    let bits = t.spec_bits() as u64;
                    match op {
                        RawOp::Iadd => spec_interp(
                            m,
                            EvalState {
                                vals: st.vals.update(out as int, spec_mask(a.wrapping_add(b), t)),
                                pc: (st.pc + 1) as usize,
                                ..st
                            },
                            (fuel - 1) as nat,
                        ),
                        RawOp::Isub => spec_interp(
                            m,
                            EvalState {
                                vals: st.vals.update(out as int, spec_mask(a.wrapping_sub(b), t)),
                                pc: (st.pc + 1) as usize,
                                ..st
                            },
                            (fuel - 1) as nat,
                        ),
                        RawOp::Imul => spec_interp(
                            m,
                            EvalState {
                                vals: st.vals.update(out as int, spec_mask(a.wrapping_mul(b), t)),
                                pc: (st.pc + 1) as usize,
                                ..st
                            },
                            (fuel - 1) as nat,
                        ),
                        RawOp::Udiv => {
                            if b == 0 {
                                OutcomeV::Trapped
                            } else {
                                spec_interp(
                                    m,
                                    EvalState {
                                        vals: st.vals.update(out as int, a / b),
                                        pc: (st.pc + 1) as usize,
                                        ..st
                                    },
                                    (fuel - 1) as nat,
                                )
                            }
                        }
                        RawOp::Urem => {
                            if b == 0 {
                                OutcomeV::Trapped
                            } else {
                                spec_interp(
                                    m,
                                    EvalState {
                                        vals: st.vals.update(out as int, a % b),
                                        pc: (st.pc + 1) as usize,
                                        ..st
                                    },
                                    (fuel - 1) as nat,
                                )
                            }
                        }
                        RawOp::Ishl => {
                            let sh = if bits >= 1 {
                                b % bits
                            } else {
                                0
                            };
                            spec_interp(
                                m,
                                EvalState {
                                    vals: st.vals.update(out as int, spec_mask(a << sh, t)),
                                    pc: (st.pc + 1) as usize,
                                    ..st
                                },
                                (fuel - 1) as nat,
                            )
                        }
                        RawOp::Ushr => {
                            let sh = if bits >= 1 {
                                b % bits
                            } else {
                                0
                            };
                            spec_interp(
                                m,
                                EvalState {
                                    vals: st.vals.update(out as int, a >> sh),
                                    pc: (st.pc + 1) as usize,
                                    ..st
                                },
                                (fuel - 1) as nat,
                            )
                        }
                        RawOp::Band => spec_interp(
                            m,
                            EvalState {
                                vals: st.vals.update(out as int, a & b),
                                pc: (st.pc + 1) as usize,
                                ..st
                            },
                            (fuel - 1) as nat,
                        ),
                        RawOp::Bor => spec_interp(
                            m,
                            EvalState {
                                vals: st.vals.update(out as int, a | b),
                                pc: (st.pc + 1) as usize,
                                ..st
                            },
                            (fuel - 1) as nat,
                        ),
                        RawOp::Bxor => spec_interp(
                            m,
                            EvalState {
                                vals: st.vals.update(out as int, spec_mask(a ^ b, t)),
                                pc: (st.pc + 1) as usize,
                                ..st
                            },
                            (fuel - 1) as nat,
                        ),
                        _ => OutcomeV::Stuck,
                    }
                }
            }
            crate::model::InstViewKind::Cmp { op, signed, lhs, rhs, out } => {
                if lhs >= st.vals.len() || rhs >= st.vals.len() || out >= st.vals.len() || lhs
                    >= m.vals.len() {
                    OutcomeV::Stuck
                } else {
                    let t = m.vals[lhs as int];
                    let ka = spec_cmp_key(st.vals[lhs as int], t, signed);
                    let kb = spec_cmp_key(st.vals[rhs as int], t, signed);
                    let res = match op {
                        CmpOp::Eq => ka == kb,
                        CmpOp::Ne => ka != kb,
                        CmpOp::Lt => ka < kb,
                        CmpOp::Le => ka <= kb,
                        CmpOp::Gt => ka > kb,
                        CmpOp::Ge => ka >= kb,
                    };
                    spec_interp(
                        m,
                        EvalState {
                            vals: st.vals.update(
                                out as int,
                                if res {
                                    1u64
                                } else {
                                    0u64
                                },
                            ),
                            pc: (st.pc + 1) as usize,
                            ..st
                        },
                        (fuel - 1) as nat,
                    )
                }
            }
            crate::model::InstViewKind::TrapIfOverflow { cond } => {
                if cond >= st.vals.len() {
                    OutcomeV::Stuck
                } else if st.vals[cond as int] != 0 {
                    OutcomeV::Trapped
                } else {
                    spec_interp(m, EvalState { pc: (st.pc + 1) as usize, ..st }, (fuel - 1) as nat)
                }
            }
            crate::model::InstViewKind::DefVar { var, val } => {
                if var >= st.vars.len() || val >= st.vals.len() {
                    OutcomeV::Stuck
                } else {
                    spec_interp(
                        m,
                        EvalState {
                            vars: st.vars.update(var as int, st.vals[val as int]),
                            pc: (st.pc + 1) as usize,
                            ..st
                        },
                        (fuel - 1) as nat,
                    )
                }
            }
            crate::model::InstViewKind::UseVar { var, out } => {
                if var >= st.vars.len() || out >= st.vals.len() {
                    OutcomeV::Stuck
                } else {
                    spec_interp(
                        m,
                        EvalState {
                            vals: st.vals.update(out as int, st.vars[var as int]),
                            pc: (st.pc + 1) as usize,
                            ..st
                        },
                        (fuel - 1) as nat,
                    )
                }
            }
            crate::model::InstViewKind::Jump { target, args } => {
                match spec_pass_args(m, st.vals, target, args) {
                    Option::None => OutcomeV::Stuck,
                    Option::Some(nv) => spec_interp(
                        m,
                        EvalState { vals: nv, cur: target, pc: 0, ..st },
                        (fuel - 1) as nat,
                    ),
                }
            }
            crate::model::InstViewKind::Brif { cond, target_nz, args_nz, target_z, args_z } => {
                if cond >= st.vals.len() {
                    OutcomeV::Stuck
                } else {
                    let (target, args) = if st.vals[cond as int] != 0 {
                        (target_nz, args_nz)
                    } else {
                        (target_z, args_z)
                    };
                    match spec_pass_args(m, st.vals, target, args) {
                        Option::None => OutcomeV::Stuck,
                        Option::Some(nv) => spec_interp(
                            m,
                            EvalState { vals: nv, cur: target, pc: 0, ..st },
                            (fuel - 1) as nat,
                        ),
                    }
                }
            }
            crate::model::InstViewKind::Ret { args } => {
                if exists|j: int| 0 <= j < args.len() && args[j] >= st.vals.len() {
                    OutcomeV::Stuck
                } else {
                    OutcomeV::Returned(Seq::new(args.len(), |j: int| st.vals[args[j] as int]))
                }
            }
            _ => OutcomeV::Stuck,
        }
    }
}

/// The entry value table: zero everywhere except the entry block's
/// parameter slots, which carry the arguments masked to the parameter
/// types.
pub open spec fn spec_entry_vals(m: crate::model::FnView, args: Seq<u64>) -> Seq<u64> {
    let base = m.blocks[0].param_base;
    Seq::new(
        m.vals.len(),
        |i: int|
            if base <= i < base + args.len() {
                spec_mask(args[i - base], m.blocks[0].params[i - base])
            } else {
                0u64
            },
    )
}

impl<'a> FnCtx<'a> {
    /// Evaluates the recorded program on the given entry-block
    /// arguments, one per entry parameter, spending at most `fuel`
    /// steps.  The outcome is exactly [`spec_interp`] run from the
    /// entry state: zeroed values and variables, the arguments masked
    /// into the entry block's parameter slots.
    pub fn interp(&self, args: &Vec<u64>, fuel: usize) -> (r: Outcome)
        requires
            self.wf(),
        ensures
            self@.blocks.len() == 0 ==> r == Outcome::Stuck,
            self@.blocks.len() > 0 && args@.len() != self@.blocks[0 as int].params.len() ==> r
                == Outcome::Stuck,
            self@.blocks.len() > 0 && args@.len() == self@.blocks[0 as int].params.len()
                ==> outcome_view(r) == spec_interp(
                self@,
                EvalState {
                    vals: spec_entry_vals(self@, args@),
                    vars: Seq::new(self@.vars.len(), |i: int| 0u64),
                    cur: 0,
                    pc: 0,
                },
                fuel as nat,
            ),
    {
        if self.block_count() == 0 {
            return Outcome::Stuck;
        }
        let mut vals: Vec<u64> = Vec::new();
        let mut i: usize = 0;
        let nvals = self.val_count();
        while i < nvals
            invariant
                vals@.len() == i,
                i <= nvals,
                nvals == self@.vals.len(),
                forall|q: int| 0 <= q < i ==> vals@[q] == 0u64,
            decreases nvals - i,
        {
            vals.push(0);
            i = i + 1;
        }
        let mut vars: Vec<u64> = Vec::new();
        let mut j: usize = 0;
        let nvars = self.var_count();
        while j < nvars
            invariant
                vars@.len() == j,
                j <= nvars,
                nvars == self@.vars.len(),
                forall|q: int| 0 <= q < j ==> vars@[q] == 0u64,
            decreases nvars - j,
        {
            vars.push(0);
            j = j + 1;
        }
        proof {
            assert(vars@ =~= Seq::new(self@.vars.len(), |i: int| 0u64));
        }
        if args.len() != self.block_param_count(0) {
            return Outcome::Stuck;
        }
        let ghost base0 = self@.blocks[0 as int].param_base as int;
        let mut k: usize = 0;
        while k < args.len()
            invariant
                self.wf(),
                0 < self@.blocks.len(),
                args@.len() == self@.blocks[0 as int].params.len(),
                k <= args@.len(),
                vals@.len() == self@.vals.len(),
                base0 == self@.blocks[0 as int].param_base as int,
                forall|q: int|
                    0 <= q < vals@.len() ==> vals@[q] == (if base0 <= q < base0 + k {
                        spec_mask(args@[q - base0], self@.blocks[0 as int].params[q - base0])
                    } else {
                        0u64
                    }),
            decreases args@.len() - k,
        {
            let (base, ty) = self.block_param_at(0, k);
            vals[base] = mask(args[k], ty);
            k = k + 1;
        }
        proof {
            assert(vals@ =~= spec_entry_vals(self@, args@));
        }
        let ghost st0 = EvalState { vals: vals@, vars: vars@, cur: 0, pc: 0 };
        let mut cur: usize = 0;
        let mut pc: usize = 0;
        let mut left: usize = fuel;
        while left > 0
            invariant
                self.wf(),
                left <= fuel,
                0 < self@.blocks.len(),
                args@.len() == self@.blocks[0 as int].params.len(),
                vals@.len() == self@.vals.len(),
                vars@.len() == self@.vars.len(),
                st0 == (EvalState {
                    vals: spec_entry_vals(self@, args@),
                    vars: Seq::new(self@.vars.len(), |i: int| 0u64),
                    cur: 0,
                    pc: 0,
                }),
                spec_interp(self@, st0, fuel as nat) == spec_interp(
                    self@,
                    EvalState { vals: vals@, vars: vars@, cur, pc },
                    left as nat,
                ),
            decreases left,
        {
            let ghost pre_st = EvalState { vals: vals@, vars: vars@, cur, pc };
            let ghost lpre = left as nat;
            left = left - 1;
            if cur >= self.block_count() {
                proof {
                    assert(spec_interp(self@, pre_st, lpre) == OutcomeV::Stuck);
                }
                return Outcome::Stuck;
            }
            if pc >= self.block_inst_count(cur) {
                proof {
                    assert(spec_interp(self@, pre_st, lpre) == OutcomeV::Stuck);
                }
                return Outcome::Stuck;
            }
            match self.inst_at(cur, pc) {
                InstKind::Iconst { ty, imm, out } => {
                    if out >= vals.len() {
                        proof {
                            assert(spec_interp(self@, pre_st, lpre) == OutcomeV::Stuck);
                        }
                        return Outcome::Stuck;
                    }
                    #[verifier::truncate]
                    let w = imm as u64;
                    vals[out] = mask(w, ty);
                    pc = pc + 1;
                    proof {
                        assert(spec_interp(self@, pre_st, lpre) == spec_interp(
                            self@,
                            EvalState { vals: vals@, vars: vars@, cur, pc },
                            left as nat,
                        ));
                    }
                }
                InstKind::Binary { op, lhs, rhs, out } => {
                    if lhs >= vals.len() || rhs >= vals.len() || out >= vals.len()
                        || out >= self.val_count() {
                        proof {
                            assert(spec_interp(self@, pre_st, lpre) == OutcomeV::Stuck);
                        }
                        return Outcome::Stuck;
                    }
                    let t = self.val_ty(out);
                    let a = vals[lhs];
                    let b = vals[rhs];
                    let bits = t.bits() as u64;
                    let r = match op {
                        RawOp::Iadd => mask(a.wrapping_add(b), t),
                        RawOp::Isub => mask(a.wrapping_sub(b), t),
                        RawOp::Imul => mask(a.wrapping_mul(b), t),
                        RawOp::Udiv => {
                            if b == 0 {
                                proof {
                                    assert(spec_interp(self@, pre_st, lpre) == OutcomeV::Trapped);
                                }
                                return Outcome::Trapped;
                            }
                            a / b
                        }
                        RawOp::Urem => {
                            if b == 0 {
                                proof {
                                    assert(spec_interp(self@, pre_st, lpre) == OutcomeV::Trapped);
                                }
                                return Outcome::Trapped;
                            }
                            a % b
                        }
                        RawOp::Ishl => {
                            let sh = if bits >= 1 {
                                b % bits
                            } else {
                                0
                            };
                            mask(a << sh, t)
                        }
                        RawOp::Ushr => {
                            let sh = if bits >= 1 {
                                b % bits
                            } else {
                                0
                            };
                            a >> sh
                        }
                        RawOp::Band => a & b,
                        RawOp::Bor => a | b,
                        RawOp::Bxor => mask(a ^ b, t),
                        _ => {
                            proof {
                                assert(spec_interp(self@, pre_st, lpre) == OutcomeV::Stuck);
                            }
                            return Outcome::Stuck;
                        }
                    };
                    vals[out] = r;
                    pc = pc + 1;
                    proof {
                        assert(spec_interp(self@, pre_st, lpre) == spec_interp(
                            self@,
                            EvalState { vals: vals@, vars: vars@, cur, pc },
                            left as nat,
                        ));
                    }
                }
                InstKind::Cmp { op, signed, lhs, rhs, out } => {
                    if lhs >= vals.len() || rhs >= vals.len() || out >= vals.len()
                        || lhs >= self.val_count() {
                        proof {
                            assert(spec_interp(self@, pre_st, lpre) == OutcomeV::Stuck);
                        }
                        return Outcome::Stuck;
                    }
                    let t = self.val_ty(lhs);
                    let ka = cmp_key(vals[lhs], t, signed);
                    let kb = cmp_key(vals[rhs], t, signed);
                    let res = match op {
                        CmpOp::Eq => ka == kb,
                        CmpOp::Ne => ka != kb,
                        CmpOp::Lt => ka < kb,
                        CmpOp::Le => ka <= kb,
                        CmpOp::Gt => ka > kb,
                        CmpOp::Ge => ka >= kb,
                    };
                    vals[out] = if res {
                        1
                    } else {
                        0
                    };
                    pc = pc + 1;
                    proof {
                        assert(spec_interp(self@, pre_st, lpre) == spec_interp(
                            self@,
                            EvalState { vals: vals@, vars: vars@, cur, pc },
                            left as nat,
                        ));
                    }
                }
                InstKind::TrapIfOverflow { cond } => {
                    if cond >= vals.len() {
                        proof {
                            assert(spec_interp(self@, pre_st, lpre) == OutcomeV::Stuck);
                        }
                        return Outcome::Stuck;
                    }
                    if vals[cond] != 0 {
                        proof {
                            assert(spec_interp(self@, pre_st, lpre) == OutcomeV::Trapped);
                        }
                        return Outcome::Trapped;
                    }
                    pc = pc + 1;
                    proof {
                        assert(spec_interp(self@, pre_st, lpre) == spec_interp(
                            self@,
                            EvalState { vals: vals@, vars: vars@, cur, pc },
                            left as nat,
                        ));
                    }
                }
                InstKind::DefVar { var, val } => {
                    if var >= vars.len() || val >= vals.len() {
                        proof {
                            assert(spec_interp(self@, pre_st, lpre) == OutcomeV::Stuck);
                        }
                        return Outcome::Stuck;
                    }
                    vars[var] = vals[val];
                    pc = pc + 1;
                    proof {
                        assert(spec_interp(self@, pre_st, lpre) == spec_interp(
                            self@,
                            EvalState { vals: vals@, vars: vars@, cur, pc },
                            left as nat,
                        ));
                    }
                }
                InstKind::UseVar { var, out } => {
                    if var >= vars.len() || out >= vals.len() {
                        proof {
                            assert(spec_interp(self@, pre_st, lpre) == OutcomeV::Stuck);
                        }
                        return Outcome::Stuck;
                    }
                    vals[out] = vars[var];
                    pc = pc + 1;
                    proof {
                        assert(spec_interp(self@, pre_st, lpre) == spec_interp(
                            self@,
                            EvalState { vals: vals@, vars: vars@, cur, pc },
                            left as nat,
                        ));
                    }
                }
                InstKind::Jump { target, args: jargs } => {
                    if !self.pass_block_args(&mut vals, target, &jargs) {
                        proof {
                            assert(spec_interp(self@, pre_st, lpre) == OutcomeV::Stuck);
                        }
                        return Outcome::Stuck;
                    }
                    cur = target;
                    pc = 0;
                    proof {
                        assert(spec_interp(self@, pre_st, lpre) == spec_interp(
                            self@,
                            EvalState { vals: vals@, vars: vars@, cur, pc },
                            left as nat,
                        ));
                    }
                }
                InstKind::Brif { cond, target_nz, args_nz, target_z, args_z } => {
                    if cond >= vals.len() {
                        proof {
                            assert(spec_interp(self@, pre_st, lpre) == OutcomeV::Stuck);
                        }
                        return Outcome::Stuck;
                    }
                    if vals[cond] != 0 {
                        if !self.pass_block_args(&mut vals, target_nz, &args_nz) {
                            proof {
                                assert(spec_interp(self@, pre_st, lpre) == OutcomeV::Stuck);
                            }
                            return Outcome::Stuck;
                        }
                        cur = target_nz;
                    } else {
                        if !self.pass_block_args(&mut vals, target_z, &args_z) {
                            proof {
                                assert(spec_interp(self@, pre_st, lpre) == OutcomeV::Stuck);
                            }
                            return Outcome::Stuck;
                        }
                        cur = target_z;
                    }
                    pc = 0;
                    proof {
                        assert(spec_interp(self@, pre_st, lpre) == spec_interp(
                            self@,
                            EvalState { vals: vals@, vars: vars@, cur, pc },
                            left as nat,
                        ));
                    }
                }
                InstKind::Ret { args: rargs } => {
                    let mut out: Vec<u64> = Vec::new();
                    let mut m: usize = 0;
                    while m < rargs.len()
                        invariant
                            vals@.len() == self@.vals.len(),
                            m <= rargs@.len(),
                            out@.len() == m,
                            vals@ == pre_st.vals,
                            vars@ == pre_st.vars,
                            cur == pre_st.cur,
                            pc == pre_st.pc,
                            lpre > 0,
                            pre_st.cur < self@.blocks.len(),
                            pre_st.pc < self@.blocks[pre_st.cur as int].insts.len(),
                            self@.blocks[pre_st.cur as int].insts[pre_st.pc as int].kind
                                == (crate::model::InstViewKind::Ret { args: rargs@ }),
                            0 < self@.blocks.len(),
                            args@.len() == self@.blocks[0 as int].params.len(),
                            st0 == (EvalState {
                                vals: spec_entry_vals(self@, args@),
                                vars: Seq::new(self@.vars.len(), |i: int| 0u64),
                                cur: 0,
                                pc: 0,
                            }),
                            spec_interp(self@, st0, fuel as nat) == spec_interp(
                                self@,
                                pre_st,
                                lpre,
                            ),
                            forall|q: int| 0 <= q < m ==> #[trigger] rargs@[q] < vals@.len(),
                            forall|q: int|
                                0 <= q < m ==> #[trigger] out@[q] == vals@[rargs@[q] as int],
                        decreases rargs@.len() - m,
                    {
                        if rargs[m] >= vals.len() {
                            proof {
                                assert(0 <= m < rargs@.len() && rargs@[m as int]
                                    >= pre_st.vals.len());
                                assert(spec_interp(self@, pre_st, lpre) == OutcomeV::Stuck);
                            }
                            return Outcome::Stuck;
                        }
                        let ghost out_pre = out@;
                        out.push(vals[rargs[m]]);
                        proof {
                            assert forall|q: int|
                                0 <= q < m + 1 implies #[trigger] rargs@[q] < vals@.len() by {
                                if q == m {
                                    assert(rargs@[q] < vals@.len());
                                }
                            }
                            assert forall|q: int|
                                0 <= q < m + 1 implies #[trigger] out@[q] == vals@[
                                rargs@[q] as int
                            ] by {
                                if q < m {
                                    assert(out@[q] == out_pre[q]);
                                } else {
                                    assert(out@[q] == vals@[rargs@[q] as int]);
                                }
                            }
                        }
                        m = m + 1;
                    }
                    proof {
                        assert(out@ =~= Seq::new(rargs@.len(), |q: int| pre_st.vals[rargs@[q] as int]));
                        assert(spec_interp(self@, pre_st, lpre) == OutcomeV::Returned(out@));
                    }
                    return Outcome::Returned(out);
                }
                _ => {
                    proof {
                        assert(spec_interp(self@, pre_st, lpre) == OutcomeV::Stuck);
                    }
                    return Outcome::Stuck;
                }
            }
        }
        Outcome::OutOfFuel
    }

    /// Writes the jump arguments into the target block's parameter
    /// slots, masked to the parameter types, exactly as
    /// [`spec_pass_args`] describes; false — possibly after partial
    /// writes — when anything is out of range.
    fn pass_block_args(&self, vals: &mut Vec<u64>, target: usize, args: &Vec<usize>) -> (r: bool)
        requires
            self.wf(),
        ensures
            r == (spec_pass_args(self@, old(vals)@, target, args@) is Some),
            r ==> Option::Some(final(vals)@) == spec_pass_args(self@, old(vals)@, target, args@),
            final(vals)@.len() == old(vals)@.len(),
    {
        if target >= self.block_count() {
            return false;
        }
        if args.len() != self.block_param_count(target) {
            return false;
        }
        let mut j: usize = 0;
        let mut staged: Vec<u64> = Vec::new();
        while j < args.len()
            invariant
                *vals == *old(vals),
                staged@.len() == j,
                j <= args@.len(),
                forall|q: int| 0 <= q < j ==> #[trigger] args@[q] < vals@.len(),
                forall|q: int| 0 <= q < j ==> #[trigger] staged@[q] == vals@[args@[q] as int],
            decreases args@.len() - j,
        {
            if args[j] >= vals.len() {
                proof {
                    assert(0 <= j < args@.len() && args@[j as int] >= vals@.len());
                    assert(spec_pass_args(self@, old(vals)@, target, args@) is None);
                }
                return false;
            }
            let ghost staged_pre = staged@;
            staged.push(vals[args[j]]);
            proof {
                assert forall|q: int| 0 <= q < j + 1 implies #[trigger] args@[q] < vals@.len() by {
                    if q == j {
                        assert(args@[q] < vals@.len());
                    }
                }
                assert forall|q: int|
                    0 <= q < j + 1 implies #[trigger] staged@[q] == vals@[args@[q] as int] by {
                    if q < j {
                        assert(staged@[q] == staged_pre[q]);
                    } else {
                        assert(staged@[q] == vals@[args@[q] as int]);
                    }
                }
            }
            j = j + 1;
        }
        let ghost pre_vals = vals@;
        proof {
            assert forall|q: int| 0 <= q < staged@.len() implies #[trigger] args@[q]
                < pre_vals.len() by {
                assert(args@[q] < vals@.len());
            }
            assert forall|q: int|
                0 <= q < staged@.len() implies #[trigger] staged@[q] == pre_vals[
                args@[q] as int
            ] by {
                assert(staged@[q] == vals@[args@[q] as int]);
            }
        }
        let mut m: usize = 0;
        while m < staged.len()
            invariant
                self.wf(),
                target < self@.blocks.len(),
                staged@.len() == self@.blocks[target as int].params.len(),
                staged@.len() == args@.len(),
                forall|q: int| 0 <= q < staged@.len() ==> #[trigger] args@[q] < pre_vals.len(),
                forall|q: int|
                    0 <= q < staged@.len() ==> #[trigger] staged@[q] == pre_vals[args@[q] as int],
                m <= staged@.len(),
                pre_vals == old(vals)@,
                vals@.len() == pre_vals.len(),
                m > 0 ==> self@.blocks[target as int].param_base + m <= vals@.len(),
                forall|q: int|
                    0 <= q < vals@.len() ==> #[trigger] vals@[q] == (
                    if self@.blocks[target as int].param_base <= q
                        < self@.blocks[target as int].param_base + m {
                        spec_mask(
                            staged@[q - self@.blocks[target as int].param_base],
                            self@.blocks[target as int].params[q - self@.blocks[
                                target as int
                            ].param_base],
                        )
                    } else {
                        pre_vals[q]
                    }),
            decreases staged@.len() - m,
        {
            let (slot, ty) = self.block_param_at(target, m);
            if slot >= vals.len() {
                proof {
                    assert(self@.blocks[target as int].param_base + m >= vals@.len());
                    assert(args@.len() > 0 && self@.blocks[target as int].param_base + args@.len()
                        > pre_vals.len());
                    assert(spec_pass_args(self@, pre_vals, target, args@) is None);
                }
                return false;
            }
            let ghost vals_pre = vals@;
            let ghost base_g = self@.blocks[target as int].param_base as int;
            vals[slot] = mask(staged[m], ty);
            proof {
                assert(vals@ =~= vals_pre.update(slot as int, spec_mask(staged@[m as int], ty)));
                assert forall|q: int|
                    0 <= q < vals@.len() implies #[trigger] vals@[q] == (
                    if base_g <= q < base_g + (m + 1) {
                        spec_mask(
                            staged@[q - base_g],
                            self@.blocks[target as int].params[q - base_g],
                        )
                    } else {
                        pre_vals[q]
                    }) by {
                    if q == slot {
                        assert(vals@[q] == spec_mask(staged@[m as int], ty));
                    } else {
                        assert(vals@[q] == vals_pre[q]);
                    }
                }
            }
            m = m + 1;
        }
        proof {
            assert forall|q: int| 0 <= q < args@.len() implies !(args@[q] >= pre_vals.len()) by {
                assert(args@[q] < pre_vals.len());
            }
            assert(!(exists|q: int| 0 <= q < args@.len() && #[trigger] args@[q] >= pre_vals.len()));
            assert(args@.len() > 0 ==> self@.blocks[target as int].param_base + args@.len()
                <= pre_vals.len());
            assert(spec_pass_args(self@, pre_vals, target, args@) matches Option::Some(nv)
                && vals@ =~= nv);
        }
        true
    }

    /// Number of values the model holds.
    pub fn val_count(&self) -> (r: usize)
        ensures
            r == self@.vals.len(),
    {
        self.value_table_len()
    }
}

} // verus!
