//! The build-time control-flow signal algebra.
//!
//! While a branch or loop body is being evaluated during construction, it
//! yields one of the signals below describing what code the enclosing
//! builder must emit next.  The signal exists only at build time; it has
//! no representation in the generated code.
//!
//! A builder layer that observes [`ControlFlow::Ret`] or
//! [`ControlFlow::Preempt`] from a nested evaluation must not emit its own
//! structural merge or back-edge jump for that path; it emits `Preempt` in
//! turn, deferring control to the function-level return emission.

use vstd::prelude::*;

verus! {

/// The signal produced while evaluating a conditional or loop body at
/// build time.
#[derive(Clone, Copy, Debug, PartialEq, Eq, Structural)]
pub enum ControlFlow<B, R> {
    /// Normal fall-through carrying the path's value.
    Break(B),
    /// An early function return originating inside the branch, carrying
    /// the value to return.
    Ret(R),
    /// Reserved: a skip to the next loop iteration from inside a nested
    /// branch.  Branch evaluation never produces it.
    Continue,
    /// The path already emitted a terminating instruction, so the
    /// enclosing builder must not emit a merge jump for it.
    Preempt,
}

impl<B, R> ControlFlow<B, R> {
    /// Whether the enclosing builder owes this path a structural jump to
    /// its merge point.
    pub open spec fn spec_needs_merge_jump(self) -> bool {
        self is Break
    }

    /// Whether the enclosing builder owes this path a structural jump to
    /// its merge point.
    pub fn needs_merge_jump(&self) -> (r: bool)
        ensures
            r == self.spec_needs_merge_jump(),
    {
        matches!(self, ControlFlow::Break(_))
    }
}

/// The signal an enclosing builder must itself yield, given the signals of
/// a conditional's two paths: fall-through wins if either path falls
/// through, and only when both paths preempted does the conditional as a
/// whole preempt.
pub open spec fn spec_joined_signal<R>(
    then_preempted: bool,
    else_preempted: bool,
    merged: Seq<crate::model::Val>,
) -> ControlFlow<Seq<crate::model::Val>, R> {
    if then_preempted && else_preempted {
        ControlFlow::Preempt
    } else {
        ControlFlow::Break(merged)
    }
}

/// The specification view of a signal carrying a value list: the list
/// abstracted to its sequence.
pub open spec fn flow_view<R>(f: ControlFlow<Vec<crate::model::Val>, R>) -> ControlFlow<
    Seq<crate::model::Val>,
    R,
> {
    match f {
        ControlFlow::Break(v) => ControlFlow::Break(v@),
        ControlFlow::Ret(r) => ControlFlow::Ret(r),
        ControlFlow::Continue => ControlFlow::Continue,
        ControlFlow::Preempt => ControlFlow::Preempt,
    }
}

/// Return-signal propagation through one builder layer, stated of the
/// signal alone: a path that returned early (`Ret`) or was otherwise
/// preempted never receives a merge jump, and a conditional both of
/// whose paths were preempted preempts its enclosing builder in turn,
/// whatever value a fall-through would have carried.
pub proof fn lemma_preempt_propagates<R>(r: R, merged: Seq<crate::model::Val>)
    ensures
        !ControlFlow::<Seq<crate::model::Val>, R>::Ret(r).spec_needs_merge_jump(),
        !ControlFlow::<Seq<crate::model::Val>, R>::Preempt.spec_needs_merge_jump(),
        spec_joined_signal::<R>(true, true, merged) is Preempt,
        !spec_joined_signal::<R>(true, true, merged).spec_needs_merge_jump(),
{
}

} // verus!
