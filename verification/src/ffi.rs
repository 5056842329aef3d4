//! Host-side argument marshaling for invoking compiled functions.
//!
//! A compiled function is called with host values laid out exactly as
//! its declared calling-convention slots: each argument contributes its
//! slots in declaration order, a composite contributing its members'
//! slots left to right.  The marshaling here flattens host argument
//! values into that ordered slot list as raw 64-bit words; performing
//! the actual foreign call with them is the embedder's task.

use vstd::prelude::*;

verus! {

/// The empty argument list: the base case of marshaling, contributing
/// no slots.
#[derive(Clone, Copy, Debug, PartialEq, Eq, Structural)]
pub struct Bottom;

/// A host value (or tuple of values) that can be marshaled onto a
/// compiled function's argument slots.
pub trait ToFFIParams {
    /// The slot words this value contributes, in order.
    spec fn spec_ffi_slots(&self) -> Seq<u64>;

    /// Appends this value's slot words to `out`, in order.
    fn to_ffi_params(&self, out: &mut Vec<u64>)
        ensures
            final(out)@ == old(out)@ + self.spec_ffi_slots(),
    ;
}

impl ToFFIParams for Bottom {
    open spec fn spec_ffi_slots(&self) -> Seq<u64> {
        Seq::empty()
    }

    fn to_ffi_params(&self, out: &mut Vec<u64>)
    {
        proof {
            assert(out@ =~= old(out)@ + self.spec_ffi_slots());
        }
    }
}

impl ToFFIParams for u64 {
    open spec fn spec_ffi_slots(&self) -> Seq<u64> {
        seq![*self]
    }

    fn to_ffi_params(&self, out: &mut Vec<u64>)
    {
        out.push(*self);
        proof {
            assert(out@ =~= old(out)@ + self.spec_ffi_slots());
        }
    }
}

impl ToFFIParams for u32 {
    open spec fn spec_ffi_slots(&self) -> Seq<u64> {
        seq![*self as u64]
    }

    fn to_ffi_params(&self, out: &mut Vec<u64>)
    {
        out.push(*self as u64);
        proof {
            assert(out@ =~= old(out)@ + self.spec_ffi_slots());
        }
    }
}

impl ToFFIParams for i32 {
    open spec fn spec_ffi_slots(&self) -> Seq<u64> {
        seq![*self as u64]
    }

    fn to_ffi_params(&self, out: &mut Vec<u64>)
    {
        #[verifier::truncate]
        let w = *self as u64;
        out.push(w);
        proof {
            assert(out@ =~= old(out)@ + self.spec_ffi_slots());
        }
    }
}

impl ToFFIParams for bool {
    open spec fn spec_ffi_slots(&self) -> Seq<u64> {
        seq![
            if *self {
                1u64
            } else {
                0u64
            },
        ]
    }

    fn to_ffi_params(&self, out: &mut Vec<u64>)
    {
        out.push(
            if *self {
                1u64
            } else {
                0u64
            },
        );
        proof {
            assert(out@ =~= old(out)@ + self.spec_ffi_slots());
        }
    }
}

impl<A: ToFFIParams, B: ToFFIParams> ToFFIParams for (A, B) {
    open spec fn spec_ffi_slots(&self) -> Seq<u64> {
        self.0.spec_ffi_slots() + self.1.spec_ffi_slots()
    }

    fn to_ffi_params(&self, out: &mut Vec<u64>)
    {
        self.0.to_ffi_params(out);
        self.1.to_ffi_params(out);
        proof {
            assert(out@ =~= old(out)@ + self.spec_ffi_slots());
        }
    }
}

impl<A: ToFFIParams, B: ToFFIParams, C: ToFFIParams> ToFFIParams for (A, B, C) {
    open spec fn spec_ffi_slots(&self) -> Seq<u64> {
        self.0.spec_ffi_slots() + self.1.spec_ffi_slots() + self.2.spec_ffi_slots()
    }

    fn to_ffi_params(&self, out: &mut Vec<u64>)
    {
        self.0.to_ffi_params(out);
        self.1.to_ffi_params(out);
        self.2.to_ffi_params(out);
        proof {
            assert(out@ =~= old(out)@ + self.spec_ffi_slots());
        }
    }
}

/// Marshaling concatenates members' slots in declaration order: the
/// slot list of a pair is the first member's slots followed by the
/// second's, so construction and reading walk the same order.
pub proof fn lemma_ffi_order<A: ToFFIParams, B: ToFFIParams>(a: A, b: B)
    ensures
        (a, b).spec_ffi_slots() == a.spec_ffi_slots() + b.spec_ffi_slots(),
{
}

} // verus!
