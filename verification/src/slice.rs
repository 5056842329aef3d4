//! Typed memory access for generated code: references with constant
//! byte offsets, slices, and stack-allocated objects built and torn
//! down through host calls.
//!
//! A [`Ref`] pairs a pointer value with a constant byte offset; reading
//! compiles to a load at `base + offset`, and a [`RefMut`] additionally
//! stores.  A [`Slice`] carries its data pointer and length; indexing
//! computes `base + index * element_size` and is unchecked by design —
//! no bounds test is inserted silently, and the generated code's
//! contract with the memory behind the pointer is the embedder's.
//! A [`Proxy`] is a stack slot whose contents a host constructor
//! initializes through the function-call bridge, and whose teardown is
//! an explicit host destructor call: the lifetime of such an object is
//! tied to those two calls, not to any implicit ownership tracking in
//! the generated code.

use vstd::prelude::*;

use crate::func::{FnCtx, HostFunc};
use crate::model::{extends_cur_only, FnView, InstView, InstViewKind, Val};
use crate::types::LogicalType;

verus! {

/// Marker for host types whose by-value representation may cross into
/// generated code as a single machine scalar.
pub trait JitSafe {

}

impl JitSafe for u8 {

}

impl JitSafe for u16 {

}

impl JitSafe for u32 {

}

impl JitSafe for u64 {

}

impl JitSafe for i8 {

}

impl JitSafe for i16 {

}

impl JitSafe for i32 {

}

impl JitSafe for i64 {

}

impl JitSafe for bool {

}

/// A read-only location: a pointer value plus a constant byte offset,
/// holding a value of the given logical type.
#[derive(Clone, Copy, Debug, PartialEq, Eq, Structural)]
pub struct Ref {
    /// The base pointer.
    pub addr: Val,
    /// The constant byte offset from the base.
    pub offset: i32,
    /// The logical type stored at the location.
    pub ty: LogicalType,
}

impl Ref {
    /// The reference's pointer is a valid pointer value.
    pub open spec fn wf_in(self, v: FnView) -> bool {
        v.val_ok(self.addr) && self.addr.ty == LogicalType::Ptr
    }

    /// A reference at the given pointer and offset.
    pub fn new(addr: Val, offset: i32, ty: LogicalType) -> (r: Ref)
        requires
            addr.ty == LogicalType::Ptr,
        ensures
            r == (Ref { addr, offset, ty }),
    {
        Ref { addr, offset, ty }
    }

    /// Emits the load of the referenced location.
    pub fn get(&self, fx: &mut FnCtx) -> (r: Val)
        requires
            old(fx).wf(),
            old(fx)@.cursor_open(),
            self.wf_in(old(fx)@),
        ensures
            final(fx).wf(),
            final(fx)@.cursor_open(),
            final(fx)@ == old(fx)@.with_inst(
                InstView {
                    kind: InstViewKind::Load {
                        ty: self.ty,
                        addr: self.addr.id,
                        offset: self.offset,
                        out: old(fx)@.vals.len() as usize,
                    },
                },
            ).with_val(self.ty),
            r == (Val { id: old(fx)@.vals.len() as usize, ty: self.ty }),
            final(fx)@.val_ok(r),
            extends_cur_only(old(fx)@, final(fx)@),
    {
        let r = fx.load(self.ty, self.addr, self.offset);
        proof {
            let k = InstView {
                kind: InstViewKind::Load {
                    ty: self.ty,
                    addr: self.addr.id,
                    offset: self.offset,
                    out: old(fx)@.vals.len() as usize,
                },
            };
            crate::func::lemma_extends_with_inst(old(fx)@, k);
            crate::func::lemma_extends_with_val(old(fx)@.with_inst(k), self.ty);
            crate::model::lemma_extends_cur_only_trans(old(fx)@, old(fx)@.with_inst(k), fx@);
        }
        r
    }
}

/// A mutable location: a [`Ref`] that can also be stored to.
#[derive(Clone, Copy, Debug, PartialEq, Eq, Structural)]
pub struct RefMut {
    /// The location.
    pub target: Ref,
}

impl RefMut {
    /// A mutable reference at the given pointer and offset.
    pub fn new(addr: Val, offset: i32, ty: LogicalType) -> (r: RefMut)
        requires
            addr.ty == LogicalType::Ptr,
        ensures
            r.target == (Ref { addr, offset, ty }),
    {
        RefMut { target: Ref { addr, offset, ty } }
    }

    /// Emits the load of the referenced location.
    pub fn get(&self, fx: &mut FnCtx) -> (r: Val)
        requires
            old(fx).wf(),
            old(fx)@.cursor_open(),
            self.target.wf_in(old(fx)@),
        ensures
            final(fx).wf(),
            final(fx)@.cursor_open(),
            final(fx)@ == old(fx)@.with_inst(
                InstView {
                    kind: InstViewKind::Load {
                        ty: self.target.ty,
                        addr: self.target.addr.id,
                        offset: self.target.offset,
                        out: old(fx)@.vals.len() as usize,
                    },
                },
            ).with_val(self.target.ty),
            r == (Val { id: old(fx)@.vals.len() as usize, ty: self.target.ty }),
            final(fx)@.val_ok(r),
    {
        self.target.get(fx)
    }

    /// Emits the store of `v` into the referenced location.
    pub fn put(&self, fx: &mut FnCtx, v: Val)
        requires
            old(fx).wf(),
            old(fx)@.cursor_open(),
            self.target.wf_in(old(fx)@),
            old(fx)@.val_ok(v),
            v.ty == self.target.ty,
        ensures
            final(fx).wf(),
            final(fx)@.cursor_open(),
            final(fx)@ == old(fx)@.with_inst(
                InstView {
                    kind: InstViewKind::Store {
                        val: v.id,
                        addr: self.target.addr.id,
                        offset: self.target.offset,
                    },
                },
            ),
    {
        fx.store(v, self.target.addr, self.target.offset)
    }
}

/// A slice in generated code: a data pointer, a length, and the
/// element's logical type.  The two values arrive in the slice's two
/// calling-convention slots, length first.
#[derive(Clone, Copy, Debug, PartialEq, Eq, Structural)]
pub struct Slice {
    /// The data pointer.
    pub base: Val,
    /// The element count.
    pub len: Val,
    /// The element type.
    pub elem: LogicalType,
}

/// The model transition and result of indexing a slice: the element
/// size as a constant, the index scaled by it, and the scaled offset
/// added to the data pointer; the reference addresses that sum with a
/// zero byte offset.
pub open spec fn spec_slice_get(v: FnView, s: Slice, idx: Val) -> (FnView, Ref) {
    let size = (s.elem.spec_bits() / 8) as i64;
    let sz = Val { id: v.vals.len() as usize, ty: LogicalType::U64 };
    let v1 = v.with_inst(
        InstView {
            kind: InstViewKind::Iconst { ty: LogicalType::U64, imm: size, out: sz.id },
        },
    ).with_val(LogicalType::U64);
    let v2 = crate::func::spec_binop_ctx(v1, crate::types::BinOp::Mul, idx, sz);
    let off = crate::func::spec_binop_val(v1, crate::types::BinOp::Mul, idx, sz);
    let sum = Val { id: v2.vals.len() as usize, ty: LogicalType::Ptr };
    let v3 = v2.with_inst(
        InstView {
            kind: InstViewKind::Binary {
                op: crate::model::RawOp::Iadd,
                lhs: s.base.id,
                rhs: off.id,
                out: sum.id,
            },
        },
    ).with_val(LogicalType::Ptr);
    (v3, Ref { addr: sum, offset: 0, ty: s.elem })
}

impl Slice {
    /// The slice's values are valid and carry the slot types.
    pub open spec fn wf_in(self, v: FnView) -> bool {
        &&& v.val_ok(self.base)
        &&& self.base.ty == LogicalType::Ptr
        &&& v.val_ok(self.len)
        &&& self.len.ty == LogicalType::U64
    }

    /// A slice from its length and data-pointer slot values, in that
    /// order, as a slice-shaped parameter delivers them.
    pub fn new(len: Val, base: Val, elem: LogicalType) -> (r: Slice)
        requires
            base.ty == LogicalType::Ptr,
            len.ty == LogicalType::U64,
        ensures
            r == (Slice { base, len, elem }),
    {
        Slice { base, len, elem }
    }

    /// The slice's length value.
    pub fn len(&self) -> (r: Val)
        ensures
            r == self.len,
    {
        self.len
    }

    /// Emits the address computation for element `idx` and yields a
    /// reference to it: `base + idx * element_size`.  No bounds test is
    /// emitted; indexing past the length is the caller's defect, by the
    /// layer's documented contract.
    pub fn get(&self, fx: &mut FnCtx, idx: Val) -> (r: Ref)
        requires
            old(fx).wf(),
            old(fx)@.cursor_open(),
            self.wf_in(old(fx)@),
            old(fx)@.val_ok(idx),
            idx.ty == LogicalType::U64,
        ensures
            final(fx).wf(),
            final(fx)@.cursor_open(),
            r.wf_in(final(fx)@),
            r.ty == self.elem,
            r.offset == 0,
            extends_cur_only(old(fx)@, final(fx)@),
            (final(fx)@, r) == spec_slice_get(old(fx)@, *self, idx),
    {
        let size = self.elem.bits() / 8;
        let sz = fx.iconst(LogicalType::U64, size as i64);
        proof {
            let k = InstView {
                kind: InstViewKind::Iconst {
                    ty: LogicalType::U64,
                    imm: size as i64,
                    out: old(fx)@.vals.len() as usize,
                },
            };
            crate::func::lemma_extends_with_inst(old(fx)@, k);
            crate::func::lemma_extends_with_val(old(fx)@.with_inst(k), LogicalType::U64);
            crate::model::lemma_extends_cur_only_trans(old(fx)@, old(fx)@.with_inst(k), fx@);
            assert(fx@.vals[self.base.id as int] == old(fx)@.vals[self.base.id as int]);
            assert(fx@.vals[idx.id as int] == old(fx)@.vals[idx.id as int]);
        }
        let ghost mid = fx@;
        let off = fx.binop(crate::types::BinOp::Mul, idx, sz);
        proof {
            crate::func::lemma_binop_extends(mid, crate::types::BinOp::Mul, idx, sz);
            crate::model::lemma_extends_cur_only_trans(old(fx)@, mid, fx@);
            assert(fx@.vals[self.base.id as int] == mid.vals[self.base.id as int]);
        }
        let ghost mid2 = fx@;
        let addr = fx.ptr_add(self.base, off);
        proof {
            let k2 = InstView {
                kind: InstViewKind::Binary {
                    op: crate::model::RawOp::Iadd,
                    lhs: self.base.id,
                    rhs: off.id,
                    out: mid2.vals.len() as usize,
                },
            };
            crate::func::lemma_extends_with_inst(mid2, k2);
            crate::func::lemma_extends_with_val(mid2.with_inst(k2), LogicalType::Ptr);
            crate::model::lemma_extends_cur_only_trans(mid2, mid2.with_inst(k2), fx@);
            crate::model::lemma_extends_cur_only_trans(old(fx)@, mid2, fx@);
        }
        Ref { addr, offset: 0, ty: self.elem }
    }
}

/// A stack-allocated object of the generated function: an explicit
/// slot whose contents a host constructor initializes, read and
/// written through typed references, and torn down by an explicit host
/// destructor call.
pub struct Proxy {
    /// The pointer to the object's storage.
    pub ptr: Val,
}

impl Proxy {
    /// Allocates an explicit stack slot of the given size and
    /// alignment and initializes it by calling the host constructor
    /// with the slot's address as its only argument — the call is
    /// emitted before anything can read the slot.  The constructor
    /// must be registered with the one-pointer, no-return signature.
    pub fn ctor(fx: &mut FnCtx, size: u32, align_log2: u8, ctor: &HostFunc) -> (r: Proxy)
        requires
            old(fx).wf(),
            old(fx)@.cursor_open(),
            ctor.param_tys() == seq![LogicalType::Ptr],
            ctor.ret_ty() is None,
        ensures
            final(fx).wf(),
            final(fx)@.cursor_open(),
            r.ptr == (Val { id: old(fx)@.vals.len() as usize, ty: LogicalType::Ptr }),
            final(fx)@ == crate::func::spec_call_ctx(
                old(fx)@.with_slot().with_inst(
                    InstView {
                        kind: InstViewKind::StackAddr {
                            slot: old(fx)@.slots as usize,
                            out: old(fx)@.vals.len() as usize,
                        },
                    },
                ).with_val(LogicalType::Ptr),
                ctor.spec_addr(),
                seq![Val { id: old(fx)@.vals.len() as usize, ty: LogicalType::Ptr }],
                Option::None,
            ),
            final(fx)@.val_ok(r.ptr),
    {
        let addr = fx.stack_slot_addr(size, align_log2);
        let mut args: Vec<Val> = Vec::new();
        args.push(addr);
        proof {
            assert(FnView::tys_of(args@) =~= seq![LogicalType::Ptr]);
        }
        let ghost mid = fx@;
        ctor.call(fx, &args);
        proof {
            assert(fx@.vals[addr.id as int] == mid.vals[addr.id as int]);
            assert(args@ =~= seq![addr]);
        }
        Proxy { ptr: addr }
    }

    /// A read-only reference to the object's storage at a constant
    /// byte offset.
    pub fn get_ref(&self, offset: i32, ty: LogicalType) -> (r: Ref)
        requires
            self.ptr.ty == LogicalType::Ptr,
        ensures
            r == (Ref { addr: self.ptr, offset, ty }),
    {
        Ref { addr: self.ptr, offset, ty }
    }

    /// A mutable reference to the object's storage at a constant byte
    /// offset.
    pub fn get_mut(&self, offset: i32, ty: LogicalType) -> (r: RefMut)
        requires
            self.ptr.ty == LogicalType::Ptr,
        ensures
            r.target == (Ref { addr: self.ptr, offset, ty }),
    {
        RefMut { target: Ref { addr: self.ptr, offset, ty } }
    }

    /// Tears the object down by calling the host destructor with the
    /// object's address as its only argument: the lifetime of the
    /// object is closed by exactly this emitted call, never implicitly.
    /// The destructor must be registered with the one-pointer,
    /// no-return signature.
    pub fn destroy(self, fx: &mut FnCtx, dtor: &HostFunc)
        requires
            old(fx).wf(),
            old(fx)@.cursor_open(),
            old(fx)@.val_ok(self.ptr),
            self.ptr.ty == LogicalType::Ptr,
            dtor.param_tys() == seq![LogicalType::Ptr],
            dtor.ret_ty() is None,
        ensures
            final(fx).wf(),
            final(fx)@.cursor_open(),
            final(fx)@ == crate::func::spec_call_ctx(
                old(fx)@,
                dtor.spec_addr(),
                seq![self.ptr],
                Option::None,
            ),
    {
        let mut args: Vec<Val> = Vec::new();
        args.push(self.ptr);
        proof {
            assert(FnView::tys_of(args@) =~= seq![LogicalType::Ptr]);
        }
        dtor.call(fx, &args);
        proof {
            assert(args@ =~= seq![self.ptr]);
        }
    }
}

} // verus!
