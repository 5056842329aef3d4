//! Declared layouts for structured host objects accessed from
//! generated code.
//!
//! A [`StructLayout`] assigns each field a constant byte offset
//! computed from the declared field order: every field is aligned to
//! its own size, fields do not overlap, and the whole object's size
//! covers them all.  A [`Struct`] pairs such a layout with a pointer
//! value; each field is then a typed reference at `base + offset`.

use vstd::prelude::*;

use crate::model::{FnView, Val};
use crate::slice::Ref;
use crate::types::LogicalType;

verus! {

/// One field of a declared layout.
#[derive(Clone, Copy, Debug, PartialEq, Eq, Structural)]
pub struct StructField {
    /// Byte offset of the field from the object's base.
    pub offset: u32,
    /// The field's logical type.
    pub ty: LogicalType,
}

/// A declared object layout: fields at computed offsets, and the
/// object's total size.
pub struct StructLayout {
    /// The fields, in declaration order.
    pub fields: Vec<StructField>,
    /// The object's size in bytes.
    pub size: u32,
}

/// The byte size of a logical type.
pub open spec fn spec_byte_size(t: LogicalType) -> u32 {
    t.spec_bits() / 8
}

impl StructLayout {
    /// Every field is aligned to its own size, consecutive fields do
    /// not overlap, and the size covers the last field.
    pub open spec fn wf(self) -> bool {
        &&& forall|i: int|
            0 <= i < self.fields@.len() ==> (#[trigger] self.fields@[i]).offset as int % (
            spec_byte_size(self.fields@[i].ty) as int) == 0
        &&& forall|i: int|
            0 <= i && i + 1 < self.fields@.len() ==> (#[trigger] self.fields@[i]).offset
                + spec_byte_size(self.fields@[i].ty) <= self.fields@[i + 1].offset
        &&& self.fields@.len() > 0 ==> self.fields@.last().offset + spec_byte_size(
            self.fields@.last().ty,
        ) <= self.size
    }

    /// Computes the layout of an object with the given field types, in
    /// declaration order: each field is placed at the next offset
    /// aligned to its size.  The field count is bounded only by what
    /// 32-bit offsets can address: each field advances the offset by at
    /// most sixteen bytes.
    #[verifier::rlimit(60)]
    pub fn layout_of(tys: &Vec<LogicalType>) -> (r: StructLayout)
        requires
            tys@.len() <= 0x0fff_ffff,
        ensures
            r.wf(),
            r.fields@.len() == tys@.len(),
            forall|i: int| 0 <= i < tys@.len() ==> (#[trigger] r.fields@[i]).ty == tys@[i],
    {
        let mut fields: Vec<StructField> = Vec::new();
        let mut off: u32 = 0;
        let mut i: usize = 0;
        while i < tys.len()
            invariant
                tys@.len() <= 0x0fff_ffff,
                i <= tys@.len(),
                fields@.len() == i,
                off <= 16 * i,
                forall|j: int| 0 <= j < i ==> (#[trigger] fields@[j]).ty == tys@[j],
                forall|j: int|
                    0 <= j < i ==> (#[trigger] fields@[j]).offset as int % (spec_byte_size(
                        fields@[j].ty,
                    ) as int) == 0,
                forall|j: int|
                    0 <= j && j + 1 < i ==> (#[trigger] fields@[j]).offset + spec_byte_size(
                        fields@[j].ty,
                    ) <= fields@[j + 1].offset,
                i > 0 ==> fields@.last().offset + spec_byte_size(fields@.last().ty) <= off,
            decreases tys@.len() - i,
        {
            let sz = tys[i].bits() / 8;
            proof {
                assert(1 <= sz && sz <= 8);
            }
            let rem = off % sz;
            let aligned = if rem == 0 {
                off
            } else {
                off + (sz - rem)
            };
            proof {
                if rem != 0 {
                    assert(aligned as int % sz as int == 0) by (nonlinear_arith)
                        requires
                            1 <= sz as int,
                            rem as int == off as int % sz as int,
                            rem != 0,
                            aligned as int == off as int + sz as int - rem as int,
                    ;
                }
                assert(aligned <= off + 7);
            }
            let ghost pre_fields = fields@;
            fields.push(StructField { offset: aligned, ty: tys[i] });
            proof {
                assert(pre_fields.len() == i);
                assert(fields@ == pre_fields.push(StructField { offset: aligned, ty: tys@[i as int] }));
                assert forall|j: int|
                    0 <= j && j + 1 < i + 1 implies (#[trigger] fields@[j]).offset + spec_byte_size(
                    fields@[j].ty,
                ) <= fields@[j + 1].offset by {
                    if j + 1 < i {
                        assert(fields@[j] == pre_fields[j]);
                        assert(fields@[j + 1] == pre_fields[j + 1]);
                    } else {
                        assert(fields@[j] == pre_fields[j]);
                        assert(pre_fields[j] == pre_fields.last());
                        assert(fields@[j + 1].offset == aligned);
                    }
                }
            }
            off = aligned + sz;
            i = i + 1;
        }
        StructLayout { fields, size: off }
    }

    /// Number of declared fields.
    pub fn field_count(&self) -> (r: usize)
        ensures
            r == self.fields@.len(),
    {
        self.fields.len()
    }
}

/// A structured object in generated code: a base pointer and the
/// declared layout of what it points to.
pub struct Struct {
    /// The base pointer.
    pub ptr: Val,
    /// The declared layout.
    pub layout: StructLayout,
}

impl Struct {
    /// The object's pointer is a valid pointer value.
    pub open spec fn wf_in(self, v: FnView) -> bool {
        v.val_ok(self.ptr) && self.ptr.ty == LogicalType::Ptr
    }

    /// A typed reference to field `i`, at the field's declared offset
    /// from the object's base.
    pub fn field_ref(&self, i: usize) -> (r: Ref)
        requires
            i < self.layout.fields@.len(),
            self.ptr.ty == LogicalType::Ptr,
            self.layout.fields@[i as int].offset <= i32::MAX,
        ensures
            r.addr == self.ptr,
            r.offset == self.layout.fields@[i as int].offset,
            r.ty == self.layout.fields@[i as int].ty,
    {
        Ref {
            addr: self.ptr,
            offset: self.layout.fields[i].offset as i32,
            ty: self.layout.fields[i].ty,
        }
    }
}

} // verus!
