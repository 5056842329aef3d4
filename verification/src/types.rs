//! Logical types of values in generated code, and the derivation of their
//! calling-convention shapes.
//!
//! Every value manipulated by the code generator carries one of the closed
//! set of logical types below: an integer of a fixed machine width and
//! signedness, a boolean, or a pointer.  A function signature is described
//! by a list of [`AbiShape`]s; each shape occupies an ordered list of
//! parameter slots, derived here.  A slice occupies two slots, length first
//! and data pointer second, and composite parameter lists concatenate their
//! members' slots left to right.

use vstd::prelude::*;

verus! {

/// The logical type of a single value in generated code.
///
/// Booleans are carried in a byte; pointers are pointer width, which this
/// generator fixes at 64 bits.
#[derive(Clone, Copy, Debug, PartialEq, Eq, Structural)]
pub enum LogicalType {
    U8,
    U16,
    U32,
    U64,
    I8,
    I16,
    I32,
    I64,
    Bool,
    Ptr,
}

impl LogicalType {
    /// Machine width of the type, in bits.
    pub open spec fn spec_bits(self) -> u32 {
        match self {
            LogicalType::U8 => 8,
            LogicalType::U16 => 16,
            LogicalType::U32 => 32,
            LogicalType::U64 => 64,
            LogicalType::I8 => 8,
            LogicalType::I16 => 16,
            LogicalType::I32 => 32,
            LogicalType::I64 => 64,
            LogicalType::Bool => 8,
            LogicalType::Ptr => 64,
        }
    }

    /// Machine width of the type, in bits.
    #[verifier::when_used_as_spec(spec_bits)]
    pub fn bits(self) -> (r: u32)
        ensures
            r == self.spec_bits(),
    {
        match self {
            LogicalType::U8 => 8,
            LogicalType::U16 => 16,
            LogicalType::U32 => 32,
            LogicalType::U64 => 64,
            LogicalType::I8 => 8,
            LogicalType::I16 => 16,
            LogicalType::I32 => 32,
            LogicalType::I64 => 64,
            LogicalType::Bool => 8,
            LogicalType::Ptr => 64,
        }
    }

    /// Whether arithmetic on the type is signed (two's-complement, wrapping).
    pub open spec fn spec_signed(self) -> bool {
        match self {
            LogicalType::I8 => true,
            LogicalType::I16 => true,
            LogicalType::I32 => true,
            LogicalType::I64 => true,
            _ => false,
        }
    }

    /// Whether arithmetic on the type is signed (two's-complement, wrapping).
    #[verifier::when_used_as_spec(spec_signed)]
    pub fn signed(self) -> (r: bool)
        ensures
            r == self.spec_signed(),
    {
        match self {
            LogicalType::I8 => true,
            LogicalType::I16 => true,
            LogicalType::I32 => true,
            LogicalType::I64 => true,
            _ => false,
        }
    }

    /// Whether the type admits integer arithmetic.
    pub open spec fn spec_is_int(self) -> bool {
        !(self is Bool)
    }

    /// Whether the type admits integer arithmetic.
    #[verifier::when_used_as_spec(spec_is_int)]
    pub fn is_int(self) -> (r: bool)
        ensures
            r == self.spec_is_int(),
    {
        !matches!(self, LogicalType::Bool)
    }
}

/// The calling-convention shape of one logical parameter.
///
/// A scalar or a pointer occupies one slot; a slice occupies two, its
/// length first and its data pointer second.
#[derive(Clone, Copy, Debug, PartialEq, Eq, Structural)]
pub enum AbiShape {
    /// A single scalar of the given logical type.
    Scalar(LogicalType),
    /// A slice of elements of the given logical type: a length slot, then
    /// a data-pointer slot, in that order.
    Slice(LogicalType),
    /// An opaque pointer: one pointer-width slot.
    Pointer,
}

impl AbiShape {
    /// The ordered list of parameter slots this shape occupies.
    pub open spec fn spec_slots(self) -> Seq<LogicalType> {
        match self {
            AbiShape::Scalar(t) => seq![t],
            AbiShape::Slice(_) => seq![LogicalType::U64, LogicalType::Ptr],
            AbiShape::Pointer => seq![LogicalType::Ptr],
        }
    }

    /// Appends this shape's slots to `out`, in order.
    pub fn push_slots(self, out: &mut Vec<LogicalType>)
        ensures
            final(out)@ == old(out)@ + self.spec_slots(),
    {
        match self {
            AbiShape::Scalar(t) => {
                out.push(t);
            }
            AbiShape::Slice(_) => {
                out.push(LogicalType::U64);
                out.push(LogicalType::Ptr);
            }
            AbiShape::Pointer => {
                out.push(LogicalType::Ptr);
            }
        }
        assert(out@ =~= old(out)@ + self.spec_slots());
    }
}

/// The ordered slot list of a whole parameter list: members' slots
/// concatenated in declaration order.
pub open spec fn spec_slots_of(shapes: Seq<AbiShape>) -> Seq<LogicalType>
    decreases shapes.len(),
{
    if shapes.len() == 0 {
        Seq::empty()
    } else {
        shapes[0].spec_slots() + spec_slots_of(shapes.skip(1))
    }
}

/// Derives the flat, ordered slot list of a parameter list.
pub fn slots_of(shapes: &Vec<AbiShape>) -> (r: Vec<LogicalType>)
    ensures
        r@ == spec_slots_of(shapes@),
{
    let mut out: Vec<LogicalType> = Vec::new();
    let mut i: usize = 0;
    while i < shapes.len()
        invariant
            i <= shapes@.len(),
            out@ == spec_slots_of(shapes@.take(i as int)),
        decreases shapes@.len() - i,
    {
        proof {
            lemma_slots_of_take_step(shapes@, i as int);
        }
        shapes[i].push_slots(&mut out);
        i = i + 1;
    }
    proof {
        assert(shapes@.take(shapes@.len() as int) =~= shapes@);
    }
    out
}

/// Slot derivation distributes over appending one shape.
pub proof fn lemma_slots_of_take_step(shapes: Seq<AbiShape>, i: int)
    requires
        0 <= i < shapes.len(),
    ensures
        spec_slots_of(shapes.take(i + 1)) == spec_slots_of(shapes.take(i)) + shapes[i].spec_slots(),
    decreases i,
{
    if i == 0 {
        assert(shapes.take(1) =~= seq![shapes[0]]);
        assert(shapes.take(1).skip(1) =~= Seq::<AbiShape>::empty());
        assert(spec_slots_of(shapes.take(0)) =~= Seq::<LogicalType>::empty());
        assert(spec_slots_of(shapes.take(1)) == shapes.take(1)[0].spec_slots() + spec_slots_of(
            shapes.take(1).skip(1),
        ));
        assert(spec_slots_of(shapes.take(1)) =~= shapes[0].spec_slots());
    } else {
        lemma_slots_of_take_step(shapes.skip(1), i - 1);
        assert(shapes.take(i + 1).skip(1) =~= shapes.skip(1).take(i));
        assert(shapes.take(i).skip(1) =~= shapes.skip(1).take(i - 1));
        assert(shapes.take(i + 1)[0] == shapes[0]);
        assert(shapes.take(i)[0] == shapes[0]);
        assert(shapes.skip(1)[i - 1] == shapes[i]);
        assert(spec_slots_of(shapes.take(i + 1)) == shapes[0].spec_slots() + spec_slots_of(
            shapes.skip(1).take(i),
        ));
        assert(spec_slots_of(shapes.take(i)) == shapes[0].spec_slots() + spec_slots_of(
            shapes.skip(1).take(i - 1),
        ));
        assert(shapes[0].spec_slots() + (spec_slots_of(shapes.skip(1).take(i - 1)) + shapes[i].spec_slots())
            =~= (shapes[0].spec_slots() + spec_slots_of(shapes.skip(1).take(i - 1))) + shapes[i].spec_slots());
    }
}

/// Concatenating two parameter lists concatenates their slot lists, in
/// order: the shape derivation is symmetric between construction and
/// reading as long as both sides walk the same list.
pub proof fn lemma_slots_concat(a: Seq<AbiShape>, b: Seq<AbiShape>)
    ensures
        spec_slots_of(a + b) == spec_slots_of(a) + spec_slots_of(b),
    decreases a.len(),
{
    if a.len() == 0 {
        assert(a + b =~= b);
        assert(spec_slots_of(a) =~= Seq::<LogicalType>::empty());
        assert(spec_slots_of(a) + spec_slots_of(b) =~= spec_slots_of(b));
    } else {
        lemma_slots_concat(a.skip(1), b);
        assert((a + b).skip(1) =~= a.skip(1) + b);
        assert((a + b)[0] == a[0]);
        assert(a[0].spec_slots() + (spec_slots_of(a.skip(1)) + spec_slots_of(b)) =~= (a[0].spec_slots()
            + spec_slots_of(a.skip(1))) + spec_slots_of(b));
    }
}

/// Where shape `i`'s slots sit inside the flat slot list of the whole
/// parameter list: immediately after the slots of the shapes before it,
/// and wholly inside the list.
pub proof fn lemma_slots_take_bounds(shapes: Seq<AbiShape>, i: int)
    requires
        0 <= i < shapes.len(),
    ensures
        spec_slots_of(shapes.take(i + 1)) == spec_slots_of(shapes.take(i)) + shapes[i].spec_slots(),
        spec_slots_of(shapes.take(i)).len() + shapes[i].spec_slots().len() <= spec_slots_of(
            shapes,
        ).len(),
        forall|j: int|
            0 <= j < shapes[i].spec_slots().len() ==> spec_slots_of(shapes)[spec_slots_of(
                shapes.take(i),
            ).len() + j] == #[trigger] shapes[i].spec_slots()[j],
{
    lemma_slots_of_take_step(shapes, i);
    assert(shapes.take(i + 1) + shapes.skip(i + 1) =~= shapes);
    lemma_slots_concat(shapes.take(i + 1), shapes.skip(i + 1));
    let a = spec_slots_of(shapes.take(i));
    let b = shapes[i].spec_slots();
    let c = spec_slots_of(shapes.skip(i + 1));
    assert(spec_slots_of(shapes) == (a + b) + c);
    assert forall|j: int| 0 <= j < b.len() implies spec_slots_of(shapes)[a.len() + j]
        == #[trigger] b[j] by {
        assert(((a + b) + c)[a.len() + j] == (a + b)[a.len() + j]);
        assert((a + b)[a.len() + j] == b[j]);
    }
}

/// A comparison condition between two integer values of one logical type.
/// Whether the ordered comparisons are signed follows the logical type of
/// the operands.
#[derive(Clone, Copy, Debug, PartialEq, Eq, Structural)]
pub enum CmpOp {
    Eq,
    Ne,
    Lt,
    Le,
    Gt,
    Ge,
}

/// A binary arithmetic or bitwise operation on two values of one integer
/// logical type.  Unsigned addition and subtraction trap on overflow;
/// signed addition and subtraction wrap; division, remainder and right
/// shift dispatch on the signedness of the logical type.
#[derive(Clone, Copy, Debug, PartialEq, Eq, Structural)]
pub enum BinOp {
    Add,
    Sub,
    Mul,
    Div,
    Rem,
    Shl,
    Shr,
    BitAnd,
    BitOr,
    BitXor,
}

} // verus!
