use crate::family::{Shape, TypeKey};
use crate::marshal::{
    lemma_read_back,
    read_slots,
    read_slots_spec,
    reads_of,
    MarshalError,
    SlotRead,
};
use crate::scalar::{
    absolute, all_fit, fits, negated, scalar_ok, scalar_op, zip_ok, zip_op, ElementKind, Op, Scalar,
    SignedScalar,
};
use vstd::prelude::*;

verus! {

/// A vector of 4 components, stored in the order `x`, `y`, `z`, `w`.
#[derive(Clone, Copy, Debug, Default, PartialEq, Eq, Hash)]
pub struct Vec4<T> {
    pub x: T,
    pub y: T,
    pub z: T,
    pub w: T,
}

/// The unsigned 4-component vector.
pub type UVec4 = Vec4<u32>;

/// The signed 4-component vector.
pub type IVec4 = Vec4<i32>;

impl<T: Scalar> View for Vec4<T> {
    type V = Seq<int>;

    open spec fn view(&self) -> Seq<int> {
        seq![self.x.val(), self.y.val(), self.z.val(), self.w.val()]
    }
}

impl<T> Vec4<T> {
    /// The components in storage order.
    pub open spec fn fields(&self) -> Seq<T> {
        seq![self.x, self.y, self.z, self.w]
    }

    /// The vector whose components are the first 4 items of `s`.
    pub open spec fn from_fields(s: Seq<T>) -> Self {
        Vec4 { x: s[0], y: s[1], z: s[2], w: s[3] }
    }

    /// What importing the slot reads `reads` as a vector of kind `kind` gives.
    pub open spec fn import_spec(reads: Seq<SlotRead<T>>, kind: ElementKind) -> Result<
        Self,
        MarshalError,
    > {
        match read_slots_spec(reads, TypeKey { kind, shape: Shape::Vec4 }, 4) {
            Ok(vals) => Ok(Self::from_fields(vals)),
            Err(e) => Err(e),
        }
    }

    /// A vector from its components.
    pub fn new(x: T, y: T, z: T, w: T) -> (r: Self)
        ensures
            r == (Vec4 { x, y, z, w }),
    {
        Vec4 { x, y, z, w }
    }

    /// Exporting a vector and importing the table back gives the same vector.
    pub proof fn lemma_round_trip(v: Self, kind: ElementKind)
        ensures
            Self::import_spec(reads_of(v.fields()), kind) == Ok::<Self, MarshalError>(v),
    {
        lemma_read_back(v.fields(), TypeKey { kind, shape: Shape::Vec4 }, 4);
        assert(v.fields().take(4) =~= v.fields());
    }
}

impl<T: Copy> Vec4<T> {
    /// Every component set to `v`.
    pub fn splat(v: T) -> (r: Self)
        ensures
            r == (Vec4 { x: v, y: v, z: v, w: v }),
    {
        Vec4 { x: v, y: v, z: v, w: v }
    }

    /// The components as a tuple, in storage order.
    pub fn unpack(&self) -> (r: (T, T, T, T))
        ensures
            r == (self.x, self.y, self.z, self.w),
    {
        (self.x, self.y, self.z, self.w)
    }

    /// The slot values of the scripting table for this vector, in order:
    /// component `i` (from zero) goes to table index `i + 1`.
    pub fn export(&self) -> (r: Vec<T>)
        ensures
            r@ == self.fields(),
    {
        vec![self.x, self.y, self.z, self.w]
    }

    /// The vector held by a scripting table, from the reads of its slots;
    /// `kind` is the element kind that errors report.
    pub fn import(reads: &Vec<SlotRead<T>>, kind: ElementKind) -> (r: Result<Self, MarshalError>)
        ensures
            r == Self::import_spec(reads@, kind),
    {
        match read_slots(reads, TypeKey { kind, shape: Shape::Vec4 }, 4) {
            Ok(vals) => Ok(Vec4 { x: vals[0], y: vals[1], z: vals[2], w: vals[3] }),
            Err(e) => Err(e),
        }
    }
}

impl<T: Scalar> Vec4<T> {
    /// The vector whose component values are `s`.
    pub open spec fn from_view(s: Seq<int>) -> Self {
        Vec4 {
            x: T::from_val(s[0]),
            y: T::from_val(s[1]),
            z: T::from_val(s[2]),
            w: T::from_val(s[3]),
        }
    }

    /// A vector is determined by its component values, which all fit `T`.
    pub proof fn lemma_view(v: Self)
        ensures
            Self::from_view(v@) == v,
            all_fit::<T>(v@),
            v@.len() == 4,
    {
        v.x.lemma_range();
        v.y.lemma_range();
        v.z.lemma_range();
        v.w.lemma_range();
    }

    /// `op` on matching components.
    pub(crate) fn zip(self, rhs: Self, op: Op) -> (r: Self)
        requires
            zip_ok::<T>(op, self@, rhs@),
        ensures
            r@ == zip_op(op, self@, rhs@),
            r == Self::from_view(r@),
    {
        proof {
            assert(self@[0] == self.x.val());
            assert(self@[1] == self.y.val());
            assert(self@[2] == self.z.val());
            assert(self@[3] == self.w.val());
        }
        let r = Vec4 {
            x: T::calc(op, self.x, rhs.x),
            y: T::calc(op, self.y, rhs.y),
            z: T::calc(op, self.z, rhs.z),
            w: T::calc(op, self.w, rhs.w),
        };
        proof {
            Self::lemma_view(r);
            assert(r@ =~= zip_op(op, self@, rhs@));
        }
        r
    }

    /// `op` with `s` on every component.
    pub(crate) fn zip_scalar(self, s: T, op: Op) -> (r: Self)
        requires
            scalar_ok::<T>(op, self@, s.val()),
        ensures
            r@ == scalar_op(op, self@, s.val()),
            r == Self::from_view(r@),
    {
        proof {
            assert(self@[0] == self.x.val());
            assert(self@[1] == self.y.val());
            assert(self@[2] == self.z.val());
            assert(self@[3] == self.w.val());
        }
        let r = Vec4 {
            x: T::calc(op, self.x, s),
            y: T::calc(op, self.y, s),
            z: T::calc(op, self.z, s),
            w: T::calc(op, self.w, s),
        };
        proof {
            Self::lemma_view(r);
            assert(r@ =~= scalar_op(op, self@, s.val()));
        }
        r
    }

    /// In-place `add` by a vector of the same type.
    pub fn add_assign(&mut self, rhs: Self)
        requires
            zip_ok::<T>(Op::Add, old(self)@, rhs@),
        ensures
            final(self)@ == zip_op(Op::Add, old(self)@, rhs@),
    {
        *self = (*self).zip(rhs, Op::Add);
    }

    /// In-place `add` by a scalar.
    pub fn add_assign_scalar(&mut self, rhs: T)
        requires
            scalar_ok::<T>(Op::Add, old(self)@, rhs.val()),
        ensures
            final(self)@ == scalar_op(Op::Add, old(self)@, rhs.val()),
    {
        *self = (*self).zip_scalar(rhs, Op::Add);
    }

    /// In-place `sub` by a vector of the same type.
    pub fn sub_assign(&mut self, rhs: Self)
        requires
            zip_ok::<T>(Op::Sub, old(self)@, rhs@),
        ensures
            final(self)@ == zip_op(Op::Sub, old(self)@, rhs@),
    {
        *self = (*self).zip(rhs, Op::Sub);
    }

    /// In-place `sub` by a scalar.
    pub fn sub_assign_scalar(&mut self, rhs: T)
        requires
            scalar_ok::<T>(Op::Sub, old(self)@, rhs.val()),
        ensures
            final(self)@ == scalar_op(Op::Sub, old(self)@, rhs.val()),
    {
        *self = (*self).zip_scalar(rhs, Op::Sub);
    }

    /// In-place `mul` by a vector of the same type.
    pub fn mul_assign(&mut self, rhs: Self)
        requires
            zip_ok::<T>(Op::Mul, old(self)@, rhs@),
        ensures
            final(self)@ == zip_op(Op::Mul, old(self)@, rhs@),
    {
        *self = (*self).zip(rhs, Op::Mul);
    }

    /// In-place `mul` by a scalar.
    pub fn mul_assign_scalar(&mut self, rhs: T)
        requires
            scalar_ok::<T>(Op::Mul, old(self)@, rhs.val()),
        ensures
            final(self)@ == scalar_op(Op::Mul, old(self)@, rhs.val()),
    {
        *self = (*self).zip_scalar(rhs, Op::Mul);
    }

    /// In-place `div` by a vector of the same type.
    pub fn div_assign(&mut self, rhs: Self)
        requires
            zip_ok::<T>(Op::Div, old(self)@, rhs@),
        ensures
            final(self)@ == zip_op(Op::Div, old(self)@, rhs@),
    {
        *self = (*self).zip(rhs, Op::Div);
    }

    /// In-place `div` by a scalar.
    pub fn div_assign_scalar(&mut self, rhs: T)
        requires
            scalar_ok::<T>(Op::Div, old(self)@, rhs.val()),
        ensures
            final(self)@ == scalar_op(Op::Div, old(self)@, rhs.val()),
    {
        *self = (*self).zip_scalar(rhs, Op::Div);
    }
}

impl<T: SignedScalar> Vec4<T> {
    /// The absolute value of every component.
    pub fn abs(self) -> (r: Self)
        requires
            all_fit::<T>(absolute(self@)),
        ensures
            r@ == absolute(self@),
    {
        proof {
            assert(fits::<T>(absolute(self@)[0]));
            assert(fits::<T>(absolute(self@)[1]));
            assert(fits::<T>(absolute(self@)[2]));
            assert(fits::<T>(absolute(self@)[3]));
        }
        let r = Vec4 {
            x: self.x.absolute(),
            y: self.y.absolute(),
            z: self.z.absolute(),
            w: self.w.absolute(),
        };
        proof {
            Self::lemma_view(r);
            assert(r@ =~= absolute(self@));
        }
        r
    }
}

impl<T: SignedScalar> core::ops::Neg for Vec4<T> {
    type Output = Self;

    fn neg(self) -> (r: Self)
        ensures
            r@ == negated(self@),
    {
        proof {
            assert(fits::<T>(negated(self@)[0]));
            assert(fits::<T>(negated(self@)[1]));
            assert(fits::<T>(negated(self@)[2]));
            assert(fits::<T>(negated(self@)[3]));
        }
        let r = Vec4 {
            x: self.x.negate(),
            y: self.y.negate(),
            z: self.z.negate(),
            w: self.w.negate(),
        };
        proof {
            Self::lemma_view(r);
            assert(r@ =~= negated(self@));
        }
        r
    }
}

impl<T: SignedScalar> vstd::std_specs::ops::NegSpecImpl for Vec4<T> {
    open spec fn obeys_neg_spec() -> bool {
        true
    }

    open spec fn neg_req(self) -> bool {
        all_fit::<T>(negated(self@))
    }

    open spec fn neg_spec(self) -> Self {
        Self::from_view(negated(self@))
    }
}

impl<T: Scalar> core::ops::Add for Vec4<T> {
    type Output = Self;

    fn add(self, rhs: Self) -> (r: Self)
        ensures
            r@ == zip_op(Op::Add, self@, rhs@),
    {
        self.zip(rhs, Op::Add)
    }
}

impl<T: Scalar> vstd::std_specs::ops::AddSpecImpl for Vec4<T> {
    open spec fn obeys_add_spec() -> bool {
        true
    }

    open spec fn add_req(self, rhs: Self) -> bool {
        zip_ok::<T>(Op::Add, self@, rhs@)
    }

    open spec fn add_spec(self, rhs: Self) -> Self {
        Self::from_view(zip_op(Op::Add, self@, rhs@))
    }
}

impl<T: Scalar> core::ops::Add<T> for Vec4<T> {
    type Output = Self;

    fn add(self, rhs: T) -> (r: Self)
        ensures
            r@ == scalar_op(Op::Add, self@, rhs.val()),
    {
        self.zip_scalar(rhs, Op::Add)
    }
}

impl<T: Scalar> vstd::std_specs::ops::AddSpecImpl<T> for Vec4<T> {
    open spec fn obeys_add_spec() -> bool {
        true
    }

    open spec fn add_req(self, rhs: T) -> bool {
        scalar_ok::<T>(Op::Add, self@, rhs.val())
    }

    open spec fn add_spec(self, rhs: T) -> Self {
        Self::from_view(scalar_op(Op::Add, self@, rhs.val()))
    }
}

impl<T: Scalar> core::ops::Sub for Vec4<T> {
    type Output = Self;

    fn sub(self, rhs: Self) -> (r: Self)
        ensures
            r@ == zip_op(Op::Sub, self@, rhs@),
    {
        self.zip(rhs, Op::Sub)
    }
}

impl<T: Scalar> vstd::std_specs::ops::SubSpecImpl for Vec4<T> {
    open spec fn obeys_sub_spec() -> bool {
        true
    }

    open spec fn sub_req(self, rhs: Self) -> bool {
        zip_ok::<T>(Op::Sub, self@, rhs@)
    }

    open spec fn sub_spec(self, rhs: Self) -> Self {
        Self::from_view(zip_op(Op::Sub, self@, rhs@))
    }
}

impl<T: Scalar> core::ops::Sub<T> for Vec4<T> {
    type Output = Self;

    fn sub(self, rhs: T) -> (r: Self)
        ensures
            r@ == scalar_op(Op::Sub, self@, rhs.val()),
    {
        self.zip_scalar(rhs, Op::Sub)
    }
}

impl<T: Scalar> vstd::std_specs::ops::SubSpecImpl<T> for Vec4<T> {
    open spec fn obeys_sub_spec() -> bool {
        true
    }

    open spec fn sub_req(self, rhs: T) -> bool {
        scalar_ok::<T>(Op::Sub, self@, rhs.val())
    }

    open spec fn sub_spec(self, rhs: T) -> Self {
        Self::from_view(scalar_op(Op::Sub, self@, rhs.val()))
    }
}

impl<T: Scalar> core::ops::Mul for Vec4<T> {
    type Output = Self;

    fn mul(self, rhs: Self) -> (r: Self)
        ensures
            r@ == zip_op(Op::Mul, self@, rhs@),
    {
        self.zip(rhs, Op::Mul)
    }
}

impl<T: Scalar> vstd::std_specs::ops::MulSpecImpl for Vec4<T> {
    open spec fn obeys_mul_spec() -> bool {
        true
    }

    open spec fn mul_req(self, rhs: Self) -> bool {
        zip_ok::<T>(Op::Mul, self@, rhs@)
    }

    open spec fn mul_spec(self, rhs: Self) -> Self {
        Self::from_view(zip_op(Op::Mul, self@, rhs@))
    }
}

impl<T: Scalar> core::ops::Mul<T> for Vec4<T> {
    type Output = Self;

    fn mul(self, rhs: T) -> (r: Self)
        ensures
            r@ == scalar_op(Op::Mul, self@, rhs.val()),
    {
        self.zip_scalar(rhs, Op::Mul)
    }
}

impl<T: Scalar> vstd::std_specs::ops::MulSpecImpl<T> for Vec4<T> {
    open spec fn obeys_mul_spec() -> bool {
        true
    }

    open spec fn mul_req(self, rhs: T) -> bool {
        scalar_ok::<T>(Op::Mul, self@, rhs.val())
    }

    open spec fn mul_spec(self, rhs: T) -> Self {
        Self::from_view(scalar_op(Op::Mul, self@, rhs.val()))
    }
}

impl<T: Scalar> core::ops::Div for Vec4<T> {
    type Output = Self;

    fn div(self, rhs: Self) -> (r: Self)
        ensures
            r@ == zip_op(Op::Div, self@, rhs@),
    {
        self.zip(rhs, Op::Div)
    }
}

impl<T: Scalar> vstd::std_specs::ops::DivSpecImpl for Vec4<T> {
    open spec fn obeys_div_spec() -> bool {
        true
    }

    open spec fn div_req(self, rhs: Self) -> bool {
        zip_ok::<T>(Op::Div, self@, rhs@)
    }

    open spec fn div_spec(self, rhs: Self) -> Self {
        Self::from_view(zip_op(Op::Div, self@, rhs@))
    }
}

impl<T: Scalar> core::ops::Div<T> for Vec4<T> {
    type Output = Self;

    fn div(self, rhs: T) -> (r: Self)
        ensures
            r@ == scalar_op(Op::Div, self@, rhs.val()),
    {
        self.zip_scalar(rhs, Op::Div)
    }
}

impl<T: Scalar> vstd::std_specs::ops::DivSpecImpl<T> for Vec4<T> {
    open spec fn obeys_div_spec() -> bool {
        true
    }

    open spec fn div_req(self, rhs: T) -> bool {
        scalar_ok::<T>(Op::Div, self@, rhs.val())
    }

    open spec fn div_spec(self, rhs: T) -> Self {
        Self::from_view(scalar_op(Op::Div, self@, rhs.val()))
    }
}

impl Vec4<u32> {
    /// The signed vector with every component cast as `as` casts it.
    pub fn as_ivec4(&self) -> (r: Vec4<i32>)
        ensures
            r == (Vec4 { x: self.x as i32, y: self.y as i32, z: self.z as i32, w: self.w as i32 }),
    {
        Vec4 { x: self.x as i32, y: self.y as i32, z: self.z as i32, w: self.w as i32 }
    }
}

impl Vec4<i32> {
    /// The unsigned vector with every component cast as `as` casts it.
    pub fn as_uvec4(&self) -> (r: Vec4<u32>)
        ensures
            r == (Vec4 { x: self.x as u32, y: self.y as u32, z: self.z as u32, w: self.w as u32 }),
    {
        Vec4 { x: self.x as u32, y: self.y as u32, z: self.z as u32, w: self.w as u32 }
    }
}

} // verus!
