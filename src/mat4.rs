use crate::family::{Shape, TypeKey};
use crate::linear::{
    filled, identity, lin_comb, lin_comb_ok, mat_mul, mat_mul_ok, mat_vec, mat_vec_ok, mul_add,
    scalar_cols, scalar_cols_ok, zip_cols, zip_cols_ok,
};
use crate::marshal::{
    lemma_read_back,
    read_slots,
    read_slots_spec,
    reads_of,
    MarshalError,
    SlotRead,
};
use crate::scalar::{all_fit, scalar_ok, zip_ok, ElementKind, Op, Scalar};
use crate::vec4::Vec4;
use vstd::prelude::*;

verus! {

/// A square matrix of side 4, stored as its 4 columns (axes):
/// `x_axis`, `y_axis`, `z_axis`, `w_axis`.
#[derive(Clone, Copy, Debug, Default, PartialEq, Eq, Hash)]
pub struct Mat4<T> {
    pub x_axis: Vec4<T>,
    pub y_axis: Vec4<T>,
    pub z_axis: Vec4<T>,
    pub w_axis: Vec4<T>,
}

impl<T: Scalar> View for Mat4<T> {
    type V = Seq<Seq<int>>;

    open spec fn view(&self) -> Seq<Seq<int>> {
        seq![self.x_axis@, self.y_axis@, self.z_axis@, self.w_axis@]
    }
}

impl<T> Mat4<T> {
    /// The axes in storage order.
    pub open spec fn axes(&self) -> Seq<Vec4<T>> {
        seq![self.x_axis, self.y_axis, self.z_axis, self.w_axis]
    }

    /// The entries in storage order: axis after axis, each axis in component
    /// order.
    pub open spec fn fields(&self) -> Seq<T> {
        seq![
            self.x_axis.x,
            self.x_axis.y,
            self.x_axis.z,
            self.x_axis.w,
            self.y_axis.x,
            self.y_axis.y,
            self.y_axis.z,
            self.y_axis.w,
            self.z_axis.x,
            self.z_axis.y,
            self.z_axis.z,
            self.z_axis.w,
            self.w_axis.x,
            self.w_axis.y,
            self.w_axis.z,
            self.w_axis.w,
        ]
    }

    /// The matrix whose entries, in storage order, are the first 16 items of `s`.
    pub open spec fn from_fields(s: Seq<T>) -> Self {
        Mat4 {
            x_axis: Vec4 { x: s[0], y: s[1], z: s[2], w: s[3] },
            y_axis: Vec4 { x: s[4], y: s[5], z: s[6], w: s[7] },
            z_axis: Vec4 { x: s[8], y: s[9], z: s[10], w: s[11] },
            w_axis: Vec4 { x: s[12], y: s[13], z: s[14], w: s[15] },
        }
    }

    /// What importing the slot reads `reads` as a matrix of kind `kind` gives.
    pub open spec fn import_spec(reads: Seq<SlotRead<T>>, kind: ElementKind) -> Result<
        Self,
        MarshalError,
    > {
        match read_slots_spec(reads, TypeKey { kind, shape: Shape::Mat4 }, 16) {
            Ok(vals) => Ok(Self::from_fields(vals)),
            Err(e) => Err(e),
        }
    }

    /// A matrix from its axes.
    pub fn from_axis(
        x_axis: Vec4<T>,
        y_axis: Vec4<T>,
        z_axis: Vec4<T>,
        w_axis: Vec4<T>,
    ) -> (r: Self)
        ensures
            r == (Mat4 { x_axis, y_axis, z_axis, w_axis }),
    {
        Mat4 { x_axis, y_axis, z_axis, w_axis }
    }

    /// Exporting a matrix and importing the table back gives the same matrix.
    pub proof fn lemma_round_trip(m: Self, kind: ElementKind)
        ensures
            Self::import_spec(reads_of(m.fields()), kind) == Ok::<Self, MarshalError>(m),
    {
        lemma_read_back(m.fields(), TypeKey { kind, shape: Shape::Mat4 }, 16);
        assert(m.fields().take(16) =~= m.fields());
    }

    /// Slot `j * 4 + c` of the export holds component `c` of axis `j`: the
    /// axes are laid out one after another.
    pub proof fn lemma_export_layout(m: Self)
        ensures
            m.fields().len() == 16,
            forall|j: int, c: int|
                0 <= j < 4 && 0 <= c < 4 ==> m.fields()[j * 4 + c]
                    == #[trigger] m.axes()[j].fields()[c],
    {
        assert forall|j: int, c: int| 0 <= j < 4 && 0 <= c < 4 implies m.fields()[j * 4 + c]
            == #[trigger] m.axes()[j].fields()[c] by {
            if j == 0 {
                assert(m.axes()[j] == m.x_axis);
            } else if j == 1 {
                assert(m.axes()[j] == m.y_axis);
            } else if j == 2 {
                assert(m.axes()[j] == m.z_axis);
            } else if j == 3 {
                assert(m.axes()[j] == m.w_axis);
            }
        }
    }
}

impl<T: Copy> Mat4<T> {
    /// Every entry set to `v`.
    pub fn splat(v: T) -> (r: Self)
        ensures
            r == (Mat4 {
                x_axis: Vec4 { x: v, y: v, z: v, w: v },
                y_axis: Vec4 { x: v, y: v, z: v, w: v },
                z_axis: Vec4 { x: v, y: v, z: v, w: v },
                w_axis: Vec4 { x: v, y: v, z: v, w: v },
            }),
    {
        Mat4 {
            x_axis: Vec4 { x: v, y: v, z: v, w: v },
            y_axis: Vec4 { x: v, y: v, z: v, w: v },
            z_axis: Vec4 { x: v, y: v, z: v, w: v },
            w_axis: Vec4 { x: v, y: v, z: v, w: v },
        }
    }

    /// The slot values of the scripting table for this matrix, in order: the
    /// axes one after another, each in component order, from table index 1.
    pub fn export(&self) -> (r: Vec<T>)
        ensures
            r@ == self.fields(),
    {
        vec![
            self.x_axis.x,
            self.x_axis.y,
            self.x_axis.z,
            self.x_axis.w,
            self.y_axis.x,
            self.y_axis.y,
            self.y_axis.z,
            self.y_axis.w,
            self.z_axis.x,
            self.z_axis.y,
            self.z_axis.z,
            self.z_axis.w,
            self.w_axis.x,
            self.w_axis.y,
            self.w_axis.z,
            self.w_axis.w,
        ]
    }

    /// The matrix held by a scripting table, from the reads of its slots;
    /// `kind` is the element kind that errors report.
    pub fn import(reads: &Vec<SlotRead<T>>, kind: ElementKind) -> (r: Result<Self, MarshalError>)
        ensures
            r == Self::import_spec(reads@, kind),
    {
        match read_slots(reads, TypeKey { kind, shape: Shape::Mat4 }, 16) {
            Ok(vals) => Ok(Mat4 {
                x_axis: Vec4 { x: vals[0], y: vals[1], z: vals[2], w: vals[3] },
                y_axis: Vec4 { x: vals[4], y: vals[5], z: vals[6], w: vals[7] },
                z_axis: Vec4 { x: vals[8], y: vals[9], z: vals[10], w: vals[11] },
                w_axis: Vec4 { x: vals[12], y: vals[13], z: vals[14], w: vals[15] },
            }),
            Err(e) => Err(e),
        }
    }
}

impl<T: Scalar> Mat4<T> {
    /// The matrix whose entry values are `s`, by columns.
    pub open spec fn from_view(s: Seq<Seq<int>>) -> Self {
        Mat4 {
            x_axis: Vec4::<T>::from_view(s[0]),
            y_axis: Vec4::<T>::from_view(s[1]),
            z_axis: Vec4::<T>::from_view(s[2]),
            w_axis: Vec4::<T>::from_view(s[3]),
        }
    }

    /// A matrix is determined by its entry values, which all fit `T`.
    pub proof fn lemma_view(m: Self)
        ensures
            Self::from_view(m@) == m,
            m@.len() == 4,
            forall|j: int| 0 <= j < 4 ==> (#[trigger] m@[j]).len() == 4 && all_fit::<T>(m@[j]),
    {
        Vec4::<T>::lemma_view(m.x_axis);
        Vec4::<T>::lemma_view(m.y_axis);
        Vec4::<T>::lemma_view(m.z_axis);
        Vec4::<T>::lemma_view(m.w_axis);
    }

    /// The matrix with every entry zero.
    pub fn zero() -> (r: Self)
        ensures
            r@ == filled(4, 0),
    {
        let z = T::zero();
        let r = Mat4 {
            x_axis: Vec4 { x: z, y: z, z: z, w: z },
            y_axis: Vec4 { x: z, y: z, z: z, w: z },
            z_axis: Vec4 { x: z, y: z, z: z, w: z },
            w_axis: Vec4 { x: z, y: z, z: z, w: z },
        };
        proof {
            assert(r@[0] =~= filled(4, 0)[0]);
            assert(r@[1] =~= filled(4, 0)[1]);
            assert(r@[2] =~= filled(4, 0)[2]);
            assert(r@[3] =~= filled(4, 0)[3]);
            assert(r@ =~= filled(4, 0));
        }
        r
    }

    /// The identity matrix.
    pub fn identity() -> (r: Self)
        ensures
            r@ == identity(4),
    {
        let z = T::zero();
        let o = T::one();
        let r = Mat4 {
            x_axis: Vec4 { x: o, y: z, z: z, w: z },
            y_axis: Vec4 { x: z, y: o, z: z, w: z },
            z_axis: Vec4 { x: z, y: z, z: o, w: z },
            w_axis: Vec4 { x: z, y: z, z: z, w: o },
        };
        proof {
            assert(r@[0] =~= identity(4)[0]);
            assert(r@[1] =~= identity(4)[1]);
            assert(r@[2] =~= identity(4)[2]);
            assert(r@[3] =~= identity(4)[3]);
            assert(r@ =~= identity(4));
        }
        r
    }

    /// `op` on matching entries.
    fn zip(self, rhs: Self, op: Op) -> (r: Self)
        requires
            zip_cols_ok::<T>(op, self@, rhs@),
        ensures
            r@ == zip_cols(op, self@, rhs@),
            r == Self::from_view(r@),
    {
        proof {
            assert(zip_ok::<T>(op, self@[0], rhs@[0]));
            assert(zip_ok::<T>(op, self@[1], rhs@[1]));
            assert(zip_ok::<T>(op, self@[2], rhs@[2]));
            assert(zip_ok::<T>(op, self@[3], rhs@[3]));
        }
        let r = Mat4 {
            x_axis: self.x_axis.zip(rhs.x_axis, op),
            y_axis: self.y_axis.zip(rhs.y_axis, op),
            z_axis: self.z_axis.zip(rhs.z_axis, op),
            w_axis: self.w_axis.zip(rhs.w_axis, op),
        };
        proof {
            Self::lemma_view(r);
            assert(r@ =~= zip_cols(op, self@, rhs@));
        }
        r
    }

    /// `op` with `s` on every entry.
    fn zip_scalar(self, s: T, op: Op) -> (r: Self)
        requires
            scalar_cols_ok::<T>(op, self@, s.val()),
        ensures
            r@ == scalar_cols(op, self@, s.val()),
            r == Self::from_view(r@),
    {
        proof {
            assert(scalar_ok::<T>(op, self@[0], s.val()));
            assert(scalar_ok::<T>(op, self@[1], s.val()));
            assert(scalar_ok::<T>(op, self@[2], s.val()));
            assert(scalar_ok::<T>(op, self@[3], s.val()));
        }
        let r = Mat4 {
            x_axis: self.x_axis.zip_scalar(s, op),
            y_axis: self.y_axis.zip_scalar(s, op),
            z_axis: self.z_axis.zip_scalar(s, op),
            w_axis: self.w_axis.zip_scalar(s, op),
        };
        proof {
            Self::lemma_view(r);
            assert(r@ =~= scalar_cols(op, self@, s.val()));
        }
        r
    }

    /// The matrix applied to a vector: the axes weighted by the vector's
    /// components and summed.
    fn transform(self, v: Vec4<T>) -> (r: Vec4<T>)
        requires
            mat_vec_ok::<T>(self@, v@),
        ensures
            r@ == mat_vec(self@, v@),
            r == Vec4::<T>::from_view(r@),
    {
        proof {
            reveal_with_fuel(lin_comb, 5);
            reveal_with_fuel(lin_comb_ok, 5);
            Self::lemma_view(self);
            Vec4::<T>::lemma_view(v);
            assert(lin_comb_ok::<T>(self@, v@, 0, 4));
            assert(lin_comb_ok::<T>(self@, v@, 1, 4));
            assert(lin_comb_ok::<T>(self@, v@, 2, 4));
            assert(lin_comb_ok::<T>(self@, v@, 3, 4));
        }
        let x = T::calc(Op::Mul, self.x_axis.x, v.x);
        let x = mul_add(x, self.y_axis.x, v.y);
        let x = mul_add(x, self.z_axis.x, v.z);
        let x = mul_add(x, self.w_axis.x, v.w);
        let y = T::calc(Op::Mul, self.x_axis.y, v.x);
        let y = mul_add(y, self.y_axis.y, v.y);
        let y = mul_add(y, self.z_axis.y, v.z);
        let y = mul_add(y, self.w_axis.y, v.w);
        let z = T::calc(Op::Mul, self.x_axis.z, v.x);
        let z = mul_add(z, self.y_axis.z, v.y);
        let z = mul_add(z, self.z_axis.z, v.z);
        let z = mul_add(z, self.w_axis.z, v.w);
        let w = T::calc(Op::Mul, self.x_axis.w, v.x);
        let w = mul_add(w, self.y_axis.w, v.y);
        let w = mul_add(w, self.z_axis.w, v.z);
        let w = mul_add(w, self.w_axis.w, v.w);
        let r = Vec4 { x, y, z, w };
        proof {
            Vec4::<T>::lemma_view(r);
            assert(r@ =~= mat_vec(self@, v@));
        }
        r
    }

    /// The product of two matrices: axis `j` of the result is `self` applied
    /// to axis `j` of `rhs`.
    fn compose(self, rhs: Self) -> (r: Self)
        requires
            mat_mul_ok::<T>(self@, rhs@),
        ensures
            r@ == mat_mul(self@, rhs@),
            r == Self::from_view(r@),
    {
        proof {
            assert(mat_vec_ok::<T>(self@, rhs@[0]));
            assert(mat_vec_ok::<T>(self@, rhs@[1]));
            assert(mat_vec_ok::<T>(self@, rhs@[2]));
            assert(mat_vec_ok::<T>(self@, rhs@[3]));
        }
        let r = Mat4 {
            x_axis: self.transform(rhs.x_axis),
            y_axis: self.transform(rhs.y_axis),
            z_axis: self.transform(rhs.z_axis),
            w_axis: self.transform(rhs.w_axis),
        };
        proof {
            Self::lemma_view(r);
            assert(r@ =~= mat_mul(self@, rhs@));
        }
        r
    }

    /// In-place entrywise `add` by a matrix of the same type.
    pub fn add_assign(&mut self, rhs: Self)
        requires
            zip_cols_ok::<T>(Op::Add, old(self)@, rhs@),
        ensures
            final(self)@ == zip_cols(Op::Add, old(self)@, rhs@),
    {
        *self = (*self).zip(rhs, Op::Add);
    }

    /// In-place entrywise `sub` by a matrix of the same type.
    pub fn sub_assign(&mut self, rhs: Self)
        requires
            zip_cols_ok::<T>(Op::Sub, old(self)@, rhs@),
        ensures
            final(self)@ == zip_cols(Op::Sub, old(self)@, rhs@),
    {
        *self = (*self).zip(rhs, Op::Sub);
    }

    /// In-place `add` of every entry by a scalar.
    pub fn add_assign_scalar(&mut self, rhs: T)
        requires
            scalar_cols_ok::<T>(Op::Add, old(self)@, rhs.val()),
        ensures
            final(self)@ == scalar_cols(Op::Add, old(self)@, rhs.val()),
    {
        *self = (*self).zip_scalar(rhs, Op::Add);
    }

    /// In-place `sub` of every entry by a scalar.
    pub fn sub_assign_scalar(&mut self, rhs: T)
        requires
            scalar_cols_ok::<T>(Op::Sub, old(self)@, rhs.val()),
        ensures
            final(self)@ == scalar_cols(Op::Sub, old(self)@, rhs.val()),
    {
        *self = (*self).zip_scalar(rhs, Op::Sub);
    }

    /// In-place `mul` of every entry by a scalar.
    pub fn mul_assign_scalar(&mut self, rhs: T)
        requires
            scalar_cols_ok::<T>(Op::Mul, old(self)@, rhs.val()),
        ensures
            final(self)@ == scalar_cols(Op::Mul, old(self)@, rhs.val()),
    {
        *self = (*self).zip_scalar(rhs, Op::Mul);
    }

    /// In-place `div` of every entry by a scalar.
    pub fn div_assign_scalar(&mut self, rhs: T)
        requires
            scalar_cols_ok::<T>(Op::Div, old(self)@, rhs.val()),
        ensures
            final(self)@ == scalar_cols(Op::Div, old(self)@, rhs.val()),
    {
        *self = (*self).zip_scalar(rhs, Op::Div);
    }

    /// In-place matrix product: `self` becomes `self * rhs`.
    pub fn mul_assign(&mut self, rhs: Self)
        requires
            mat_mul_ok::<T>(old(self)@, rhs@),
        ensures
            final(self)@ == mat_mul(old(self)@, rhs@),
    {
        *self = (*self).compose(rhs);
    }
}

impl<T: Scalar> core::ops::Add for Mat4<T> {
    type Output = Self;

    fn add(self, rhs: Self) -> (r: Self)
        ensures
            r@ == zip_cols(Op::Add, self@, rhs@),
    {
        self.zip(rhs, Op::Add)
    }
}

impl<T: Scalar> vstd::std_specs::ops::AddSpecImpl for Mat4<T> {
    open spec fn obeys_add_spec() -> bool {
        true
    }

    open spec fn add_req(self, rhs: Self) -> bool {
        zip_cols_ok::<T>(Op::Add, self@, rhs@)
    }

    open spec fn add_spec(self, rhs: Self) -> Self {
        Self::from_view(zip_cols(Op::Add, self@, rhs@))
    }
}

impl<T: Scalar> core::ops::Sub for Mat4<T> {
    type Output = Self;

    fn sub(self, rhs: Self) -> (r: Self)
        ensures
            r@ == zip_cols(Op::Sub, self@, rhs@),
    {
        self.zip(rhs, Op::Sub)
    }
}

impl<T: Scalar> vstd::std_specs::ops::SubSpecImpl for Mat4<T> {
    open spec fn obeys_sub_spec() -> bool {
        true
    }

    open spec fn sub_req(self, rhs: Self) -> bool {
        zip_cols_ok::<T>(Op::Sub, self@, rhs@)
    }

    open spec fn sub_spec(self, rhs: Self) -> Self {
        Self::from_view(zip_cols(Op::Sub, self@, rhs@))
    }
}

impl<T: Scalar> core::ops::Add<T> for Mat4<T> {
    type Output = Self;

    fn add(self, rhs: T) -> (r: Self)
        ensures
            r@ == scalar_cols(Op::Add, self@, rhs.val()),
    {
        self.zip_scalar(rhs, Op::Add)
    }
}

impl<T: Scalar> vstd::std_specs::ops::AddSpecImpl<T> for Mat4<T> {
    open spec fn obeys_add_spec() -> bool {
        true
    }

    open spec fn add_req(self, rhs: T) -> bool {
        scalar_cols_ok::<T>(Op::Add, self@, rhs.val())
    }

    open spec fn add_spec(self, rhs: T) -> Self {
        Self::from_view(scalar_cols(Op::Add, self@, rhs.val()))
    }
}

impl<T: Scalar> core::ops::Sub<T> for Mat4<T> {
    type Output = Self;

    fn sub(self, rhs: T) -> (r: Self)
        ensures
            r@ == scalar_cols(Op::Sub, self@, rhs.val()),
    {
        self.zip_scalar(rhs, Op::Sub)
    }
}

impl<T: Scalar> vstd::std_specs::ops::SubSpecImpl<T> for Mat4<T> {
    open spec fn obeys_sub_spec() -> bool {
        true
    }

    open spec fn sub_req(self, rhs: T) -> bool {
        scalar_cols_ok::<T>(Op::Sub, self@, rhs.val())
    }

    open spec fn sub_spec(self, rhs: T) -> Self {
        Self::from_view(scalar_cols(Op::Sub, self@, rhs.val()))
    }
}

impl<T: Scalar> core::ops::Mul<T> for Mat4<T> {
    type Output = Self;

    fn mul(self, rhs: T) -> (r: Self)
        ensures
            r@ == scalar_cols(Op::Mul, self@, rhs.val()),
    {
        self.zip_scalar(rhs, Op::Mul)
    }
}

impl<T: Scalar> vstd::std_specs::ops::MulSpecImpl<T> for Mat4<T> {
    open spec fn obeys_mul_spec() -> bool {
        true
    }

    open spec fn mul_req(self, rhs: T) -> bool {
        scalar_cols_ok::<T>(Op::Mul, self@, rhs.val())
    }

    open spec fn mul_spec(self, rhs: T) -> Self {
        Self::from_view(scalar_cols(Op::Mul, self@, rhs.val()))
    }
}

impl<T: Scalar> core::ops::Div<T> for Mat4<T> {
    type Output = Self;

    fn div(self, rhs: T) -> (r: Self)
        ensures
            r@ == scalar_cols(Op::Div, self@, rhs.val()),
    {
        self.zip_scalar(rhs, Op::Div)
    }
}

impl<T: Scalar> vstd::std_specs::ops::DivSpecImpl<T> for Mat4<T> {
    open spec fn obeys_div_spec() -> bool {
        true
    }

    open spec fn div_req(self, rhs: T) -> bool {
        scalar_cols_ok::<T>(Op::Div, self@, rhs.val())
    }

    open spec fn div_spec(self, rhs: T) -> Self {
        Self::from_view(scalar_cols(Op::Div, self@, rhs.val()))
    }
}

impl<T: Scalar> core::ops::Mul<Vec4<T>> for Mat4<T> {
    type Output = Vec4<T>;

    fn mul(self, rhs: Vec4<T>) -> (r: Vec4<T>)
        ensures
            r@ == mat_vec(self@, rhs@),
    {
        self.transform(rhs)
    }
}

impl<T: Scalar> vstd::std_specs::ops::MulSpecImpl<Vec4<T>> for Mat4<T> {
    open spec fn obeys_mul_spec() -> bool {
        true
    }

    open spec fn mul_req(self, rhs: Vec4<T>) -> bool {
        mat_vec_ok::<T>(self@, rhs@)
    }

    open spec fn mul_spec(self, rhs: Vec4<T>) -> Vec4<T> {
        Vec4::<T>::from_view(mat_vec(self@, rhs@))
    }
}

impl<T: Scalar> core::ops::Mul for Mat4<T> {
    type Output = Self;

    fn mul(self, rhs: Self) -> (r: Self)
        ensures
            r@ == mat_mul(self@, rhs@),
    {
        self.compose(rhs)
    }
}

impl<T: Scalar> vstd::std_specs::ops::MulSpecImpl for Mat4<T> {
    open spec fn obeys_mul_spec() -> bool {
        true
    }

    open spec fn mul_req(self, rhs: Self) -> bool {
        mat_mul_ok::<T>(self@, rhs@)
    }

    open spec fn mul_spec(self, rhs: Self) -> Self {
        Self::from_view(mat_mul(self@, rhs@))
    }
}

} // verus!
