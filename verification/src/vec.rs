//! Fixed-size vectors and the 4×4 matrix as the uniform protocol sees them.
//!
//! A vector of N scalars is sent as one "send N elements" call of its scalar
//! family; a matrix is stored row-major and transposed on every upload, since
//! the driver's matrix call expects column-major data. Linear algebra on
//! these shapes is no concern of this layer: a vector here is a tuple of
//! scalars on its way to a uniform location or an attribute slot.
use vstd::prelude::*;

verus! {

use crate::call::{Call, DriverCall};
use crate::context::GlContext;
use crate::{
    send_promoted_vector, vector_call, GlScalar, GlUniform, GlslType, Promoted,
};
use vstd::string::StringExecFns;

/// A vector of two scalars, laid out as two contiguous scalars.
#[derive(Debug, Clone, Copy, PartialEq, Eq, Structural)]
pub struct Vector2<T> {
    pub x: T,
    pub y: T,
}

/// A vector of three scalars, laid out as three contiguous scalars.
#[derive(Debug, Clone, Copy, PartialEq, Eq, Structural)]
pub struct Vector3<T> {
    pub x: T,
    pub y: T,
    pub z: T,
}

/// A vector of four scalars, laid out as four contiguous scalars.
#[derive(Debug, Clone, Copy, PartialEq, Eq, Structural)]
pub struct Vector4<T> {
    pub x: T,
    pub y: T,
    pub z: T,
    pub w: T,
}

impl<T> Vector2<T> {
    pub fn new(x: T, y: T) -> (r: Vector2<T>)
        ensures
            r == (Vector2 { x, y }),
    {
        Vector2 { x, y }
    }
}

impl<T> Vector3<T> {
    pub fn new(x: T, y: T, z: T) -> (r: Vector3<T>)
        ensures
            r == (Vector3 { x, y, z }),
    {
        Vector3 { x, y, z }
    }
}

impl<T> Vector4<T> {
    pub fn new(x: T, y: T, z: T, w: T) -> (r: Vector4<T>)
        ensures
            r == (Vector4 { x, y, z, w }),
    {
        Vector4 { x, y, z, w }
    }
}

/// A vector of two booleans.
pub type BVec2 = Vector2<bool>;

/// A vector of two signed integers.
pub type IVec2 = Vector2<i32>;

/// A vector of two unsigned integers.
pub type UVec2 = Vector2<u32>;

/// A vector of three booleans.
pub type BVec3 = Vector3<bool>;

/// A vector of three signed integers.
pub type IVec3 = Vector3<i32>;

/// A vector of three unsigned integers.
pub type UVec3 = Vector3<u32>;

/// A vector of four booleans.
pub type BVec4 = Vector4<bool>;

/// A vector of four signed integers.
pub type IVec4 = Vector4<i32>;

/// A vector of four unsigned integers.
pub type UVec4 = Vector4<u32>;

impl GlslType for BVec2 {
    open spec fn glsl_name() -> Seq<char> {
        "bvec2"@
    }

    fn to_glsl() -> (r: String) {
        String::from_str("bvec2")
    }
}

impl GlslType for IVec2 {
    open spec fn glsl_name() -> Seq<char> {
        "ivec2"@
    }

    fn to_glsl() -> (r: String) {
        String::from_str("ivec2")
    }
}

impl GlslType for UVec2 {
    open spec fn glsl_name() -> Seq<char> {
        "uvec2"@
    }

    fn to_glsl() -> (r: String) {
        String::from_str("uvec2")
    }
}

impl GlslType for BVec3 {
    open spec fn glsl_name() -> Seq<char> {
        "bvec3"@
    }

    fn to_glsl() -> (r: String) {
        String::from_str("bvec3")
    }
}

impl GlslType for IVec3 {
    open spec fn glsl_name() -> Seq<char> {
        "ivec3"@
    }

    fn to_glsl() -> (r: String) {
        String::from_str("ivec3")
    }
}

impl GlslType for UVec3 {
    open spec fn glsl_name() -> Seq<char> {
        "uvec3"@
    }

    fn to_glsl() -> (r: String) {
        String::from_str("uvec3")
    }
}

impl GlslType for BVec4 {
    open spec fn glsl_name() -> Seq<char> {
        "bvec4"@
    }

    fn to_glsl() -> (r: String) {
        String::from_str("bvec4")
    }
}

impl GlslType for IVec4 {
    open spec fn glsl_name() -> Seq<char> {
        "ivec4"@
    }

    fn to_glsl() -> (r: String) {
        String::from_str("ivec4")
    }
}

impl GlslType for UVec4 {
    open spec fn glsl_name() -> Seq<char> {
        "uvec4"@
    }

    fn to_glsl() -> (r: String) {
        String::from_str("uvec4")
    }
}

/// A vector of two single floats, carried as bit patterns.
pub type FVec2 = Vector2<crate::F32Bits>;

/// A vector of three single floats, carried as bit patterns.
pub type FVec3 = Vector3<crate::F32Bits>;

/// A vector of four single floats, carried as bit patterns.
pub type FVec4 = Vector4<crate::F32Bits>;

impl GlslType for FVec2 {
    open spec fn glsl_name() -> Seq<char> {
        "vec2"@
    }

    fn to_glsl() -> (r: String) {
        String::from_str("vec2")
    }
}

impl GlslType for FVec3 {
    open spec fn glsl_name() -> Seq<char> {
        "vec3"@
    }

    fn to_glsl() -> (r: String) {
        String::from_str("vec3")
    }
}

impl GlslType for FVec4 {
    open spec fn glsl_name() -> Seq<char> {
        "vec4"@
    }

    fn to_glsl() -> (r: String) {
        String::from_str("vec4")
    }
}

/// A type that knows its own numeric uniform type tag at run time.
/// Implemented by the users of this layer where they dispatch on it.
pub trait UniformType {
    fn get_type(&self) -> u32;
}

impl<T: GlScalar> GlUniform for Vector2<T> {
    open spec fn uniform_req(self) -> bool {
        true
    }

    open spec fn uniform_call(self, location: i32) -> Call {
        vector_call(location, seq![self.x.promoted_spec(), self.y.promoted_spec()])
    }

    fn send_uniform(&self, location: i32, ctx: &mut GlContext) {
        let mut ps: Vec<Promoted> = Vec::new();
        ps.push(self.x.promote());
        ps.push(self.y.promote());
        proof {
            assert(ps@ =~= seq![self.x.promoted_spec(), self.y.promoted_spec()]);
        }
        send_promoted_vector(&ps, location, ctx);
    }
}

impl<T: GlScalar> GlUniform for Vector3<T> {
    open spec fn uniform_req(self) -> bool {
        true
    }

    open spec fn uniform_call(self, location: i32) -> Call {
        vector_call(
            location,
            seq![self.x.promoted_spec(), self.y.promoted_spec(), self.z.promoted_spec()],
        )
    }

    fn send_uniform(&self, location: i32, ctx: &mut GlContext) {
        let mut ps: Vec<Promoted> = Vec::new();
        ps.push(self.x.promote());
        ps.push(self.y.promote());
        ps.push(self.z.promote());
        proof {
            assert(ps@ =~= seq![
                self.x.promoted_spec(),
                self.y.promoted_spec(),
                self.z.promoted_spec(),
            ]);
        }
        send_promoted_vector(&ps, location, ctx);
    }
}

impl<T: GlScalar> GlUniform for Vector4<T> {
    open spec fn uniform_req(self) -> bool {
        true
    }

    open spec fn uniform_call(self, location: i32) -> Call {
        vector_call(
            location,
            seq![
                self.x.promoted_spec(),
                self.y.promoted_spec(),
                self.z.promoted_spec(),
                self.w.promoted_spec(),
            ],
        )
    }

    fn send_uniform(&self, location: i32, ctx: &mut GlContext) {
        let mut ps: Vec<Promoted> = Vec::new();
        ps.push(self.x.promote());
        ps.push(self.y.promote());
        ps.push(self.z.promote());
        ps.push(self.w.promote());
        proof {
            assert(ps@ =~= seq![
                self.x.promoted_spec(),
                self.y.promoted_spec(),
                self.z.promoted_spec(),
                self.w.promoted_spec(),
            ]);
        }
        send_promoted_vector(&ps, location, ctx);
    }
}

/// Where element `i` of a flattened 4×4 matrix comes from in the transposed
/// flattening: row and column swap.
pub open spec fn transpose_index(i: int) -> int {
    4 * (i % 4) + i / 4
}

/// The transposed flattening of a 4×4 matrix given row-major as 16 elements.
pub open spec fn transposed(s: Seq<u32>) -> Seq<u32> {
    Seq::new(16, |i: int| s[transpose_index(i)])
}

/// Law: the transpose of a 4×4 matrix is self-inverse, so the driver's
/// column-major image of an upload, transposed back, is the uploaded matrix.
pub proof fn lemma_transpose_involutive(s: Seq<u32>)
    requires
        s.len() == 16,
    ensures
        transposed(transposed(s)) == s,
{
    assert forall|i: int| 0 <= i < 16 implies transposed(transposed(s))[i] == s[i] by {
        assert(0 <= transpose_index(i) < 16);
        assert(transpose_index(transpose_index(i)) == i);
    }
    assert(transposed(transposed(s)) =~= s);
}

/// Law: the payload of a matrix upload is the transposed flattening of the
/// stored matrix, and transposing the driver's image of it yields the stored
/// matrix back.
pub proof fn lemma_matrix_round_trip(m: Mat4, location: i32)
    requires
        m.wf(),
    ensures
        m.uniform_call(location) == (Call::UniformMatrix4fv {
            location,
            transpose: false,
            bits: transposed(m.bits@),
        }),
        transposed(transposed(m.bits@)) == m.bits@,
{
    lemma_transpose_involutive(m.bits@);
}

/// A 4×4 matrix of 32-bit floats, stored row-major, each element carried as
/// its IEEE 754 bit pattern.
#[derive(Debug, Clone, PartialEq, Eq)]
pub struct Mat4 {
    pub bits: Vec<u32>,
}

impl Mat4 {
    /// Sixteen elements, rows first.
    pub open spec fn wf(self) -> bool {
        self.bits@.len() == 16
    }

    /// A matrix from its sixteen row-major element bit patterns.
    pub fn from_bits(bits: Vec<u32>) -> (r: Mat4)
        requires
            bits@.len() == 16,
        ensures
            r.bits@ == bits@,
            r.wf(),
    {
        Mat4 { bits }
    }

    /// The transposed matrix: rows and columns swapped.
    pub fn transpose(&self) -> (r: Mat4)
        requires
            self.wf(),
        ensures
            r.bits@ == transposed(self.bits@),
            r.wf(),
    {
        let mut out: Vec<u32> = Vec::new();
        let mut i: usize = 0;
        while i < 16
            invariant
                self.wf(),
                i <= 16,
                out@.len() == i,
                forall|j: int| 0 <= j < i ==> out@[j] == self.bits@[transpose_index(j)],
            decreases 16 - i,
        {
            let col = i / 4;
            let row = i % 4;
            out.push(self.bits[4 * row + col]);
            i = i + 1;
        }
        proof {
            assert(out@ =~= transposed(self.bits@));
        }
        Mat4 { bits: out }
    }
}

impl GlslType for Mat4 {
    open spec fn glsl_name() -> Seq<char> {
        "mat4"@
    }

    fn to_glsl() -> (r: String) {
        String::from_str("mat4")
    }
}

impl GlUniform for Mat4 {
    open spec fn uniform_req(self) -> bool {
        self.wf()
    }

    /// Every matrix upload performs exactly one conceptual transpose: the
    /// stored representation is row-major, the driver's matrix call expects
    /// column-major data, and the call's own transpose flag stays off.
    open spec fn uniform_call(self, location: i32) -> Call {
        Call::UniformMatrix4fv { location, transpose: false, bits: transposed(self.bits@) }
    }

    fn send_uniform(&self, location: i32, ctx: &mut GlContext) {
        let t = self.transpose();
        ctx.record(
            DriverCall::UniformMatrix4fv { location, transpose: false, bits: t.bits },
        );
    }
}

} // verus!
