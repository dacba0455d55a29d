//! The rotating triangle: one linked shader program and one empty vertex array
//! object, the calls that draw it and release it, and the protocol that builds it.
use vstd::prelude::*;
use crate::gl::{DrawMode, GlCall, GlReply, ShaderText};
use crate::shader::{ShaderStage, Target, ANGLE_UNIFORM};

verus! {

/// The GPU objects of a built triangle.
#[derive(Clone, Copy, Debug, PartialEq, Eq)]
pub struct RotatingTriangle<P, V> {
    /// A program linked from the vertex and fragment shader of `shader`.
    pub program: P,
    /// An empty vertex array: the vertex shader indexes its own constants.
    pub vertex_array: V,
}

/// The draw call of one frame: three vertices read as one triangle.
pub open spec fn triangle_draw<P, S, V, A>() -> GlCall<P, S, V, A> {
    GlCall::DrawArrays { mode: DrawMode::Triangles, first: 0, count: 3 }
}

impl<P: Copy, V: Copy> RotatingTriangle<P, V> {
    /// Bind the program, set the angle uniform, bind the vertex array, draw.
    pub open spec fn paint_calls<S, A>(self, angle: A) -> Seq<GlCall<P, S, V, A>> {
        seq![
            GlCall::UseProgram(self.program),
            GlCall::SetUniform1 { program: self.program, name: ANGLE_UNIFORM, value: angle },
            GlCall::BindVertexArray(self.vertex_array),
            triangle_draw(),
        ]
    }

    /// Delete the program, then the vertex array.
    pub open spec fn destroy_calls<S, A>(self) -> Seq<GlCall<P, S, V, A>> {
        seq![GlCall::DeleteProgram(self.program), GlCall::DeleteVertexArray(self.vertex_array)]
    }

    /// The calls that draw the triangle with rotation `angle`.
    pub fn paint<S, A: Copy>(&self, angle: A) -> (r: Vec<GlCall<P, S, V, A>>)
        ensures
            r@ == self.paint_calls::<S, A>(angle),
    {
        let mut r: Vec<GlCall<P, S, V, A>> = Vec::new();
        r.push(GlCall::UseProgram(self.program));
        r.push(GlCall::SetUniform1 { program: self.program, name: ANGLE_UNIFORM, value: angle });
        r.push(GlCall::BindVertexArray(self.vertex_array));
        r.push(GlCall::DrawArrays { mode: DrawMode::Triangles, first: 0, count: 3 });
        assert(r@ =~= self.paint_calls::<S, A>(angle));
        r
    }

    /// The calls that release the program and the vertex array.
    pub fn destroy<S, A>(&self) -> (r: Vec<GlCall<P, S, V, A>>)
        ensures
            r@ == self.destroy_calls::<S, A>(),
    {
        let mut r: Vec<GlCall<P, S, V, A>> = Vec::new();
        r.push(GlCall::DeleteProgram(self.program));
        r.push(GlCall::DeleteVertexArray(self.vertex_array));
        assert(r@ =~= self.destroy_calls::<S, A>());
        r
    }
}

/// Whatever the angle, painting makes exactly one draw call, and it draws the
/// three vertices of one triangle.
pub proof fn lemma_paint_draws_one_triangle<P: Copy, S, V: Copy, A>(
    triangle: RotatingTriangle<P, V>,
    angle: A,
)
    ensures
        ({
            let calls = triangle.paint_calls::<S, A>(angle);
            &&& calls.len() == 4
            &&& calls[3] == triangle_draw::<P, S, V, A>()
            &&& forall|i: int|
                0 <= i < calls.len() && (#[trigger] calls[i]) is DrawArrays ==> i == 3
        }),
{
}

} // verus!
