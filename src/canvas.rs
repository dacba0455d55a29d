//! The canvas that owns the triangle: it paints it while it is alive and
//! releases it at most once.
use vstd::prelude::*;
use crate::gl::GlCall;
use crate::triangle::RotatingTriangle;

verus! {

/// Side, in logical points, of the square region the triangle is drawn in.
pub const CANVAS_SIDE: u32 = 300;

/// The triangle of one canvas and whether its GPU objects were released.
pub struct Canvas<P, V> {
    triangle: RotatingTriangle<P, V>,
    released: bool,
}

impl<P: Copy, V: Copy> Canvas<P, V> {
    pub closed spec fn triangle(&self) -> RotatingTriangle<P, V> {
        self.triangle
    }

    pub closed spec fn is_released(&self) -> bool {
        self.released
    }

    /// A canvas that owns a freshly built triangle.
    pub fn new(triangle: RotatingTriangle<P, V>) -> (r: Self)
        ensures
            r.triangle() == triangle,
            !r.is_released(),
    {
        Canvas { triangle, released: false }
    }

    /// Whether the GPU objects were released.
    pub fn released(&self) -> (r: bool)
        ensures
            r == self.is_released(),
    {
        self.released
    }

    /// The calls that draw this frame with rotation `angle`; none once the
    /// triangle is released, so that released objects are never used.
    pub fn paint<S, A: Copy>(&self, angle: A) -> (r: Vec<GlCall<P, S, V, A>>)
        ensures
            r@ == (if self.is_released() {
                Seq::empty()
            } else {
                self.triangle().paint_calls::<S, A>(angle)
            }),
    {
        if self.released {
            Vec::new()
        } else {
            self.triangle.paint(angle)
        }
    }

    /// The calls that release the triangle when the application exits.
    /// `has_context` tells whether a GL context exists to release them in;
    /// without one, or when they were released before, nothing is done.
    pub fn release<S, A>(&mut self, has_context: bool) -> (r: Vec<GlCall<P, S, V, A>>)
        ensures
            final(self).triangle() == old(self).triangle(),
            final(self).is_released() == (old(self).is_released() || has_context),
            r@ == (if has_context && !old(self).is_released() {
                old(self).triangle().destroy_calls::<S, A>()
            } else {
                Seq::empty()
            }),
    {
        if has_context && !self.released {
            self.released = true;
            self.triangle.destroy()
        } else {
            Vec::new()
        }
    }
}

} // verus!
