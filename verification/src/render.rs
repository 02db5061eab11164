//! The render-target model: colors, uniforms, uploaded geometry, and a
//! per-frame target that records every draw call issued against it. The
//! application hands each recorded call to its GPU backend.

use vstd::prelude::*;
use crate::geometry::{Polygon, Triangle};

verus! {

/// Most entries a single batched upload may hold.
pub const MAX_BATCH: usize = 256;

/// Most triangles a polygon handed to an upload may hold.
pub const MAX_TRIANGLES: usize = 0x10_0000;

/// An RGBA color, eight bits per channel.
#[derive(Clone, Copy, PartialEq, Eq, Structural, Debug)]
pub struct Color {
    pub r: u8,
    pub g: u8,
    pub b: u8,
    pub a: u8,
}

impl Color {
    pub fn rgba(r: u8, g: u8, b: u8, a: u8) -> (c: Color)
        ensures
            c == (Color { r, g, b, a }),
    {
        Color { r, g, b, a }
    }
}

/// A handle to the device that holds uploaded buffers.
#[derive(Clone, Copy, PartialEq, Eq, Structural, Debug)]
pub struct Display {
    pub id: u64,
}

/// A handle to a compiled shader program.
#[derive(Clone, Copy, PartialEq, Eq, Structural, Debug)]
pub struct Program {
    pub id: u64,
}

/// The shader-global values supplied once per draw call: the camera transform
/// triple (offset in units, zoom in `ZOOM_UNIT` steps) and the window size.
#[derive(Clone, Copy, PartialEq, Eq, Structural, Debug)]
pub struct Uniforms {
    pub cam_x: i64,
    pub cam_y: i64,
    pub cam_zoom: i64,
    pub window_width: i64,
    pub window_height: i64,
}

/// Fixed-function state for a draw call; alpha blending is the only state
/// this library chooses.
#[derive(Clone, Copy, PartialEq, Eq, Structural, Debug)]
pub struct DrawParameters {
    pub alpha_blending: bool,
}

/// One vertex as uploaded: a map-space position and its fill color.
#[derive(Clone, Copy, PartialEq, Eq, Structural, Debug)]
pub struct Vertex {
    pub x: i64,
    pub y: i64,
    pub color: Color,
}

/// An uploaded vertex/index buffer pair, ready for a draw call.
#[derive(Clone, Debug)]
pub struct Drawable {
    pub vertices: Vec<Vertex>,
    pub indices: Vec<u32>,
}

/// The three vertices of one triangle, colored `color`.
pub open spec fn triangle_vertices(color: Color, t: Triangle) -> Seq<Vertex> {
    seq![
        Vertex { x: t.pt1.x, y: t.pt1.y, color },
        Vertex { x: t.pt2.x, y: t.pt2.y, color },
        Vertex { x: t.pt3.x, y: t.pt3.y, color },
    ]
}

/// The vertices of a triangle list, in order, all colored `color`.
pub open spec fn tris_vertices(color: Color, tris: Seq<Triangle>) -> Seq<Vertex>
    decreases tris.len(),
{
    if tris.len() == 0 {
        Seq::empty()
    } else {
        tris_vertices(color, tris.drop_last()) + triangle_vertices(color, tris.last())
    }
}

/// The vertices of one colored polygon.
pub open spec fn poly_vertices(color: Color, p: Polygon) -> Seq<Vertex> {
    tris_vertices(color, p.triangles@)
}

/// The vertex buffer a batched upload of `list` produces: each entry's
/// triangles in order, each triangle as three colored vertices.
pub open spec fn batch_vertices(list: Seq<(Color, Polygon)>) -> Seq<Vertex>
    decreases list.len(),
{
    if list.len() == 0 {
        Seq::empty()
    } else {
        batch_vertices(list.drop_last()) + poly_vertices(list.last().0, list.last().1)
    }
}

/// A borrowed upload list, with the borrows resolved to values.
pub open spec fn deref_list(list: Seq<(Color, &Polygon)>) -> Seq<(Color, Polygon)> {
    list.map_values(|cp: (Color, &Polygon)| (cp.0, *cp.1))
}

/// A triangle list of length `n` flattens to exactly `3 * n` vertices.
pub proof fn lemma_tris_vertices_len(color: Color, tris: Seq<Triangle>)
    ensures
        tris_vertices(color, tris).len() == 3 * tris.len(),
    decreases tris.len(),
{
    if tris.len() > 0 {
        lemma_tris_vertices_len(color, tris.drop_last());
    }
}

/// One recorded draw call: everything that one call hands the GPU.
#[derive(Clone, Debug)]
pub struct DrawCall {
    pub program: Program,
    pub uniforms: Uniforms,
    pub params: DrawParameters,
    pub vertices: Vec<Vertex>,
    pub num_indices: usize,
}

/// A per-frame render target. It records the clear color and every draw call
/// issued during the frame, in order.
#[derive(Debug)]
pub struct Frame {
    pub clear_color: Option<Color>,
    pub draw_calls: Vec<DrawCall>,
}

impl Frame {
    pub fn new() -> (f: Frame)
        ensures
            f.clear_color is None,
            f.draw_calls@.len() == 0,
    {
        Frame { clear_color: None, draw_calls: Vec::new() }
    }

    /// Set the color the frame is cleared to, bypassing any gamma
    /// post-processing the backend would apply.
    pub fn clear_color_srgb(&mut self, color: Color)
        ensures
            final(self).clear_color == Some(color),
            final(self).draw_calls@ == old(self).draw_calls@,
    {
        self.clear_color = Some(color);
    }

    /// Record one draw call of `obj` with the given program, uniforms and
    /// fixed-function parameters.
    pub fn draw(&mut self, obj: &Drawable, program: &Program, uniforms: &Uniforms, params:
        &DrawParameters)
        ensures
            final(self).clear_color == old(self).clear_color,
            final(self).draw_calls@.len() == old(self).draw_calls@.len() + 1,
            final(self).draw_calls@.drop_last() == old(self).draw_calls@,
            final(self).draw_calls@.last().program == *program,
            final(self).draw_calls@.last().uniforms == *uniforms,
            final(self).draw_calls@.last().params == *params,
            final(self).draw_calls@.last().vertices@ == obj.vertices@,
            final(self).draw_calls@.last().num_indices == obj.indices@.len(),
    {
        let vertices = obj.vertices.clone();
        proof {
            assert(vertices@ =~= obj.vertices@);
        }
        let num_indices = obj.indices.len();
        let call = DrawCall {
            program: *program,
            uniforms: *uniforms,
            params: *params,
            vertices,
            num_indices,
        };
        self.draw_calls.push(call);
        proof {
            assert(final(self).draw_calls@.drop_last() =~= old(self).draw_calls@);
        }
    }
}

/// Uploads geometry to the device it holds.
pub struct Prerender<'a> {
    pub display: &'a Display,
}

impl<'a> Prerender<'a> {
    /// Flatten a list of colored polygons into one vertex buffer and a
    /// matching sequential index buffer.
    pub fn upload_borrowed(&self, list: Vec<(Color, &Polygon)>) -> (d: Drawable)
        requires
            list@.len() <= MAX_BATCH,
            forall|i: int|
                0 <= i < list@.len() ==> (#[trigger] list@[i]).1.triangles@.len()
                    <= MAX_TRIANGLES,
        ensures
            d.vertices@ == batch_vertices(deref_list(list@)),
            d.vertices@.len() <= 3 * MAX_BATCH * MAX_TRIANGLES,
            d.indices@.len() == d.vertices@.len(),
            forall|k: int| 0 <= k < d.indices@.len() ==> d.indices@[k] == k as u32,
    {
        let ghost bl = deref_list(list@);
        let mut vertices: Vec<Vertex> = Vec::new();
        let mut i: usize = 0;
        while i < list.len()
            invariant
                i <= list@.len(),
                list@.len() <= MAX_BATCH,
                forall|k: int|
                    0 <= k < list@.len() ==> (#[trigger] list@[k]).1.triangles@.len()
                        <= MAX_TRIANGLES,
                bl == deref_list(list@),
                vertices@ == batch_vertices(bl.take(i as int)),
                vertices@.len() <= 3 * (i as int) * (MAX_TRIANGLES as int),
            decreases list@.len() - i,
        {
            let color = list[i].0;
            let poly: &Polygon = list[i].1;
            let ghost tris = poly.triangles@;
            let mut j: usize = 0;
            while j < poly.triangles.len()
                invariant
                    j <= tris.len(),
                    tris == poly.triangles@,
                    tris.len() <= MAX_TRIANGLES,
                    vertices@ == batch_vertices(bl.take(i as int)) + tris_vertices(
                        color,
                        tris.take(j as int),
                    ),
                    batch_vertices(bl.take(i as int)).len() <= 3 * (i as int) * (
                    MAX_TRIANGLES as int),
                    vertices@.len() <= 3 * (i as int) * (MAX_TRIANGLES as int) + 3 * (j as int),
                decreases tris.len() - j,
            {
                let t = poly.triangles[j];
                vertices.push(Vertex { x: t.pt1.x, y: t.pt1.y, color });
                vertices.push(Vertex { x: t.pt2.x, y: t.pt2.y, color });
                vertices.push(Vertex { x: t.pt3.x, y: t.pt3.y, color });
                j = j + 1;
                proof {
                    assert(tris.take(j as int).drop_last() =~= tris.take(j - 1));
                    assert(tris.take(j as int).last() == tris[j - 1]);
                    assert(vertices@ =~= batch_vertices(bl.take(i as int)) + tris_vertices(
                        color,
                        tris.take(j as int),
                    ));
                }
            }
            i = i + 1;
            proof {
                assert(tris.take(tris.len() as int) =~= tris);
                assert(bl.take(i as int).drop_last() =~= bl.take(i - 1));
                assert(bl[i - 1] == (list@[i - 1].0, *list@[i - 1].1));
                assert(vertices@ =~= batch_vertices(bl.take(i as int)));
                assert(3 * (i - 1) * (MAX_TRIANGLES as int) + 3 * (MAX_TRIANGLES as int) == 3 * (
                i as int) * (MAX_TRIANGLES as int)) by (nonlinear_arith);
            }
        }
        proof {
            assert(bl.take(list@.len() as int) =~= bl);
            assert(3 * (list@.len() as int) * (MAX_TRIANGLES as int) <= 3 * (MAX_BATCH as int) * (
            MAX_TRIANGLES as int)) by (nonlinear_arith)
                requires
                    list@.len() <= MAX_BATCH,
            ;
        }
        let mut indices: Vec<u32> = Vec::new();
        let mut k: usize = 0;
        let n = vertices.len();
        while k < n
            invariant
                k <= n,
                n == vertices@.len(),
                n <= 3 * MAX_BATCH * MAX_TRIANGLES,
                indices@.len() == k,
                forall|m: int| 0 <= m < k ==> indices@[m] == m as u32,
            decreases n - k,
        {
            indices.push(k as u32);
            k = k + 1;
        }
        Drawable { vertices, indices }
    }
}

} // verus!
