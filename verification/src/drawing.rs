//! The per-frame drawing context: camera forking, shape drawing, and the
//! text and coordinate queries forwarded to the canvas.

use vstd::prelude::*;
use crate::canvas::{
    CHAR_WIDTH, Canvas, HorizontalAlignment, LINE_HEIGHT, MAX_ZOOM, Text, VerticalAlignment,
    ZOOM_UNIT, max_line_chars, spec_aligned_x, spec_aligned_y,
    spec_map_to_screen, spec_screen_to_map,
};
use crate::geometry::{
    Bounds, Circle, Distance, Line, MAX_COORD, Polygon, Pt2D, ScreenPt, TRIANGLES_PER_CIRCLE,
    arrow_head_triangle, circle_triangles, div_trunc, lemma_abs_mul_le, lemma_div_trunc_bound,
    rect_triangles, spec_div_trunc, thick_line_triangles,
};
use crate::render::{
    Color, Display, DrawParameters, Drawable, Frame, MAX_BATCH, MAX_TRIANGLES, Prerender, Program,
    Uniforms, Vertex, batch_vertices, deref_list, poly_vertices, tris_vertices,
};

verus! {

/// The uniforms that show the canvas's persistent camera.
pub open spec fn camera_uniforms(c: Canvas) -> Uniforms {
    Uniforms {
        cam_x: c.cam_x,
        cam_y: c.cam_y,
        cam_zoom: c.cam_zoom,
        window_width: c.window_width,
        window_height: c.window_height,
    }
}

/// The identity screen-space transform: no offset and a zoom of one, so
/// geometry is drawn in window units.
pub open spec fn screenspace_uniforms(c: Canvas) -> Uniforms {
    Uniforms {
        cam_x: 0,
        cam_y: 0,
        cam_zoom: ZOOM_UNIT,
        window_width: c.window_width,
        window_height: c.window_height,
    }
}

/// The transform a fork installs: the offset that renders `map_pt` at
/// `screen_pt` under `zoom`.
pub open spec fn fork_uniforms(c: Canvas, map_pt: Pt2D, screen_pt: ScreenPt, zoom: i64) -> Uniforms {
    Uniforms {
        cam_x: (spec_div_trunc(map_pt.x * zoom, ZOOM_UNIT as int) - screen_pt.x) as i64,
        cam_y: (spec_div_trunc(map_pt.y * zoom, ZOOM_UNIT as int) - screen_pt.y) as i64,
        cam_zoom: zoom,
        window_width: c.window_width,
        window_height: c.window_height,
    }
}

/// The transform `unfork` installs, whatever transform was active before: the
/// canvas's persistent camera.
pub open spec fn uniforms_after_unfork(c: Canvas, prior: Uniforms) -> Uniforms {
    camera_uniforms(c)
}

/// Where a transform renders a map point on screen.
pub open spec fn spec_render_at(u: Uniforms, pt: Pt2D) -> ScreenPt {
    ScreenPt {
        x: (spec_div_trunc(pt.x * u.cam_zoom, ZOOM_UNIT as int) - u.cam_x) as i64,
        y: (spec_div_trunc(pt.y * u.cam_zoom, ZOOM_UNIT as int) - u.cam_y) as i64,
    }
}

/// The vertex buffer of a rounded line: the thick body, then a cap circle at
/// each endpoint, all in one batch.
pub open spec fn rounded_line_vertices(color: Color, l: Line, t: int) -> Seq<Vertex> {
    let half = t / 2;
    let cap1 = Circle { center: l.pt1, radius: (Distance { units: half as i64 }) };
    let cap2 = Circle { center: l.pt2, radius: (Distance { units: half as i64 }) };
    tris_vertices(color, thick_line_triangles(l, half)) + tris_vertices(
        color,
        circle_triangles(cap1),
    ) + tris_vertices(color, circle_triangles(cap2))
}

/// The vertex buffer of an arrow: the thick body, then the head triangle, in
/// one batch.
pub open spec fn arrow_vertices(color: Color, l: Line, t: int) -> Seq<Vertex> {
    tris_vertices(color, thick_line_triangles(l, t / 2)) + tris_vertices(
        color,
        seq![arrow_head_triangle(l, t)],
    )
}

/// The vertex buffer of a text block's background box with top-left corner
/// `(x, y)`.
pub open spec fn text_box_vertices(txt: Text, x: int, y: int) -> Seq<Vertex> {
    tris_vertices(
        txt.bg_color,
        rect_triangles(
            x,
            y,
            CHAR_WIDTH * max_line_chars(txt.lines@),
            LINE_HEIGHT * txt.lines@.len(),
        ),
    )
}

/// Pairing any fork with an `unfork` restores the canvas's persistent camera
/// transform, whatever the forked transform was.
pub proof fn lemma_fork_then_unfork(
    c: Canvas,
    map_pt: Pt2D,
    screen_pt: ScreenPt,
    zoom: i64,
)
    ensures
        uniforms_after_unfork(c, fork_uniforms(c, map_pt, screen_pt, zoom)) == camera_uniforms(c),
{
}

/// The screen-space transform is the identity: offset zero and a zoom of one,
/// independent of every canvas camera.
pub proof fn lemma_screenspace_is_identity(c: Canvas)
    ensures
        screenspace_uniforms(c).cam_x == 0,
        screenspace_uniforms(c).cam_y == 0,
        screenspace_uniforms(c).cam_zoom == ZOOM_UNIT,
{
}

/// A forked transform renders its anchor map point exactly at its anchor
/// screen point.
pub proof fn lemma_fork_places_point(c: Canvas, map_pt: Pt2D, screen_pt: ScreenPt, zoom: i64)
    requires
        map_pt.wf(),
        screen_pt.wf(),
        1 <= zoom <= MAX_ZOOM,
    ensures
        spec_render_at(fork_uniforms(c, map_pt, screen_pt, zoom), map_pt) == screen_pt,
{
    lemma_abs_mul_le(map_pt.x as int, zoom as int, MAX_COORD as int, MAX_ZOOM as int);
    lemma_abs_mul_le(map_pt.y as int, zoom as int, MAX_COORD as int, MAX_ZOOM as int);
    lemma_div_trunc_bound(map_pt.x * zoom, ZOOM_UNIT as int, 0x80_0000_0000);
    lemma_div_trunc_bound(map_pt.y * zoom, ZOOM_UNIT as int, 0x80_0000_0000);
}

/// The camera transform renders a map point exactly where the canvas's own
/// coordinate conversion places it.
pub proof fn lemma_camera_renders_as_canvas(c: Canvas, pt: Pt2D)
    ensures
        spec_render_at(camera_uniforms(c), pt) == spec_map_to_screen(c, pt),
{
}

/// A per-frame drawing context: owns the frame's recording render target,
/// borrows the persistent canvas, device and shader, and tracks the active
/// camera transform and instrumentation counters.
pub struct GfxCtx<'a> {
    pub display: &'a Display,
    pub target: Frame,
    pub program: &'a Program,
    pub uniforms: Uniforms,
    pub params: DrawParameters,
    pub canvas: &'a Canvas,
    pub num_new_uploads: usize,
    pub num_draw_calls: usize,
}

impl<'a> GfxCtx<'a> {
    /// The counters have room for one more draw.
    pub open spec fn can_draw(self) -> bool {
        &&& self.num_new_uploads < usize::MAX
        &&& self.num_draw_calls < usize::MAX
    }

    /// Everything a camera operation must leave alone: the recorded frame,
    /// the counters, and the borrowed surroundings.
    pub open spec fn same_frame(self, new_g: GfxCtx<'a>) -> bool {
        &&& new_g.target.clear_color == self.target.clear_color
        &&& new_g.target.draw_calls@ == self.target.draw_calls@
        &&& new_g.num_new_uploads == self.num_new_uploads
        &&& new_g.num_draw_calls == self.num_draw_calls
        &&& new_g.params == self.params
        &&& new_g.canvas == self.canvas
        &&& new_g.program == self.program
        &&& new_g.display == self.display
    }

    /// The one-call postcondition every shape-drawing method shares: one new
    /// upload, one new draw call carrying exactly `verts` under the current
    /// transform and blend parameters, and nothing else changed.
    pub open spec fn drew_batch(self, new_g: GfxCtx<'a>, verts: Seq<Vertex>) -> bool {
        &&& new_g.num_new_uploads == self.num_new_uploads + 1
        &&& new_g.num_draw_calls == self.num_draw_calls + 1
        &&& new_g.uniforms == self.uniforms
        &&& new_g.params == self.params
        &&& new_g.canvas == self.canvas
        &&& new_g.program == self.program
        &&& new_g.display == self.display
        &&& new_g.target.clear_color == self.target.clear_color
        &&& new_g.target.draw_calls@.len() == self.target.draw_calls@.len() + 1
        &&& new_g.target.draw_calls@.drop_last() == self.target.draw_calls@
        &&& new_g.target.draw_calls@.last().program == *self.program
        &&& new_g.target.draw_calls@.last().uniforms == self.uniforms
        &&& new_g.target.draw_calls@.last().params == self.params
        &&& new_g.target.draw_calls@.last().vertices@ == verts
        &&& new_g.target.draw_calls@.last().num_indices == verts.len()
    }

    /// The postcondition of every text-box draw: one batched call of the
    /// box's vertices in screen space, and the camera transform restored to
    /// the canvas's persistent camera afterwards.
    pub open spec fn drew_text_box(self, new_g: GfxCtx<'a>, txt: Text, x: int, y: int) -> bool {
        &&& new_g.num_new_uploads == self.num_new_uploads + 1
        &&& new_g.num_draw_calls == self.num_draw_calls + 1
        &&& new_g.uniforms == camera_uniforms(*self.canvas)
        &&& new_g.params == self.params
        &&& new_g.canvas == self.canvas
        &&& new_g.program == self.program
        &&& new_g.display == self.display
        &&& new_g.target.clear_color == self.target.clear_color
        &&& new_g.target.draw_calls@.len() == self.target.draw_calls@.len() + 1
        &&& new_g.target.draw_calls@.drop_last() == self.target.draw_calls@
        &&& new_g.target.draw_calls@.last().program == *self.program
        &&& new_g.target.draw_calls@.last().uniforms == screenspace_uniforms(*self.canvas)
        &&& new_g.target.draw_calls@.last().params == self.params
        &&& new_g.target.draw_calls@.last().vertices@ == text_box_vertices(txt, x, y)
        &&& new_g.target.draw_calls@.last().num_indices == text_box_vertices(txt, x, y).len()
    }

    /// Build a context for one frame: the camera transform starts as the
    /// canvas's persistent camera, alpha blending is on, and the counters are
    /// zero.
    pub fn new(
        canvas: &'a Canvas,
        display: &'a Display,
        target: Frame,
        program: &'a Program,
    ) -> (g: GfxCtx<'a>)
        ensures
            g.uniforms == camera_uniforms(*canvas),
            g.params == (DrawParameters { alpha_blending: true }),
            g.num_new_uploads == 0,
            g.num_draw_calls == 0,
            g.canvas == canvas,
            g.display == display,
            g.program == program,
            g.target.clear_color == target.clear_color,
            g.target.draw_calls@ == target.draw_calls@,
    {
        let params = DrawParameters { alpha_blending: true };
        let uniforms = Uniforms {
            cam_x: canvas.cam_x,
            cam_y: canvas.cam_y,
            cam_zoom: canvas.cam_zoom,
            window_width: canvas.window_width,
            window_height: canvas.window_height,
        };
        GfxCtx {
            display,
            target,
            program,
            uniforms,
            params,
            canvas,
            num_new_uploads: 0,
            num_draw_calls: 0,
        }
    }

    /// Replace the active transform so that `top_left_map` renders at
    /// `top_left_screen` under `zoom`. The caller must later call `unfork`.
    pub fn fork(&mut self, top_left_map: Pt2D, top_left_screen: ScreenPt, zoom: i64)
        requires
            top_left_map.wf(),
            top_left_screen.wf(),
            1 <= zoom <= MAX_ZOOM,
        ensures
            final(self).uniforms == fork_uniforms(
                *old(self).canvas,
                top_left_map,
                top_left_screen,
                zoom,
            ),
            old(self).same_frame(*final(self)),
    {
        proof {
            lemma_abs_mul_le(top_left_map.x as int, zoom as int, MAX_COORD as int, MAX_ZOOM as int);
            lemma_abs_mul_le(top_left_map.y as int, zoom as int, MAX_COORD as int, MAX_ZOOM as int);
            lemma_div_trunc_bound(top_left_map.x * zoom, ZOOM_UNIT as int, 0x80_0000_0000);
            lemma_div_trunc_bound(top_left_map.y * zoom, ZOOM_UNIT as int, 0x80_0000_0000);
        }
        let cam_x: i64 = div_trunc(top_left_map.x * zoom, ZOOM_UNIT) - top_left_screen.x;
        let cam_y: i64 = div_trunc(top_left_map.y * zoom, ZOOM_UNIT) - top_left_screen.y;
        self.uniforms = Uniforms {
            cam_x,
            cam_y,
            cam_zoom: zoom,
            window_width: self.canvas.window_width,
            window_height: self.canvas.window_height,
        };
    }

    /// Replace the active transform with the identity, to draw directly in
    /// screen coordinates: offset `(0, 0)` and a zoom of one, whatever the
    /// prior state was. The caller must later call `unfork`.
    pub fn fork_screenspace(&mut self)
        ensures
            final(self).uniforms == screenspace_uniforms(*old(self).canvas),
            final(self).uniforms.cam_x == 0,
            final(self).uniforms.cam_y == 0,
            final(self).uniforms.cam_zoom == ZOOM_UNIT,
            old(self).same_frame(*final(self)),
    {
        self.uniforms = Uniforms {
            cam_x: 0,
            cam_y: 0,
            cam_zoom: ZOOM_UNIT,
            window_width: self.canvas.window_width,
            window_height: self.canvas.window_height,
        };
    }

    /// Restore the transform from the canvas's persistent camera state.
    pub fn unfork(&mut self)
        ensures
            final(self).uniforms == uniforms_after_unfork(*old(self).canvas, old(self).uniforms),
            final(self).uniforms == camera_uniforms(*old(self).canvas),
            old(self).same_frame(*final(self)),
    {
        self.uniforms = Uniforms {
            cam_x: self.canvas.cam_x,
            cam_y: self.canvas.cam_y,
            cam_zoom: self.canvas.cam_zoom,
            window_width: self.canvas.window_width,
            window_height: self.canvas.window_height,
        };
    }

    /// Clear the render target to `color`, bypassing gamma post-processing.
    pub fn clear(&mut self, color: Color)
        ensures
            final(self).target.clear_color == Some(color),
            final(self).target.draw_calls@ == old(self).target.draw_calls@,
            final(self).uniforms == old(self).uniforms,
            final(self).params == old(self).params,
            final(self).canvas == old(self).canvas,
            final(self).program == old(self).program,
            final(self).display == old(self).display,
            final(self).num_new_uploads == old(self).num_new_uploads,
            final(self).num_draw_calls == old(self).num_draw_calls,
    {
        self.target.clear_color_srgb(color);
    }

    /// Issue a draw call for already-uploaded geometry with the current
    /// shader, transform and blend parameters.
    pub fn redraw(&mut self, obj: &Drawable)
        requires
            old(self).num_draw_calls < usize::MAX,
        ensures
            final(self).num_draw_calls == old(self).num_draw_calls + 1,
            final(self).num_new_uploads == old(self).num_new_uploads,
            final(self).uniforms == old(self).uniforms,
            final(self).params == old(self).params,
            final(self).canvas == old(self).canvas,
            final(self).program == old(self).program,
            final(self).display == old(self).display,
            final(self).target.clear_color == old(self).target.clear_color,
            final(self).target.draw_calls@.len() == old(self).target.draw_calls@.len() + 1,
            final(self).target.draw_calls@.drop_last() == old(self).target.draw_calls@,
            final(self).target.draw_calls@.last().program == *old(self).program,
            final(self).target.draw_calls@.last().uniforms == old(self).uniforms,
            final(self).target.draw_calls@.last().params == old(self).params,
            final(self).target.draw_calls@.last().vertices@ == obj.vertices@,
            final(self).target.draw_calls@.last().num_indices == obj.indices@.len(),
    {
        self.target.draw(obj, self.program, &self.uniforms, &self.params);
        self.num_draw_calls = self.num_draw_calls + 1;
    }

    /// Upload one colored polygon and draw it.
    pub fn draw_polygon(&mut self, color: Color, poly: &Polygon)
        requires
            old(self).can_draw(),
            poly.triangles@.len() <= MAX_TRIANGLES,
        ensures
            old(self).drew_batch(*final(self), poly_vertices(color, *poly)),
    {
        let prerender = Prerender { display: self.display };
        let mut list: Vec<(Color, &Polygon)> = Vec::new();
        list.push((color, poly));
        proof {
            assert(list@[0].1.triangles@.len() <= MAX_TRIANGLES);
            let dl = deref_list(list@);
            assert(dl =~= seq![(color, *poly)]);
            assert(dl.drop_last() =~= Seq::<(Color, Polygon)>::empty());
            assert(dl.last() == (color, *poly));
            assert(batch_vertices(Seq::<(Color, Polygon)>::empty()) == Seq::<Vertex>::empty());
            assert(batch_vertices(dl) == batch_vertices(dl.drop_last()) + poly_vertices(
                color,
                *poly,
            ));
            assert(batch_vertices(dl) =~= poly_vertices(color, *poly));
        }
        let obj = prerender.upload_borrowed(list);
        self.num_new_uploads = self.num_new_uploads + 1;
        self.redraw(&obj);
    }

    /// Upload a list of colored polygons as one batch and draw it with a
    /// single call.
    pub fn draw_polygon_batch(&mut self, list: Vec<(Color, &Polygon)>)
        requires
            old(self).can_draw(),
            list@.len() <= MAX_BATCH,
            forall|i: int|
                0 <= i < list@.len() ==> (#[trigger] list@[i]).1.triangles@.len()
                    <= MAX_TRIANGLES,
        ensures
            old(self).drew_batch(*final(self), batch_vertices(deref_list(list@))),
    {
        let prerender = Prerender { display: self.display };
        let obj = prerender.upload_borrowed(list);
        self.num_new_uploads = self.num_new_uploads + 1;
        self.redraw(&obj);
    }

    /// Tessellate a line `thickness` units wide and draw it.
    pub fn draw_line(&mut self, color: Color, thickness: Distance, line: &Line)
        requires
            old(self).can_draw(),
            line.wf(),
            thickness.wf(),
            line.pt1 != line.pt2,
        ensures
            old(self).drew_batch(
                *final(self),
                tris_vertices(color, thick_line_triangles(*line, thickness.units as int / 2)),
            ),
    {
        let poly = line.make_polygons(thickness);
        self.draw_polygon(color, &poly);
    }

    /// Tessellate a circle and draw it.
    pub fn draw_circle(&mut self, color: Color, circle: &Circle)
        requires
            old(self).can_draw(),
            circle.wf(),
        ensures
            old(self).drew_batch(*final(self), tris_vertices(color, circle_triangles(*circle))),
    {
        let poly = circle.to_polygon(TRIANGLES_PER_CIRCLE);
        self.draw_polygon(color, &poly);
    }

    /// Draw a thick line with rounded ends: one batched call covering the
    /// body quad and a cap circle at each endpoint, three shape components in
    /// all.
    pub fn draw_rounded_line(&mut self, color: Color, thickness: Distance, line: &Line)
        requires
            old(self).can_draw(),
            line.wf(),
            thickness.wf(),
            line.pt1 != line.pt2,
        ensures
            old(self).drew_batch(
                *final(self),
                rounded_line_vertices(color, *line, thickness.units as int),
            ),
            final(self).target.draw_calls@.last().num_indices == 3 * (2 + 2
                * TRIANGLES_PER_CIRCLE),
    {
        let body_poly = line.make_polygons(thickness);
        let cap_radius = thickness.half();
        let cap1_circle = Circle::new(line.pt1(), cap_radius);
        let cap2_circle = Circle::new(line.pt2(), cap_radius);
        let cap1_poly = cap1_circle.to_polygon(TRIANGLES_PER_CIRCLE);
        let cap2_poly = cap2_circle.to_polygon(TRIANGLES_PER_CIRCLE);
        let mut list: Vec<(Color, &Polygon)> = Vec::new();
        list.push((color, &body_poly));
        list.push((color, &cap1_poly));
        list.push((color, &cap2_poly));
        proof {
            assert(forall|i: int|
                0 <= i < list@.len() ==> (#[trigger] list@[i]).1.triangles@.len()
                    <= MAX_TRIANGLES);
            let dl = deref_list(list@);
            let e0 = (color, body_poly);
            let e1 = (color, cap1_poly);
            let e2 = (color, cap2_poly);
            assert(dl =~= seq![e0, e1, e2]);
            let s2 = dl.drop_last();
            let s1 = s2.drop_last();
            assert(s2 =~= seq![e0, e1]);
            assert(dl.last() == e2);
            assert(s1 =~= seq![e0]);
            assert(s2.last() == e1);
            assert(s1.drop_last() =~= Seq::<(Color, Polygon)>::empty());
            assert(s1.last() == e0);
            assert(batch_vertices(Seq::<(Color, Polygon)>::empty()) == Seq::<Vertex>::empty());
            assert(batch_vertices(s1) == batch_vertices(s1.drop_last()) + poly_vertices(
                color,
                body_poly,
            ));
            assert(batch_vertices(s2) == batch_vertices(s1) + poly_vertices(color, cap1_poly));
            assert(batch_vertices(dl) == batch_vertices(s2) + poly_vertices(color, cap2_poly));
            assert(batch_vertices(dl) =~= rounded_line_vertices(
                color,
                *line,
                thickness.units as int,
            ));
            crate::render::lemma_tris_vertices_len(
                color,
                thick_line_triangles(*line, thickness.units as int / 2),
            );
            crate::render::lemma_tris_vertices_len(color, circle_triangles(cap1_circle));
            crate::render::lemma_tris_vertices_len(color, circle_triangles(cap2_circle));
        }
        self.draw_polygon_batch(list);
    }

    /// Draw an arrow along the line: the thick body and the head triangle,
    /// uploaded and drawn as one batch.
    pub fn draw_arrow(&mut self, color: Color, thickness: Distance, line: &Line)
        requires
            old(self).can_draw(),
            line.wf(),
            thickness.wf(),
            line.pt1 != line.pt2,
        ensures
            old(self).drew_batch(
                *final(self),
                arrow_vertices(color, *line, thickness.units as int),
            ),
            final(self).target.draw_calls@.last().num_indices == 9,
    {
        let polygons = line.make_arrow(thickness);
        let body_poly: &Polygon = &polygons[0];
        let head_poly: &Polygon = &polygons[1];
        let mut list: Vec<(Color, &Polygon)> = Vec::new();
        list.push((color, body_poly));
        list.push((color, head_poly));
        proof {
            assert(forall|i: int|
                0 <= i < list@.len() ==> (#[trigger] list@[i]).1.triangles@.len()
                    <= MAX_TRIANGLES);
            let dl = deref_list(list@);
            let e0 = (color, polygons@[0]);
            let e1 = (color, polygons@[1]);
            assert(dl =~= seq![e0, e1]);
            let s1 = dl.drop_last();
            assert(s1 =~= seq![e0]);
            assert(dl.last() == e1);
            assert(s1.drop_last() =~= Seq::<(Color, Polygon)>::empty());
            assert(s1.last() == e0);
            assert(batch_vertices(Seq::<(Color, Polygon)>::empty()) == Seq::<Vertex>::empty());
            assert(batch_vertices(s1) == batch_vertices(s1.drop_last()) + poly_vertices(
                color,
                polygons@[0],
            ));
            assert(batch_vertices(dl) == batch_vertices(s1) + poly_vertices(color, polygons@[1]));
            assert(batch_vertices(dl) =~= arrow_vertices(color, *line, thickness.units as int));
            crate::render::lemma_tris_vertices_len(
                color,
                thick_line_triangles(*line, thickness.units as int / 2),
            );
            crate::render::lemma_tris_vertices_len(
                color,
                seq![arrow_head_triangle(*line, thickness.units as int)],
            );
        }
        self.draw_polygon_batch(list);
    }

    /// Draw `txt` pinned to the window edges given by `align`, forwarding the
    /// layout to the canvas.
    pub fn draw_blocking_text(
        &mut self,
        txt: Text,
        align: (HorizontalAlignment, VerticalAlignment),
    )
        requires
            old(self).can_draw(),
            old(self).canvas.wf(),
            txt.wf(),
        ensures
            old(self).drew_text_box(
                *final(self),
                txt,
                spec_aligned_x(
                    align.0,
                    old(self).canvas.window_width as int,
                    CHAR_WIDTH * max_line_chars(txt.lines@),
                ),
                spec_aligned_y(
                    align.1,
                    old(self).canvas.window_height as int,
                    LINE_HEIGHT * txt.lines@.len(),
                ),
            ),
    {
        let canvas = self.canvas;
        canvas.draw_blocking_text(self, txt, align);
    }

    /// Draw `txt` with its box's top-left at the screen position of `map_pt`.
    pub fn draw_text_at(&mut self, txt: Text, map_pt: Pt2D)
        requires
            old(self).can_draw(),
            old(self).canvas.wf(),
            txt.wf(),
            map_pt.wf(),
        ensures
            old(self).drew_text_box(
                *final(self),
                txt,
                spec_map_to_screen(*old(self).canvas, map_pt).x as int,
                spec_map_to_screen(*old(self).canvas, map_pt).y as int,
            ),
    {
        let canvas = self.canvas;
        canvas.draw_text_at(self, txt, map_pt);
    }

    /// Draw `txt` with its box's top-left at a screen point.
    pub fn draw_text_at_screenspace_topleft(&mut self, txt: Text, pt: ScreenPt)
        requires
            old(self).can_draw(),
            old(self).canvas.wf(),
            txt.wf(),
            pt.wf(),
        ensures
            old(self).drew_text_box(*final(self), txt, pt.x as int, pt.y as int),
    {
        let canvas = self.canvas;
        canvas.draw_text_at_screenspace_topleft(self, txt, pt);
    }

    /// Draw `txt` as a tooltip one line below the cursor.
    pub fn draw_mouse_tooltip(&mut self, txt: Text)
        requires
            old(self).can_draw(),
            old(self).canvas.wf(),
            txt.wf(),
        ensures
            old(self).drew_text_box(
                *final(self),
                txt,
                old(self).canvas.cursor_x as int,
                old(self).canvas.cursor_y + LINE_HEIGHT,
            ),
    {
        let canvas = self.canvas;
        canvas.draw_mouse_tooltip(self, txt);
    }

    /// Measure a text block, forwarding to the canvas.
    pub fn text_dims(&self, txt: &Text) -> (dims: (i64, i64))
        requires
            txt.wf(),
        ensures
            dims.0 == CHAR_WIDTH * max_line_chars(txt.lines@),
            dims.1 == LINE_HEIGHT * txt.lines@.len(),
    {
        self.canvas.text_dims(txt)
    }

    /// The map-space rectangle the window shows, forwarding to the canvas.
    pub fn get_screen_bounds(&self) -> (b: Bounds)
        requires
            self.canvas.wf(),
        ensures
            b.min_x == spec_screen_to_map(*self.canvas, (ScreenPt { x: 0, y: 0 })).x,
            b.min_y == spec_screen_to_map(*self.canvas, (ScreenPt { x: 0, y: 0 })).y,
            b.max_x == spec_screen_to_map(
                *self.canvas,
                (ScreenPt { x: self.canvas.window_width, y: self.canvas.window_height }),
            ).x,
            b.max_y == spec_screen_to_map(
                *self.canvas,
                (ScreenPt { x: self.canvas.window_width, y: self.canvas.window_height }),
            ).y,
    {
        self.canvas.get_screen_bounds()
    }

    /// Convert a screen point to map space, forwarding to the canvas.
    pub fn screen_to_map(&self, pt: ScreenPt) -> (p: Pt2D)
        requires
            self.canvas.wf(),
            pt.wf(),
        ensures
            p == spec_screen_to_map(*self.canvas, pt),
    {
        self.canvas.screen_to_map(pt)
    }

    /// The cursor's map-space position, forwarding to the canvas.
    pub fn get_cursor_in_map_space(&self) -> (r: Option<Pt2D>)
        requires
            self.canvas.wf(),
        ensures
            self.canvas.cursor_on_map ==> r == Some(
                spec_screen_to_map(
                    *self.canvas,
                    (ScreenPt { x: self.canvas.cursor_x, y: self.canvas.cursor_y }),
                ),
            ),
            !self.canvas.cursor_on_map ==> r is None,
    {
        self.canvas.get_cursor_in_map_space()
    }
}

impl Canvas {
    /// Draw `txt`'s background box with its top-left corner at `(x, y)` in
    /// screen space, restoring the camera transform afterwards.
    fn draw_text_box<'a>(&self, g: &mut GfxCtx<'a>, txt: &Text, x: i64, y: i64)
        requires
            old(g).can_draw(),
            *old(g).canvas == *self,
            txt.wf(),
            -0x100_0000_0000 <= x <= 0x100_0000_0000,
            -0x100_0000_0000 <= y <= 0x100_0000_0000,
        ensures
            old(g).drew_text_box(*final(g), *txt, x as int, y as int),
    {
        let dims = self.text_dims(txt);
        g.fork_screenspace();
        let rect = Polygon::rectangle(x, y, dims.0, dims.1);
        g.draw_polygon(txt.bg_color, &rect);
        g.unfork();
        proof {
            assert(poly_vertices(txt.bg_color, rect) == text_box_vertices(
                *txt,
                x as int,
                y as int,
            ));
        }
    }

    /// Lay out `txt` against the window edges given by `align` and draw its
    /// box, recursively through the same frame context.
    pub fn draw_blocking_text<'a>(
        &self,
        g: &mut GfxCtx<'a>,
        txt: Text,
        align: (HorizontalAlignment, VerticalAlignment),
    )
        requires
            old(g).can_draw(),
            *old(g).canvas == *self,
            self.wf(),
            txt.wf(),
        ensures
            old(g).drew_text_box(
                *final(g),
                txt,
                spec_aligned_x(
                    align.0,
                    self.window_width as int,
                    CHAR_WIDTH * max_line_chars(txt.lines@),
                ),
                spec_aligned_y(
                    align.1,
                    self.window_height as int,
                    LINE_HEIGHT * txt.lines@.len(),
                ),
            ),
    {
        let dims = self.text_dims(&txt);
        let x: i64 = match align.0 {
            HorizontalAlignment::Left => 0,
            HorizontalAlignment::Center => div_trunc(self.window_width - dims.0, 2),
            HorizontalAlignment::Right => self.window_width - dims.0,
        };
        let y: i64 = match align.1 {
            VerticalAlignment::Top => 0,
            VerticalAlignment::Center => div_trunc(self.window_height - dims.1, 2),
            VerticalAlignment::Bottom => self.window_height - dims.1,
        };
        self.draw_text_box(g, &txt, x, y);
    }

    /// Draw `txt`'s box at the screen position of a map point, recursively
    /// through the same frame context.
    pub fn draw_text_at<'a>(&self, g: &mut GfxCtx<'a>, txt: Text, map_pt: Pt2D)
        requires
            old(g).can_draw(),
            *old(g).canvas == *self,
            self.wf(),
            txt.wf(),
            map_pt.wf(),
        ensures
            old(g).drew_text_box(
                *final(g),
                txt,
                spec_map_to_screen(*self, map_pt).x as int,
                spec_map_to_screen(*self, map_pt).y as int,
            ),
    {
        let pt = self.map_to_screen(map_pt);
        self.draw_text_box(g, &txt, pt.x, pt.y);
    }

    /// Draw `txt`'s box at a screen point, recursively through the same frame
    /// context.
    pub fn draw_text_at_screenspace_topleft<'a>(&self, g: &mut GfxCtx<'a>, txt: Text, pt: ScreenPt)
        requires
            old(g).can_draw(),
            *old(g).canvas == *self,
            txt.wf(),
            pt.wf(),
        ensures
            old(g).drew_text_box(*final(g), txt, pt.x as int, pt.y as int),
    {
        self.draw_text_box(g, &txt, pt.x, pt.y);
    }

    /// Draw `txt` as a tooltip one line below the cursor, recursively through
    /// the same frame context.
    pub fn draw_mouse_tooltip<'a>(&self, g: &mut GfxCtx<'a>, txt: Text)
        requires
            old(g).can_draw(),
            *old(g).canvas == *self,
            self.wf(),
            txt.wf(),
        ensures
            old(g).drew_text_box(
                *final(g),
                txt,
                self.cursor_x as int,
                self.cursor_y + LINE_HEIGHT,
            ),
    {
        let y: i64 = self.cursor_y + LINE_HEIGHT;
        self.draw_text_box(g, &txt, self.cursor_x, y);
    }
}

} // verus!
