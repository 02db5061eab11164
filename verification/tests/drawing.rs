use ezgui::canvas::{Canvas, HorizontalAlignment, Text, VerticalAlignment, ZOOM_UNIT};
use ezgui::drawing::GfxCtx;
use ezgui::geometry::{Circle, Distance, Line, Polygon, Pt2D, ScreenPt, TRIANGLES_PER_CIRCLE};
use ezgui::render::{Color, Display, Frame, Prerender, Program};

fn test_canvas() -> Canvas {
    Canvas {
        cam_x: 100,
        cam_y: 200,
        cam_zoom: 2048,
        window_width: 1000,
        window_height: 500,
        cursor_x: 40,
        cursor_y: 30,
        cursor_on_map: true,
    }
}

#[allow(non_snake_case)]
fn RED() -> Color {
    Color { r: 255, g: 0, b: 0, a: 255 }
}

#[test]
fn new_context_starts_on_the_camera() {
    let canvas = test_canvas();
    let display = Display { id: 1 };
    let program = Program { id: 7 };
    let g = GfxCtx::new(&canvas, &display, Frame::new(), &program);
    assert_eq!(g.uniforms.cam_x, 100);
    assert_eq!(g.uniforms.cam_y, 200);
    assert_eq!(g.uniforms.cam_zoom, 2048);
    assert_eq!(g.uniforms.window_width, 1000);
    assert_eq!(g.uniforms.window_height, 500);
    assert!(g.params.alpha_blending);
    assert_eq!(g.num_new_uploads, 0);
    assert_eq!(g.num_draw_calls, 0);
}

#[test]
fn fork_places_the_anchor_point() {
    let canvas = test_canvas();
    let display = Display { id: 1 };
    let program = Program { id: 7 };
    let mut g = GfxCtx::new(&canvas, &display, Frame::new(), &program);
    // Map point (300, 400) should render at screen point (10, 20) at zoom 1.
    g.fork(Pt2D::new(300, 400), ScreenPt::new(10, 20), ZOOM_UNIT);
    assert_eq!(g.uniforms.cam_x, 290);
    assert_eq!(g.uniforms.cam_y, 380);
    assert_eq!(g.uniforms.cam_zoom, ZOOM_UNIT);
    // Rendering the anchor: 300 * 1024 / 1024 - 290 == 10.
    assert_eq!(300 * g.uniforms.cam_zoom / ZOOM_UNIT - g.uniforms.cam_x, 10);
}

#[test]
fn fork_screenspace_is_the_identity() {
    let canvas = test_canvas();
    let display = Display { id: 1 };
    let program = Program { id: 7 };
    let mut g = GfxCtx::new(&canvas, &display, Frame::new(), &program);
    g.fork(Pt2D::new(300, 400), ScreenPt::new(10, 20), 4096);
    g.fork_screenspace();
    assert_eq!(g.uniforms.cam_x, 0);
    assert_eq!(g.uniforms.cam_y, 0);
    assert_eq!(g.uniforms.cam_zoom, ZOOM_UNIT);
}

#[test]
fn unfork_restores_the_camera() {
    let canvas = test_canvas();
    let display = Display { id: 1 };
    let program = Program { id: 7 };
    let mut g = GfxCtx::new(&canvas, &display, Frame::new(), &program);
    let before = g.uniforms;
    g.fork(Pt2D::new(300, 400), ScreenPt::new(10, 20), 4096);
    assert_ne!(g.uniforms, before);
    g.unfork();
    assert_eq!(g.uniforms, before);
}

#[test]
fn clear_sets_the_clear_color() {
    let canvas = test_canvas();
    let display = Display { id: 1 };
    let program = Program { id: 7 };
    let mut g = GfxCtx::new(&canvas, &display, Frame::new(), &program);
    g.clear(RED());
    assert_eq!(g.target.clear_color, Some(RED()));
    assert_eq!(g.num_draw_calls, 0);
}

#[test]
fn draw_polygon_uploads_once_and_draws_once() {
    let canvas = test_canvas();
    let display = Display { id: 1 };
    let program = Program { id: 7 };
    let mut g = GfxCtx::new(&canvas, &display, Frame::new(), &program);
    let p = Polygon::rectangle(0, 0, 10, 10);
    g.draw_polygon(RED(), &p);
    assert_eq!(g.num_new_uploads, 1);
    assert_eq!(g.num_draw_calls, 1);
    assert_eq!(g.target.draw_calls.len(), 1);
    let call = &g.target.draw_calls[0];
    assert_eq!(call.vertices.len(), 6);
    assert_eq!(call.num_indices, 6);
    assert_eq!(call.program, Program { id: 7 });
    assert!(call.params.alpha_blending);
    // The call went out under the camera transform.
    assert_eq!(call.uniforms.cam_x, 100);
    assert_eq!(call.uniforms.cam_zoom, 2048);
    // The vertices carry the fill color and the rectangle's corners.
    assert_eq!(call.vertices[0].x, 0);
    assert_eq!(call.vertices[0].y, 0);
    assert_eq!(call.vertices[0].color, RED());
    assert_eq!(call.vertices[1].x, 10);
    assert_eq!(call.vertices[2].y, 10);
}

#[test]
fn each_draw_call_bumps_both_counters() {
    let canvas = test_canvas();
    let display = Display { id: 1 };
    let program = Program { id: 7 };
    let mut g = GfxCtx::new(&canvas, &display, Frame::new(), &program);
    let line = Line::new(Pt2D::new(0, 0), Pt2D::new(1000, 0));
    let thickness = Distance::units(10);

    g.draw_line(RED(), thickness, &line);
    assert_eq!((g.num_new_uploads, g.num_draw_calls), (1, 1));

    g.draw_circle(RED(), &Circle::new(Pt2D::new(5, 5), Distance::units(3)));
    assert_eq!((g.num_new_uploads, g.num_draw_calls), (2, 2));

    g.draw_arrow(RED(), thickness, &line);
    assert_eq!((g.num_new_uploads, g.num_draw_calls), (3, 3));

    g.draw_rounded_line(RED(), thickness, &line);
    assert_eq!((g.num_new_uploads, g.num_draw_calls), (4, 4));

    let p = Polygon::rectangle(0, 0, 10, 10);
    g.draw_polygon(RED(), &p);
    assert_eq!((g.num_new_uploads, g.num_draw_calls), (5, 5));

    let batch = vec![(RED(), &p), (RED(), &p)];
    g.draw_polygon_batch(batch);
    assert_eq!((g.num_new_uploads, g.num_draw_calls), (6, 6));
}

#[test]
fn rounded_line_is_one_batched_call_of_three_components() {
    let canvas = test_canvas();
    let display = Display { id: 1 };
    let program = Program { id: 7 };
    let mut g = GfxCtx::new(&canvas, &display, Frame::new(), &program);
    let line = Line::new(Pt2D::new(0, 0), Pt2D::new(1000, 0));
    g.draw_rounded_line(RED(), Distance::units(10), &line);
    // One upload, one draw call.
    assert_eq!(g.num_new_uploads, 1);
    assert_eq!(g.num_draw_calls, 1);
    assert_eq!(g.target.draw_calls.len(), 1);
    // The one call covers the body quad plus two cap circles.
    let expected = 3 * (2 + 2 * TRIANGLES_PER_CIRCLE);
    let call = &g.target.draw_calls[0];
    assert_eq!(call.vertices.len(), expected);
    assert_eq!(call.num_indices, expected);
    // The body quad comes first, then the first cap's fan around pt1.
    assert_eq!(call.vertices[0].x, 0);
    assert_eq!(call.vertices[0].y, 5);
    assert_eq!(call.vertices[6].x, 0);
    assert_eq!(call.vertices[6].y, 0);
}

#[test]
fn arrow_is_one_batched_call_of_nine_vertices() {
    let canvas = test_canvas();
    let display = Display { id: 1 };
    let program = Program { id: 7 };
    let mut g = GfxCtx::new(&canvas, &display, Frame::new(), &program);
    let line = Line::new(Pt2D::new(0, 0), Pt2D::new(1000, 0));
    g.draw_arrow(RED(), Distance::units(10), &line);
    assert_eq!(g.target.draw_calls.len(), 1);
    assert_eq!(g.target.draw_calls[0].num_indices, 9);
}

#[test]
fn redraw_reuses_an_upload() {
    let canvas = test_canvas();
    let display = Display { id: 1 };
    let program = Program { id: 7 };
    let mut g = GfxCtx::new(&canvas, &display, Frame::new(), &program);
    let p = Polygon::rectangle(0, 0, 10, 10);
    let prerender = Prerender { display: &display };
    let obj = prerender.upload_borrowed(vec![(RED(), &p)]);
    g.redraw(&obj);
    g.redraw(&obj);
    assert_eq!(g.num_new_uploads, 0);
    assert_eq!(g.num_draw_calls, 2);
    assert_eq!(g.target.draw_calls.len(), 2);
}

#[test]
fn upload_builds_sequential_indices() {
    let display = Display { id: 1 };
    let prerender = Prerender { display: &display };
    let p = Polygon::rectangle(0, 0, 10, 10);
    let obj = prerender.upload_borrowed(vec![(RED(), &p)]);
    assert_eq!(obj.vertices.len(), 6);
    assert_eq!(obj.indices, vec![0, 1, 2, 3, 4, 5]);
}

#[test]
fn blocking_text_draws_centered_in_screenspace_and_restores_the_camera() {
    let canvas = test_canvas();
    let display = Display { id: 1 };
    let program = Program { id: 7 };
    let mut g = GfxCtx::new(&canvas, &display, Frame::new(), &program);
    let mut txt = Text::new(Color::rgba(0, 0, 0, 128));
    assert!(txt.add_line(String::from("hi")));
    g.draw_blocking_text(txt, (HorizontalAlignment::Center, VerticalAlignment::Top));
    assert_eq!(g.num_new_uploads, 1);
    assert_eq!(g.num_draw_calls, 1);
    let call = &g.target.draw_calls[0];
    // The box went out in screen space.
    assert_eq!(call.uniforms.cam_x, 0);
    assert_eq!(call.uniforms.cam_zoom, ZOOM_UNIT);
    // Centered: x = (1000 - 2 * 4096) / 2, at the top edge.
    assert_eq!(call.vertices[0].x, (1000 - 2 * 4096) / 2);
    assert_eq!(call.vertices[0].y, 0);
    // The camera transform is active again afterwards.
    assert_eq!(g.uniforms.cam_x, 100);
    assert_eq!(g.uniforms.cam_zoom, 2048);
}

#[test]
fn tooltip_draws_below_the_cursor() {
    let canvas = test_canvas();
    let display = Display { id: 1 };
    let program = Program { id: 7 };
    let mut g = GfxCtx::new(&canvas, &display, Frame::new(), &program);
    let mut txt = Text::new(Color::rgba(0, 0, 0, 128));
    assert!(txt.add_line(String::from("tip")));
    g.draw_mouse_tooltip(txt);
    let call = &g.target.draw_calls[0];
    assert_eq!(call.vertices[0].x, 40);
    assert_eq!(call.vertices[0].y, 30 + 8192);
    assert_eq!(g.uniforms.cam_x, 100);
}

#[test]
fn text_at_map_point_lands_at_its_screen_position() {
    let canvas = test_canvas();
    let display = Display { id: 1 };
    let program = Program { id: 7 };
    let mut g = GfxCtx::new(&canvas, &display, Frame::new(), &program);
    let mut txt = Text::new(Color::rgba(0, 0, 0, 128));
    assert!(txt.add_line(String::from("a")));
    // Map (75, 130) renders at screen (50, 60) under this camera.
    g.draw_text_at(txt, Pt2D::new(75, 130));
    let call = &g.target.draw_calls[0];
    assert_eq!(call.vertices[0].x, 50);
    assert_eq!(call.vertices[0].y, 60);
}

#[test]
fn context_queries_forward_to_the_canvas() {
    let canvas = test_canvas();
    let display = Display { id: 1 };
    let program = Program { id: 7 };
    let g = GfxCtx::new(&canvas, &display, Frame::new(), &program);
    assert_eq!(g.screen_to_map(ScreenPt::new(50, 60)), Pt2D::new(75, 130));
    assert_eq!(g.get_screen_bounds(), canvas.get_screen_bounds());
    assert_eq!(g.get_cursor_in_map_space(), Some(Pt2D::new(70, 115)));
    let mut txt = Text::new(Color::rgba(0, 0, 0, 128));
    assert!(txt.add_line(String::from("abc")));
    assert_eq!(g.text_dims(&txt), canvas.text_dims(&txt));
}

#[test]
fn fork_composed_with_unfork_equals_the_camera() {
    let canvas = test_canvas();
    let display = Display { id: 1 };
    let program = Program { id: 7 };
    let mut g1 = GfxCtx::new(&canvas, &display, Frame::new(), &program);
    let mut g2 = GfxCtx::new(&canvas, &display, Frame::new(), &program);
    // Whatever was forked in between, unfork lands on the same transform.
    g1.fork(Pt2D::new(1, 2), ScreenPt::new(3, 4), 2048);
    g1.unfork();
    g2.fork_screenspace();
    g2.unfork();
    assert_eq!(g1.uniforms, g2.uniforms);
    assert_eq!(g1.uniforms.cam_x, 100);
    assert_eq!(g1.uniforms.cam_y, 200);
    assert_eq!(g1.uniforms.cam_zoom, 2048);
}
