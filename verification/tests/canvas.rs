use ezgui::canvas::{CHAR_WIDTH, Canvas, LINE_HEIGHT, MAX_TEXT_LINES, Text};
use ezgui::geometry::{Pt2D, ScreenPt};
use ezgui::render::Color;

fn test_canvas() -> Canvas {
    Canvas {
        cam_x: 100,
        cam_y: 200,
        cam_zoom: 2048,
        window_width: 1000,
        window_height: 500,
        cursor_x: 40,
        cursor_y: 30,
        cursor_on_map: true,
    }
}

#[test]
fn screen_to_map_at_double_zoom() {
    let c = test_canvas();
    // Zoom 2048 units draws two screen units per map unit.
    let p = c.screen_to_map(ScreenPt::new(50, 60));
    assert_eq!(p, Pt2D::new(75, 130));
}

#[test]
fn map_to_screen_inverts_screen_to_map() {
    let c = test_canvas();
    let s = c.map_to_screen(Pt2D::new(75, 130));
    assert_eq!(s, ScreenPt::new(50, 60));
}

#[test]
fn screen_bounds_cover_the_window() {
    let c = test_canvas();
    let b = c.get_screen_bounds();
    assert_eq!(b.min_x, 50);
    assert_eq!(b.min_y, 100);
    assert_eq!(b.max_x, 550);
    assert_eq!(b.max_y, 350);
}

#[test]
fn cursor_in_map_space_follows_the_flag() {
    let mut c = test_canvas();
    assert_eq!(c.get_cursor_in_map_space(), Some(Pt2D::new(70, 115)));
    c.cursor_on_map = false;
    assert_eq!(c.get_cursor_in_map_space(), None);
}

#[test]
fn text_dims_measure_the_longest_line() {
    let c = test_canvas();
    let mut t = Text::new(Color::rgba(0, 0, 0, 128));
    assert!(t.add_line(String::from("hello")));
    assert!(t.add_line(String::from("hi")));
    let dims = c.text_dims(&t);
    assert_eq!(dims.0, 5 * CHAR_WIDTH);
    assert_eq!(dims.1, 2 * LINE_HEIGHT);
}

#[test]
fn text_dims_of_empty_text_are_zero() {
    let c = test_canvas();
    let t = Text::new(Color::rgba(0, 0, 0, 128));
    assert_eq!(c.text_dims(&t), (0, 0));
}

#[test]
fn text_refuses_too_many_lines() {
    let mut t = Text::new(Color::rgba(0, 0, 0, 128));
    for _ in 0..MAX_TEXT_LINES {
        assert!(t.add_line(String::from("x")));
    }
    assert!(!t.add_line(String::from("one too many")));
    assert_eq!(t.num_lines(), MAX_TEXT_LINES);
}
