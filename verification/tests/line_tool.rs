use point_editor::line_tool::LineTool;
use point_editor::machine::Event;
use point_editor::point::Point;

fn p(x: i32, y: i32) -> Point {
    Point::new(x, y)
}

fn lines_of(tool: &LineTool) -> Vec<(Point, Point)> {
    (0..tool.line_count()).map(|k| tool.line(k)).collect()
}

#[test]
fn line_tool_starts_idle_and_empty() {
    let tool = LineTool::new();
    assert!(tool.overlay_interactive());
    assert_eq!(tool.focused(), None);
    assert_eq!(tool.line_count(), 0);
}

#[test]
fn idle_line_tool_ignores_input() {
    let mut tool = LineTool::new();
    tool.handle_event(Event::Pressed(p(1, 1)));
    tool.handle_event(Event::Moved(p(2, 2)));
    tool.handle_event(Event::Released);
    tool.handle_event(Event::Confirm);
    assert!(tool.overlay_interactive());
    assert_eq!(tool.focused(), None);
    assert_eq!(tool.line_count(), 0);
}

#[test]
fn drag_draws_a_line() {
    let mut tool = LineTool::new();
    tool.start_drawing();
    assert!(!tool.overlay_interactive());
    tool.handle_event(Event::Pressed(p(1, 1)));
    assert_eq!(tool.focused(), Some((p(1, 1), p(1, 1))));
    tool.handle_event(Event::Moved(p(5, 1)));
    assert_eq!(tool.focused(), Some((p(1, 1), p(5, 1))));
    tool.handle_event(Event::Moved(p(9, 9)));
    assert_eq!(tool.focused(), Some((p(1, 1), p(9, 9))));
    assert_eq!(tool.line_count(), 0);
    tool.handle_event(Event::Released);
    assert_eq!(tool.focused(), None);
    assert_eq!(lines_of(&tool), vec![(p(1, 1), p(9, 9))]);
}

#[test]
fn click_without_a_move_draws_a_line_of_no_length() {
    let mut tool = LineTool::new();
    tool.start_drawing();
    tool.handle_event(Event::Pressed(p(3, 4)));
    tool.handle_event(Event::Released);
    assert_eq!(lines_of(&tool), vec![(p(3, 4), p(3, 4))]);
}

#[test]
fn moves_and_releases_without_a_press_do_nothing() {
    let mut tool = LineTool::new();
    tool.start_drawing();
    tool.handle_event(Event::Moved(p(3, 4)));
    tool.handle_event(Event::Released);
    assert_eq!(tool.focused(), None);
    assert_eq!(tool.line_count(), 0);
}

#[test]
fn second_press_restarts_the_line_in_progress() {
    let mut tool = LineTool::new();
    tool.start_drawing();
    tool.handle_event(Event::Pressed(p(0, 0)));
    tool.handle_event(Event::Moved(p(5, 5)));
    tool.handle_event(Event::Pressed(p(7, 7)));
    assert_eq!(tool.focused(), Some((p(7, 7), p(7, 7))));
    tool.handle_event(Event::Released);
    assert_eq!(lines_of(&tool), vec![(p(7, 7), p(7, 7))]);
}

#[test]
fn confirm_ends_drawing_and_keeps_the_lines() {
    let mut tool = LineTool::new();
    tool.start_drawing();
    tool.handle_event(Event::Pressed(p(0, 0)));
    tool.handle_event(Event::Moved(p(5, 5)));
    tool.handle_event(Event::Released);
    tool.handle_event(Event::Pressed(p(1, 0)));
    tool.handle_event(Event::Moved(p(6, 5)));
    tool.handle_event(Event::Released);
    tool.handle_event(Event::Confirm);
    assert!(tool.overlay_interactive());
    assert_eq!(lines_of(&tool), vec![(p(0, 0), p(5, 5)), (p(1, 0), p(6, 5))]);
    tool.handle_event(Event::Pressed(p(9, 9)));
    assert_eq!(tool.focused(), None);
    assert_eq!(tool.line_count(), 2);
}

#[test]
fn confirm_during_a_drag_keeps_the_line_in_progress() {
    let mut tool = LineTool::new();
    tool.start_drawing();
    tool.handle_event(Event::Pressed(p(0, 0)));
    tool.handle_event(Event::Moved(p(5, 5)));
    tool.handle_event(Event::Confirm);
    assert_eq!(tool.focused(), Some((p(0, 0), p(5, 5))));
    tool.handle_event(Event::Released);
    assert_eq!(tool.line_count(), 0);
    tool.start_drawing();
    assert_eq!(tool.focused(), Some((p(0, 0), p(5, 5))));
    tool.handle_event(Event::Released);
    assert_eq!(lines_of(&tool), vec![(p(0, 0), p(5, 5))]);
}
