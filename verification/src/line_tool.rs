//! A one-mode tool that draws free lines by dragging.
//!
//! A press starts a line at the pointer, the line's far end follows the
//! pointer, and the release keeps the line.  Unlike the segments of the
//! editor, these lines own their two ends.

use vstd::prelude::*;
use crate::machine::Event;
use crate::point::Point;

verus! {

/// The line tool as a mathematical value.
pub struct LineToolView {
    /// Whether the tool is drawing; otherwise the overlay is in charge and
    /// input is ignored.
    pub drawing: bool,
    /// The line under the pointer, from where the button went down to where
    /// the pointer is now.
    pub focused: Option<(Point, Point)>,
    /// The finished lines, oldest first.
    pub lines: Seq<(Point, Point)>,
}

/// The tool after `event`, given the tool before it.
///
/// Outside drawing, nothing happens.  While drawing, a press starts a line of
/// no length at the pointer, a move drags the far end of the line in
/// progress, a release keeps the line in progress, and the confirm key ends
/// drawing.  Without a line in progress, moves and releases do nothing.
pub open spec fn line_step(before: LineToolView, event: Event) -> LineToolView {
    if !before.drawing {
        before
    } else {
        match event {
            Event::Pressed(pos) => LineToolView { focused: Some((pos, pos)), ..before },
            Event::Released => match before.focused {
                Some(line) => LineToolView {
                    focused: None,
                    lines: before.lines.push(line),
                    ..before
                },
                None => before,
            },
            Event::Moved(pos) => match before.focused {
                Some((start, _)) => LineToolView { focused: Some((start, pos)), ..before },
                None => before,
            },
            Event::Confirm => LineToolView { drawing: false, ..before },
        }
    }
}

/// The free-line drawing tool.
pub struct LineTool {
    drawing: bool,
    focused: Option<(Point, Point)>,
    lines: Vec<(Point, Point)>,
}

impl View for LineTool {
    type V = LineToolView;

    closed spec fn view(&self) -> LineToolView {
        LineToolView { drawing: self.drawing, focused: self.focused, lines: self.lines@ }
    }
}

impl LineTool {
    /// Makes a tool with no lines, not drawing.
    pub fn new() -> (tool: LineTool)
        ensures
            tool@ == (LineToolView {
                drawing: false,
                focused: None,
                lines: Seq::<(Point, Point)>::empty(),
            }),
    {
        LineTool { drawing: false, focused: None, lines: Vec::new() }
    }

    /// Starts drawing.  Everything else stays as it is.
    pub fn start_drawing(&mut self)
        ensures
            final(self)@ == (LineToolView { drawing: true, ..old(self)@ }),
    {
        self.drawing = true;
    }

    /// Handles one input event as `line_step` says.
    pub fn handle_event(&mut self, event: Event)
        ensures
            final(self)@ == line_step(old(self)@, event),
    {
        if !self.drawing {
            return ;
        }
        match event {
            Event::Pressed(pos) => {
                self.focused = Some((pos, pos));
            },
            Event::Released => {
                match self.focused {
                    Some(line) => {
                        self.lines.push(line);
                        self.focused = None;
                    },
                    None => {},
                }
            },
            Event::Moved(pos) => {
                match self.focused {
                    Some((start, _)) => {
                        self.focused = Some((start, pos));
                    },
                    None => {},
                }
            },
            Event::Confirm => {
                self.drawing = false;
            },
        }
    }

    /// Whether the overlay is in charge: exactly while the tool is not
    /// drawing.
    pub fn overlay_interactive(&self) -> (interactive: bool)
        ensures
            interactive == !self@.drawing,
    {
        !self.drawing
    }

    /// The line in progress, to be shown dimmed.
    pub fn focused(&self) -> (line: Option<(Point, Point)>)
        ensures
            line == self@.focused,
    {
        self.focused
    }

    /// The number of finished lines.
    pub fn line_count(&self) -> (n: usize)
        ensures
            n == self@.lines.len(),
    {
        self.lines.len()
    }

    /// Finished line `k`.
    pub fn line(&self, k: usize) -> (line: (Point, Point))
        requires
            k < self@.lines.len(),
        ensures
            line == self@.lines[k as int],
    {
        self.lines[k]
    }
}

/// A drag draws one line: while drawing, a press at `start`, a move to `end`
/// and a release add exactly the line from `start` to `end`, and leave no
/// line in progress.
pub proof fn lemma_drag_draws_a_line(before: LineToolView, start: Point, end: Point)
    requires
        before.drawing,
    ensures
        line_step(
            line_step(line_step(before, Event::Pressed(start)), Event::Moved(end)),
            Event::Released,
        ) == (LineToolView { focused: None, lines: before.lines.push((start, end)), ..before }),
{
}

/// Outside drawing the tool ignores every event.
pub proof fn lemma_idle_tool_ignores_input(before: LineToolView, event: Event)
    requires
        !before.drawing,
    ensures
        line_step(before, event) == before,
{
}

} // verus!
