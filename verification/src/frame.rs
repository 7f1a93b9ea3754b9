//! What a frame shows: the drawing, and the previews that belong to the
//! current mode.
//!
//! The previews are computed with the very query that the state machine uses
//! for a press, so the point that is highlighted under the pointer is always
//! the point that a press there would pick.

use vstd::prelude::*;
use crate::machine::{step, Editor, EditorView, Event, Mode, SNAP_RADIUS};
use crate::point::Point;

verus! {

/// Everything that one frame shows, ready to be painted.
#[derive(Debug, PartialEq, Eq)]
pub struct Scene {
    /// A marker for every stored point, in index order.
    pub markers: Vec<Point>,
    /// A line for every stored segment, between the present positions of its
    /// two ends.
    pub lines: Vec<(Point, Point)>,
    /// While points are placed: where a press would put the next one.
    pub placement_preview: Option<Point>,
    /// The position of the stored point that a press would pick, to be marked
    /// out from the others.
    pub highlight: Option<Point>,
    /// While a segment waits for its second end: the line from its first end
    /// to the point that a press would pick, or to the pointer.
    pub preview_line: Option<(Point, Point)>,
}

/// A scene as a mathematical value.
pub struct SceneView {
    pub markers: Seq<Point>,
    pub lines: Seq<(Point, Point)>,
    pub placement_preview: Option<Point>,
    pub highlight: Option<Point>,
    pub preview_line: Option<(Point, Point)>,
}

impl View for Scene {
    type V = SceneView;

    open spec fn view(&self) -> SceneView {
        SceneView {
            markers: self.markers@,
            lines: self.lines@,
            placement_preview: self.placement_preview,
            highlight: self.highlight,
            preview_line: self.preview_line,
        }
    }
}

/// The position of the stored point that a press at `pointer` would pick.
pub open spec fn snap_target(editor: EditorView, pointer: Point) -> Option<Point> {
    match editor.picked(pointer) {
        Some(i) => Some(editor.store.points[i]),
        None => None,
    }
}

/// The scene for an editor with the pointer at `pointer`.
///
/// The drawing is always shown.  While points are placed, the pointer carries
/// a preview of the next point.  While a press would pick a point up or use
/// it as the end of a segment, the point that it would pick is highlighted.
/// While a segment waits for its second end, a line runs from its first end
/// to the highlighted point, or to the pointer where nothing is highlighted.
/// The menu, and a point that is being dragged, show no preview.
pub open spec fn scene_of(editor: EditorView, pointer: Point) -> SceneView {
    SceneView {
        markers: editor.store.points,
        lines: Seq::new(editor.store.segments.len(), |k: int| editor.store.endpoints(k)),
        placement_preview: match editor.mode {
            Mode::PlacingPoints => Some(pointer),
            _ => None,
        },
        highlight: match editor.mode {
            Mode::MovingPoint(None) => snap_target(editor, pointer),
            Mode::ConnectingPoints(_) => snap_target(editor, pointer),
            _ => None,
        },
        preview_line: match editor.mode {
            Mode::ConnectingPoints(Some(anchor)) => Some(
                (
                    editor.store.points[anchor as int],
                    match snap_target(editor, pointer) {
                        Some(target) => target,
                        None => pointer,
                    },
                ),
            ),
            _ => None,
        },
    }
}

/// Assembles the scene for `editor` with the pointer at `pointer`.
pub fn render(editor: &Editor, pointer: Point) -> (scene: Scene)
    ensures
        scene@ == scene_of(editor@, pointer),
{
    let store = editor.store();
    let mode = editor.mode();

    let mut markers: Vec<Point> = Vec::new();
    let point_count: usize = store.point_count();
    let mut i: usize = 0;
    while i < point_count
        invariant
            i <= point_count,
            point_count == store@.points.len(),
            markers@ == store@.points.take(i as int),
        decreases point_count - i,
    {
        markers.push(store.point(i));
        assert(markers@ =~= store@.points.take(i + 1));
        i += 1;
    }
    assert(markers@ =~= store@.points);

    let mut lines: Vec<(Point, Point)> = Vec::new();
    let segment_count: usize = store.segment_count();
    let mut k: usize = 0;
    while k < segment_count
        invariant
            k <= segment_count,
            segment_count == store@.segments.len(),
            lines@.len() == k,
            forall|j: int| 0 <= j < k ==> lines@[j] == store@.endpoints(j),
        decreases segment_count - k,
    {
        lines.push(store.segment_endpoints(k));
        k += 1;
    }
    assert(lines@ =~= scene_of(editor@, pointer).lines);

    let target: Option<Point> = match store.find_nearest(pointer, SNAP_RADIUS) {
        Some(found) => Some(store.point(found)),
        None => None,
    };
    let placement_preview: Option<Point> = match mode {
        Mode::PlacingPoints => Some(pointer),
        _ => None,
    };
    let highlight: Option<Point> = match mode {
        Mode::MovingPoint(None) => target,
        Mode::ConnectingPoints(_) => target,
        _ => None,
    };
    let preview_line: Option<(Point, Point)> = match mode {
        Mode::ConnectingPoints(Some(anchor)) => {
            let end = match target {
                Some(position) => position,
                None => pointer,
            };
            Some((store.point(anchor), end))
        },
        _ => None,
    };
    Scene { markers, lines, placement_preview, highlight, preview_line }
}

/// What is highlighted is what a press picks.  While the editor waits for a
/// press on a point, the scene highlights a point exactly when a press at the
/// pointer's position would take hold of one, and it is that point's
/// position that is highlighted.
pub proof fn lemma_highlight_is_what_a_press_picks(editor: EditorView, pointer: Point)
    requires
        editor.wf(),
        editor.store.points.len() <= usize::MAX,
        editor.mode == Mode::MovingPoint(None) || editor.mode == Mode::ConnectingPoints(None),
    ensures
        scene_of(editor, pointer).highlight == match step(editor, Event::Pressed(pointer)).held() {
            Some(i) => Some(editor.store.points[i as int]),
            None => None,
        },
{
    crate::query::lemma_nearest_characterization(editor.store.points, pointer, SNAP_RADIUS as nat);
}

/// While a segment waits for its second end, the scene highlights a point
/// exactly when a press at the pointer's position would complete the
/// segment; the highlighted position is that of the new segment's second
/// end, and the preview line is the line that the press would add.
pub proof fn lemma_preview_is_what_a_press_connects(
    editor: EditorView,
    pointer: Point,
    anchor: usize,
)
    requires
        editor.wf(),
        editor.store.points.len() <= usize::MAX,
        editor.mode == Mode::ConnectingPoints(Some(anchor)),
    ensures
        ({
            let scene = scene_of(editor, pointer);
            let after = step(editor, Event::Pressed(pointer));
            if scene.highlight is Some {
                &&& after.store.segments.len() == editor.store.segments.len() + 1
                &&& after.store.segments.last().0 == anchor
                &&& scene.highlight == Some(after.store.points[after.store.segments.last().1 as int])
                &&& scene.preview_line == Some(after.store.endpoints(after.store.segments.len() - 1))
            } else {
                &&& after == editor
                &&& scene.preview_line == Some((editor.store.points[anchor as int], pointer))
            }
        }),
{
    crate::query::lemma_nearest_characterization(editor.store.points, pointer, SNAP_RADIUS as nat);
}

} // verus!
