//! The interaction state machine: what each input means in each mode.

use vstd::prelude::*;
use crate::point::Point;
use crate::query::{lemma_nearest_characterization, nearest};
use crate::store::{GeometryStore, StoreView};

verus! {

/// The distance within which a pointer position picks a stored point.  The
/// same radius serves selection, move pick-up, segment endpoints and the
/// highlight drawn under the pointer.
pub const SNAP_RADIUS: u32 = 20;

/// How the editor currently reads its input.
#[derive(Clone, Copy, Debug, PartialEq, Eq)]
pub enum Mode {
    /// The overlay is in charge; drawing input is ignored.
    Menu,
    /// Every press adds a point.
    PlacingPoints,
    /// `None`: waiting for a press that picks a point up.  `Some(i)`: point
    /// `i` follows the pointer until the button is released.
    MovingPoint(Option<usize>),
    /// `None`: waiting for the first end of a segment.  `Some(i)`: point `i`
    /// is the first end, and the next press on a point completes the segment.
    ConnectingPoints(Option<usize>),
}

/// An input event, as the window reports it.
#[derive(Clone, Copy, Debug, PartialEq, Eq)]
pub enum Event {
    /// The primary button went down with the pointer at the given position.
    Pressed(Point),
    /// The primary button came up.
    Released,
    /// The pointer moved to the given position.
    Moved(Point),
    /// The confirm key was pressed.
    Confirm,
}

/// A choice made in the overlay's menu.
#[derive(Clone, Copy, Debug, PartialEq, Eq)]
pub enum Command {
    /// Start placing points.
    PlacePoints,
    /// Start moving points.
    MovePoints,
    /// Start connecting points.
    ConnectPoints,
}

/// The editor as a mathematical value: its mode and its drawing.
pub struct EditorView {
    pub mode: Mode,
    pub store: StoreView,
}

impl EditorView {
    /// The point that the mode holds on to, if it holds one.
    pub open spec fn held(self) -> Option<usize> {
        match self.mode {
            Mode::MovingPoint(held) => held,
            Mode::ConnectingPoints(held) => held,
            _ => None,
        }
    }

    /// Whether the drawing is well formed and the point that the mode holds
    /// on to, if any, is one of its points.
    pub open spec fn wf(self) -> bool {
        &&& self.store.wf()
        &&& self.held() matches Some(i) ==> i < self.store.points.len()
    }

    /// The same editor in another mode.
    pub open spec fn with_mode(self, mode: Mode) -> EditorView {
        EditorView { mode, store: self.store }
    }

    /// The same editor, mode included, with `pos` appended to its points.
    pub open spec fn with_point_added(self, pos: Point) -> EditorView {
        EditorView {
            mode: self.mode,
            store: StoreView {
                points: self.store.points.push(pos),
                segments: self.store.segments,
            },
        }
    }

    /// The same editor, mode included, with point `index` moved to `pos`.
    pub open spec fn with_point_moved(self, index: int, pos: Point) -> EditorView {
        EditorView {
            mode: self.mode,
            store: StoreView {
                points: self.store.points.update(index, pos),
                segments: self.store.segments,
            },
        }
    }

    /// The same editor, mode included, with the segment from `a` to `b`
    /// appended to its segments.
    pub open spec fn with_segment_added(self, a: usize, b: usize) -> EditorView {
        EditorView {
            mode: self.mode,
            store: StoreView {
                points: self.store.points,
                segments: self.store.segments.push((a, b)),
            },
        }
    }

    /// The point that a press at `pos` picks: the nearest one within the snap
    /// radius, the lowest index winning a tie.
    pub open spec fn picked(self, pos: Point) -> Option<int> {
        nearest(self.store.points, pos, SNAP_RADIUS as nat)
    }
}

/// The transition table: the editor after `event`, given the editor before
/// it.
///
/// Any pair of mode and event that the table does not list leaves the editor
/// as it is.  In particular a press that picks no point changes nothing, and
/// the menu ignores the pointer.
pub open spec fn step(before: EditorView, event: Event) -> EditorView {
    match (before.mode, event) {
        (Mode::PlacingPoints, Event::Pressed(pos)) => before.with_point_added(pos),
        (Mode::MovingPoint(None), Event::Pressed(pos)) => match before.picked(pos) {
            Some(i) => before.with_mode(Mode::MovingPoint(Some(i as usize))),
            None => before,
        },
        (Mode::MovingPoint(Some(i)), Event::Moved(pos)) => before.with_point_moved(i as int, pos),
        (Mode::MovingPoint(Some(_)), Event::Released) => before.with_mode(
            Mode::MovingPoint(None),
        ),
        (Mode::ConnectingPoints(None), Event::Pressed(pos)) => match before.picked(pos) {
            Some(i) => before.with_mode(Mode::ConnectingPoints(Some(i as usize))),
            None => before,
        },
        (Mode::ConnectingPoints(Some(a)), Event::Pressed(pos)) => match before.picked(pos) {
            Some(b) => before.with_segment_added(a, b as usize).with_mode(
                Mode::ConnectingPoints(None),
            ),
            None => before,
        },
        (_, Event::Confirm) => before.with_mode(Mode::Menu),
        _ => before,
    }
}

/// The mode that a menu command asks for.
pub open spec fn mode_for(command: Command) -> Mode {
    match command {
        Command::PlacePoints => Mode::PlacingPoints,
        Command::MovePoints => Mode::MovingPoint(None),
        Command::ConnectPoints => Mode::ConnectingPoints(None),
    }
}

/// The editor after a menu command: in the menu the command's mode is
/// entered, elsewhere the menu is not on offer and the command is ignored.
pub open spec fn command_step(before: EditorView, command: Command) -> EditorView {
    if before.mode is Menu {
        before.with_mode(mode_for(command))
    } else {
        before
    }
}

/// Every transition keeps the editor well formed: segments go on naming
/// stored points, and so does the mode.
pub proof fn lemma_step_preserves_wf(before: EditorView, event: Event)
    requires
        before.wf(),
    ensures
        step(before, event).wf(),
{
    if let Event::Pressed(pos) = event {
        // A point that a press picks is one of the stored points.
        lemma_nearest_characterization(before.store.points, pos, SNAP_RADIUS as nat);
    }
    let after = step(before, event);
    assert forall|k: int| 0 <= k < after.store.segments.len() implies (
    #[trigger] after.store.segments[k]).0 < after.store.points.len()
        && after.store.segments[k].1 < after.store.points.len() by {
        if k < before.store.segments.len() {
            assert(after.store.segments[k] == before.store.segments[k]);
        }
    }
}

/// Nothing is ever deleted: a transition keeps every point's index and every
/// segment, in place, and adds at most one point or one segment at the end.
pub proof fn lemma_step_only_appends(before: EditorView, event: Event)
    requires
        before.wf(),
    ensures
        before.store.points.len() <= step(before, event).store.points.len()
            <= before.store.points.len() + 1,
        before.store.segments.len() <= step(before, event).store.segments.len()
            <= before.store.segments.len() + 1,
        step(before, event).store.segments.take(before.store.segments.len() as int)
            == before.store.segments,
{
    assert(step(before, event).store.segments.take(before.store.segments.len() as int)
        =~= before.store.segments);
}

/// While points are being placed, only a press changes the drawing: it
/// appends the pressed position.  A pointer move or a release changes nothing
/// at all, and the confirm key leaves the drawing as it is.
pub proof fn lemma_placing_changes_drawing_only_on_press(before: EditorView, event: Event)
    requires
        before.mode is PlacingPoints,
    ensures
        event matches Event::Pressed(pos) ==> step(before, event) == before.with_point_added(pos),
        event is Moved || event is Released ==> step(before, event) == before,
        !(event is Pressed) ==> step(before, event).store == before.store,
{
}

/// A point that is being moved lands where the pointer goes, and nothing else
/// changes: every other point, every segment and the mode stay as they were.
pub proof fn lemma_move_changes_one_point(before: EditorView, i: usize, pos: Point)
    requires
        before.wf(),
        before.mode == Mode::MovingPoint(Some(i)),
    ensures
        step(before, Event::Moved(pos)).mode == before.mode,
        step(before, Event::Moved(pos)).store.segments == before.store.segments,
        step(before, Event::Moved(pos)).store.points.len() == before.store.points.len(),
        step(before, Event::Moved(pos)).store.points[i as int] == pos,
        forall|j: int|
            0 <= j < before.store.points.len() && j != i ==> step(
                before,
                Event::Moved(pos),
            ).store.points[j] == before.store.points[j],
{
}

/// Connecting takes two presses.  From the state that waits for a first end,
/// a press that picks point `a` followed by a press that picks point `b`
/// appends exactly the segment from `a` to `b`, leaves the points alone and
/// returns to waiting for a first end.  The two may be the same point.
pub proof fn lemma_two_presses_connect(
    before: EditorView,
    first: Point,
    second: Point,
    a: usize,
    b: usize,
)
    requires
        before.mode == Mode::ConnectingPoints(None),
        before.picked(first) == Some(a as int),
        before.picked(second) == Some(b as int),
    ensures
        step(step(before, Event::Pressed(first)), Event::Pressed(second)) == (EditorView {
            mode: Mode::ConnectingPoints(None),
            store: StoreView {
                points: before.store.points,
                segments: before.store.segments.push((a, b)),
            },
        }),
{
}

/// The menu ignores the window's input: whatever the event and wherever the
/// pointer, neither the mode nor the drawing changes.
pub proof fn lemma_menu_ignores_input(before: EditorView, event: Event)
    requires
        before.mode is Menu,
    ensures
        step(before, event) == before,
{
}

/// A press that picks no point changes nothing, except while points are
/// being placed.
pub proof fn lemma_miss_changes_nothing(before: EditorView, pos: Point)
    requires
        !(before.mode is PlacingPoints),
        before.picked(pos) is None,
    ensures
        step(before, Event::Pressed(pos)) == before,
{
}

/// The confirm key leads to the menu from every mode and keeps the drawing.
pub proof fn lemma_confirm_returns_to_menu(before: EditorView)
    ensures
        step(before, Event::Confirm) == before.with_mode(Mode::Menu),
{
}

/// A menu command never touches the drawing, keeps the editor well formed,
/// and changes the mode only in the menu: while the editor draws, the
/// overlay has no say.
pub proof fn lemma_commands_need_the_menu(before: EditorView, command: Command)
    requires
        before.wf(),
    ensures
        command_step(before, command).wf(),
        command_step(before, command).store == before.store,
        before.mode is Menu ==> command_step(before, command).mode == mode_for(command),
        !(before.mode is Menu) ==> command_step(before, command) == before,
{
}

/// The editor: the drawing together with the current mode.
///
/// Whatever point the mode holds on to is a point of the drawing.
pub struct Editor {
    mode: Mode,
    store: GeometryStore,
}

impl View for Editor {
    type V = EditorView;

    closed spec fn view(&self) -> EditorView {
        EditorView { mode: self.mode, store: self.store@ }
    }
}

/// Carries out one line of the transition table on the parts of an editor.
fn transition(mode: Mode, store: &mut GeometryStore, event: Event) -> (next: Mode)
    requires
        (EditorView { mode, store: old(store)@ }).wf(),
    ensures
        (EditorView { mode: next, store: final(store)@ }) == step(
            EditorView { mode, store: old(store)@ },
            event,
        ),
        (EditorView { mode: next, store: final(store)@ }).wf(),
{
    match (mode, event) {
        (Mode::PlacingPoints, Event::Pressed(pos)) => {
            store.add_point(pos);
            mode
        },
        (Mode::MovingPoint(None), Event::Pressed(pos)) => {
            match store.find_nearest(pos, SNAP_RADIUS) {
                Some(i) => Mode::MovingPoint(Some(i)),
                None => mode,
            }
        },
        (Mode::MovingPoint(Some(i)), Event::Moved(pos)) => {
            store.set_point(i, pos);
            mode
        },
        (Mode::MovingPoint(Some(_)), Event::Released) => Mode::MovingPoint(None),
        (Mode::ConnectingPoints(None), Event::Pressed(pos)) => {
            match store.find_nearest(pos, SNAP_RADIUS) {
                Some(i) => Mode::ConnectingPoints(Some(i)),
                None => mode,
            }
        },
        (Mode::ConnectingPoints(Some(a)), Event::Pressed(pos)) => {
            match store.find_nearest(pos, SNAP_RADIUS) {
                Some(b) => {
                    store.add_segment(a, b);
                    Mode::ConnectingPoints(None)
                },
                None => mode,
            }
        },
        (_, Event::Confirm) => Mode::Menu,
        _ => mode,
    }
}

impl Editor {
    #[verifier::type_invariant]
    spec fn held_point_exists(self) -> bool {
        self@.wf()
    }

    /// Makes an editor with an empty drawing, in the menu.
    pub fn new() -> (editor: Editor)
        ensures
            editor@.mode == Mode::Menu,
            editor@.store.points == Seq::<Point>::empty(),
            editor@.store.segments == Seq::<(usize, usize)>::empty(),
            editor@.wf(),
    {
        Editor { mode: Mode::Menu, store: GeometryStore::new() }
    }

    /// The current mode.  A point that it holds on to is a point of the
    /// drawing.
    pub fn mode(&self) -> (mode: Mode)
        ensures
            mode == self@.mode,
            self@.wf(),
    {
        proof {
            use_type_invariant(self);
        }
        self.mode
    }

    /// The drawing.
    pub fn store(&self) -> (store: &GeometryStore)
        ensures
            store@ == self@.store,
            self@.wf(),
    {
        proof {
            use_type_invariant(self);
        }
        &self.store
    }

    /// Whether the overlay is in charge: raw input goes to the overlay, and
    /// the overlay offers its menu, exactly while the editor is in the menu.
    /// In every other mode the editor alone sees the input, and the overlay
    /// only says how to finish.
    pub fn overlay_interactive(&self) -> (interactive: bool)
        ensures
            interactive == (self@.mode is Menu),
    {
        match self.mode {
            Mode::Menu => true,
            _ => false,
        }
    }

    /// Handles one input event as the transition table says.
    pub fn handle_event(&mut self, event: Event)
        ensures
            final(self)@ == step(old(self)@, event),
            final(self)@.wf(),
    {
        // The editor is taken apart and put back whole, so that the mode
        // names a stored point wherever the transition could leave it.
        let mut taken = Editor::new();
        core::mem::swap(self, &mut taken);
        proof {
            use_type_invariant(&taken);
        }
        let Editor { mode, mut store } = taken;
        let next: Mode = transition(mode, &mut store, event);
        *self = Editor { mode: next, store };
    }

    /// Carries out a menu command: enters the mode it asks for if the editor
    /// is in the menu, and does nothing otherwise.
    pub fn apply_command(&mut self, command: Command)
        ensures
            final(self)@ == command_step(old(self)@, command),
            final(self)@.wf(),
    {
        proof {
            use_type_invariant(&*self);
        }
        match self.mode {
            Mode::Menu => {
                self.mode = match command {
                    Command::PlacePoints => Mode::PlacingPoints,
                    Command::MovePoints => Mode::MovingPoint(None),
                    Command::ConnectPoints => Mode::ConnectingPoints(None),
                };
            },
            _ => {},
        }
    }
}

} // verus!
