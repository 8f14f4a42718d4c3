//! Input handling of the region-selection overlay as a state machine: each
//! window message updates the drag selection and says which window operations
//! to perform.

use vstd::prelude::*;
use crate::geometry::{Point, Rect, lparam_to_point, signed_word, normalized_rect, circle_rect,
    circle_rect_in_range, spec_circle_rect, spec_normalized_rect};

verus! {

/// Virtual-key code of the Escape key.
pub const VK_ESCAPE: u16 = 0x1B;

/// Current drag-selection state of the overlay.
#[derive(Clone, Copy, Debug, PartialEq, Eq, Structural)]
pub struct Selection {
    pub dragging: bool,
    pub committed: bool,
    pub start: Point,
    pub current: Point,
    pub cancelled: bool,
}

/// The selection of a freshly opened overlay: idle, at the client origin.
pub open spec fn idle_selection() -> Selection {
    Selection {
        dragging: false,
        committed: false,
        start: Point { x: 0, y: 0 },
        current: Point { x: 0, y: 0 },
        cancelled: false,
    }
}

impl Default for Selection {
    /// Returns an idle selection at the client origin.
    fn default() -> (s: Self)
        ensures
            s == idle_selection(),
    {
        Selection {
            dragging: false,
            committed: false,
            start: Point { x: 0, y: 0 },
            current: Point { x: 0, y: 0 },
            cancelled: false,
        }
    }
}

/// A window message as the overlay sees it; mouse messages carry their `lParam`
/// and key messages their `wParam`.
#[derive(Clone, Copy, Debug, PartialEq, Eq, Structural)]
pub enum OverlayEvent {
    LeftButtonDown(isize),
    MouseMove(isize),
    LeftButtonUp(isize),
    RightButtonDown,
    KeyDown(usize),
    Paint,
    Destroy,
    Other,
}

/// The window operations a message asks for.
#[derive(Clone, Copy, Debug, PartialEq, Eq, Structural)]
pub struct OverlayResponse {
    /// Capture the mouse for the overlay window.
    pub capture_mouse: bool,
    /// Release the mouse capture.
    pub release_mouse: bool,
    /// Invalidate the window so it is repainted.
    pub repaint: bool,
    /// Paint the overlay now.
    pub paint: bool,
    /// Free the cached drawing surface.
    pub release_back_buffer: bool,
    /// End the overlay's message loop.
    pub quit: bool,
    /// Hand the message to the default window procedure.
    pub default_handling: bool,
}

pub open spec fn no_response() -> OverlayResponse {
    OverlayResponse {
        capture_mouse: false,
        release_mouse: false,
        repaint: false,
        paint: false,
        release_back_buffer: false,
        quit: false,
        default_handling: false,
    }
}

/// The point a mouse `lParam` denotes.
pub open spec fn spec_point(lparam: isize) -> Point {
    Point {
        x: signed_word((lparam & 0xFFFF) as int) as i32,
        y: signed_word(((lparam >> 16) & 0xFFFF) as int) as i32,
    }
}

/// The selection after `event`.
pub open spec fn spec_next(s: Selection, event: OverlayEvent) -> Selection {
    match event {
        OverlayEvent::LeftButtonDown(l) => Selection {
            dragging: true,
            start: spec_point(l),
            current: spec_point(l),
            ..s
        },
        OverlayEvent::MouseMove(l) => if s.dragging {
            Selection { current: spec_point(l), ..s }
        } else {
            s
        },
        OverlayEvent::LeftButtonUp(l) => if s.dragging {
            Selection { dragging: false, current: spec_point(l), committed: true, ..s }
        } else {
            s
        },
        OverlayEvent::RightButtonDown => Selection { cancelled: true, ..s },
        OverlayEvent::KeyDown(w) => if w as u16 == VK_ESCAPE {
            Selection { cancelled: true, ..s }
        } else {
            s
        },
        _ => s,
    }
}

/// The window operations `event` asks for in state `s`.
pub open spec fn spec_response(s: Selection, event: OverlayEvent) -> OverlayResponse {
    match event {
        OverlayEvent::LeftButtonDown(_) => OverlayResponse {
            capture_mouse: true,
            repaint: true,
            ..no_response()
        },
        OverlayEvent::MouseMove(_) => OverlayResponse { repaint: s.dragging, ..no_response() },
        OverlayEvent::LeftButtonUp(_) => OverlayResponse {
            release_mouse: true,
            quit: true,
            ..no_response()
        },
        OverlayEvent::RightButtonDown => OverlayResponse { quit: true, ..no_response() },
        OverlayEvent::KeyDown(w) => OverlayResponse { quit: w as u16 == VK_ESCAPE, ..no_response() },
        OverlayEvent::Paint => OverlayResponse { paint: true, ..no_response() },
        OverlayEvent::Destroy => OverlayResponse {
            release_back_buffer: true,
            quit: true,
            ..no_response()
        },
        OverlayEvent::Other => OverlayResponse { default_handling: true, ..no_response() },
    }
}

/// Both selection points lie in the signed 16-bit range of mouse coordinates.
pub open spec fn points_in_range(s: Selection) -> bool {
    &&& -0x8000 <= s.start.x < 0x8000
    &&& -0x8000 <= s.start.y < 0x8000
    &&& -0x8000 <= s.current.x < 0x8000
    &&& -0x8000 <= s.current.y < 0x8000
}

/// Whether both selection points lie in the signed 16-bit range.
pub fn points_fit(s: &Selection) -> (b: bool)
    ensures
        b == points_in_range(*s),
{
    let in_word = |v: i32| -> (r: bool)
        ensures
            r == (-0x8000 <= v < 0x8000),
        { -0x8000 <= v && v < 0x8000 };
    in_word(s.start.x) && in_word(s.start.y) && in_word(s.current.x) && in_word(s.current.y)
}

/// The selection a finished overlay hands back: none when the user cancelled
/// or never completed a drag.
pub open spec fn spec_outcome(s: Selection) -> Option<Selection> {
    if s.cancelled || !s.committed { None } else { Some(s) }
}

fn no_op() -> (r: OverlayResponse)
    ensures
        r == no_response(),
{
    OverlayResponse {
        capture_mouse: false,
        release_mouse: false,
        repaint: false,
        paint: false,
        release_back_buffer: false,
        quit: false,
        default_handling: false,
    }
}

impl Selection {
    /// Applies one window message to the selection and returns the window
    /// operations it asks for.
    pub fn on_event(&mut self, event: OverlayEvent) -> (r: OverlayResponse)
        ensures
            *final(self) == spec_next(*old(self), event),
            r == spec_response(*old(self), event),
    {
        match event {
            OverlayEvent::LeftButtonDown(l) => {
                let point = lparam_to_point(l);
                self.dragging = true;
                self.start = point;
                self.current = point;
                OverlayResponse { capture_mouse: true, repaint: true, ..no_op() }
            },
            OverlayEvent::MouseMove(l) => {
                let point = lparam_to_point(l);
                if self.dragging {
                    self.current = point;
                }
                OverlayResponse { repaint: self.dragging, ..no_op() }
            },
            OverlayEvent::LeftButtonUp(l) => {
                let point = lparam_to_point(l);
                if self.dragging {
                    self.dragging = false;
                    self.current = point;
                    self.committed = true;
                }
                OverlayResponse { release_mouse: true, quit: true, ..no_op() }
            },
            OverlayEvent::RightButtonDown => {
                self.cancelled = true;
                OverlayResponse { quit: true, ..no_op() }
            },
            OverlayEvent::KeyDown(w) => {
                let escape = w as u16 == VK_ESCAPE;
                if escape {
                    self.cancelled = true;
                }
                OverlayResponse { quit: escape, ..no_op() }
            },
            OverlayEvent::Paint => OverlayResponse { paint: true, ..no_op() },
            OverlayEvent::Destroy => OverlayResponse {
                release_back_buffer: true,
                quit: true,
                ..no_op()
            },
            OverlayEvent::Other => OverlayResponse { default_handling: true, ..no_op() },
        }
    }

    /// The committed selection, or `None` when the overlay was cancelled or
    /// closed without a completed drag.
    pub fn outcome(&self) -> (r: Option<Selection>)
        ensures
            r == spec_outcome(*self),
    {
        if self.cancelled || !self.committed {
            None
        } else {
            Some(*self)
        }
    }
}

proof fn lemma_spec_point_in_range(l: isize)
    ensures
        -0x8000 <= spec_point(l).x < 0x8000,
        -0x8000 <= spec_point(l).y < 0x8000,
{
    assert(0 <= l & 0xFFFF <= 0xFFFF) by (bit_vector);
    assert(0 <= (l >> 16) & 0xFFFF <= 0xFFFF) by (bit_vector);
}

/// Once cancelled, a selection stays cancelled whatever message follows, and
/// the overlay hands back nothing.
pub proof fn law_cancel_is_final(s: Selection, event: OverlayEvent)
    requires
        s.cancelled,
    ensures
        spec_next(s, event).cancelled,
        spec_outcome(spec_next(s, event)) is None,
{
}

/// A right click or the Escape key cancels the selection and ends the overlay.
pub proof fn law_cancel_events(s: Selection, w: usize)
    ensures
        spec_next(s, OverlayEvent::RightButtonDown).cancelled,
        spec_response(s, OverlayEvent::RightButtonDown).quit,
        w as u16 == VK_ESCAPE ==> spec_next(s, OverlayEvent::KeyDown(w)).cancelled
            && spec_response(s, OverlayEvent::KeyDown(w)).quit,
        w as u16 != VK_ESCAPE ==> spec_next(s, OverlayEvent::KeyDown(w)) == s
            && !spec_response(s, OverlayEvent::KeyDown(w)).quit,
{
}

/// A committed selection stays committed.
pub proof fn law_commit_is_kept(s: Selection, event: OverlayEvent)
    requires
        s.committed,
    ensures
        spec_next(s, event).committed,
{
}

/// Mouse coordinates stay in the signed 16-bit range they are decoded from.
pub proof fn law_points_stay_in_range(s: Selection, event: OverlayEvent)
    requires
        points_in_range(s),
    ensures
        points_in_range(spec_next(s, event)),
{
    match event {
        OverlayEvent::LeftButtonDown(l) => lemma_spec_point_in_range(l),
        OverlayEvent::MouseMove(l) => lemma_spec_point_in_range(l),
        OverlayEvent::LeftButtonUp(l) => lemma_spec_point_in_range(l),
        _ => {},
    }
}

/// While dragging, mouse moves follow the cursor and keep the anchor point.
pub proof fn law_drag_keeps_anchor(s: Selection, l: isize)
    requires
        s.dragging,
    ensures
        spec_next(s, OverlayEvent::MouseMove(l)).start == s.start,
        spec_next(s, OverlayEvent::MouseMove(l)).current == spec_point(l),
        spec_response(s, OverlayEvent::MouseMove(l)).repaint,
{
}

/// Without a drag in progress, mouse moves change nothing and ask for no
/// repaint; paint, destroy and other messages never change the selection.
pub proof fn law_idle_messages_keep_the_selection(s: Selection, l: isize)
    ensures
        !s.dragging ==> spec_next(s, OverlayEvent::MouseMove(l)) == s
            && !spec_response(s, OverlayEvent::MouseMove(l)).repaint,
        spec_next(s, OverlayEvent::Paint) == s,
        spec_next(s, OverlayEvent::Destroy) == s,
        spec_next(s, OverlayEvent::Other) == s,
        spec_response(s, OverlayEvent::Paint).paint,
        spec_response(s, OverlayEvent::Destroy).quit,
        spec_response(s, OverlayEvent::Other).default_handling,
{
}

/// Pressing the left button starts an empty drag at the pressed point, from
/// any state: the start and the current point are both the point the `lParam`
/// packs (its low word as `x`, the next word as `y`, each signed), so the
/// repaint it asks for shows no selected area yet.
pub proof fn law_press_starts_an_empty_drag(s: Selection, l: isize, circular: bool, bounds: Rect)
    ensures
        ({
            let next = spec_next(s, OverlayEvent::LeftButtonDown(l));
            let low = (l & 0xFFFF) as int;
            let high = ((l >> 16) & 0xFFFF) as int;
            &&& next.dragging
            &&& next.start == next.current
            &&& next.start.x == (if low >= 0x8000 { low - 0x10000 } else { low })
            &&& next.start.y == (if high >= 0x8000 { high - 0x10000 } else { high })
            &&& spec_response(s, OverlayEvent::LeftButtonDown(l)).repaint
            &&& !circular ==> selection_region(next, circular, bounds).left
                == selection_region(next, circular, bounds).right
        }),
{
    lemma_spec_point_in_range(l);
    assert(0 <= l & 0xFFFF <= 0xFFFF) by (bit_vector);
    assert(0 <= (l >> 16) & 0xFFFF <= 0xFFFF) by (bit_vector);
}

/// Pressing the left button at `a` and releasing it at `b` on a fresh overlay
/// hands back the selection from `a` to `b`.
pub proof fn law_press_release_selects(a: isize, b: isize)
    ensures
        ({
            let pressed = spec_next(idle_selection(), OverlayEvent::LeftButtonDown(a));
            let released = spec_next(pressed, OverlayEvent::LeftButtonUp(b));
            &&& spec_response(pressed, OverlayEvent::LeftButtonUp(b)).quit
            &&& spec_outcome(released) matches Some(sel)
            &&& sel.start == spec_point(a)
            &&& sel.current == spec_point(b)
            &&& !sel.dragging
        }),
{
}

/// Releasing the button without a drag in progress commits nothing.
pub proof fn law_release_without_drag(s: Selection, l: isize)
    requires
        !s.dragging,
    ensures
        spec_next(s, OverlayEvent::LeftButtonUp(l)) == s,
        spec_response(s, OverlayEvent::LeftButtonUp(l)).quit,
{
}

/// The rectangle bounding the selection within `bounds`: the square around the
/// drag start reaching the current point for circular selections, otherwise the
/// rectangle spanned by the two points.
pub open spec fn selection_region(s: Selection, circular: bool, bounds: Rect) -> Rect {
    if circular {
        spec_circle_rect(s.start, s.current, bounds)
    } else {
        spec_normalized_rect(s.start, s.current)
    }
}

/// Inputs for which the region of a selection can be computed without
/// overflowing 32-bit coordinates.
pub open spec fn region_in_range(s: Selection, circular: bool, bounds: Rect) -> bool {
    circular ==> circle_rect_in_range(s.start, s.current, bounds)
}

/// The region to capture after a committed selection on a `width` x `height`
/// desktop: the selection's circle square or rectangle, or `None` when it has
/// no area.
pub fn region_to_capture(selection: &Selection, circular: bool, width: i32, height: i32) -> (r: Option<Rect>)
    requires
        points_in_range(*selection),
        region_in_range(*selection, circular, Rect { left: 0, top: 0, right: width, bottom: height }),
    ensures
        ({
            let region = selection_region(*selection, circular,
                Rect { left: 0, top: 0, right: width, bottom: height });
            r == if region.right - region.left <= 0 || region.bottom - region.top <= 0 {
                None
            } else {
                Some(region)
            }
        }),
{
    let bounds = Rect { left: 0, top: 0, right: width, bottom: height };
    let region = if circular {
        circle_rect(selection.start, selection.current, &bounds)
    } else {
        normalized_rect(selection.start, selection.current)
    };
    let region_width = region.right - region.left;
    let region_height = region.bottom - region.top;
    if region_width <= 0 || region_height <= 0 {
        None
    } else {
        Some(region)
    }
}

} // verus!
