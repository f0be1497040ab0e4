//! Panning the view with the cursor.
//!
//! [`Movement`] keeps what a pan needs between two cursor events: whether a
//! pan is under way, the point of the model that the cursor grabbed, and
//! where the cursor was last seen. It decides when the camera has to follow
//! the cursor; how far the camera moves is for the caller to compute.

use vstd::prelude::*;

verus! {

/// The point of the model that the cursor points at.
#[derive(Clone, Copy, Debug)]
pub struct FocusPoint {
    /// Where the point lies in model space.
    pub center: fj_math::Point<3>,
}

/// A position of the cursor on the screen, in pixels.
#[derive(Clone, Copy, Debug)]
pub struct CursorPosition {
    /// The distance from the left edge.
    pub x: fj_math::Scalar,
    /// The distance from the upper edge.
    pub y: fj_math::Scalar,
}

/// One step of a pan: the cursor went from `previous` to `cursor` while it
/// held on to `focus_point`.
#[derive(Clone, Copy, Debug)]
pub struct Drag {
    /// Where the cursor was before.
    pub previous: CursorPosition,
    /// Where the cursor is now.
    pub cursor: CursorPosition,
    /// The point of the model that the pan holds on to.
    pub focus_point: FocusPoint,
}

/// The state of a pan.
#[derive(Debug)]
pub struct Movement {
    active: bool,
    focus_point: Option<FocusPoint>,
    cursor: Option<CursorPosition>,
}

impl Movement {
    /// Whether a pan is under way.
    pub closed spec fn spec_is_active(&self) -> bool {
        self.active
    }

    /// The point that the pan holds on to, if it grabbed one.
    pub closed spec fn focus_point(&self) -> Option<FocusPoint> {
        self.focus_point
    }

    /// Where the cursor was last seen, if it was seen.
    pub closed spec fn cursor(&self) -> Option<CursorPosition> {
        self.cursor
    }

    /// The step that a cursor event at `cursor` makes: there is one if the
    /// cursor was seen before, is seen now, and the pan holds on to a point.
    pub open spec fn step(&self, cursor: Option<CursorPosition>) -> Option<Drag> {
        match (self.cursor(), cursor, self.focus_point()) {
            (Some(previous), Some(cursor), Some(focus_point)) => Some(
                Drag { previous, cursor, focus_point },
            ),
            _ => None,
        }
    }

    /// A state in which no pan is under way and the cursor was never seen.
    pub fn new() -> (movement: Movement)
        ensures
            !movement.is_active(),
            movement.focus_point() is None,
            movement.cursor() is None,
    {
        Movement { active: false, focus_point: None, cursor: None }
    }

    /// Starts a pan that holds on to `focus_point`, with the cursor at
    /// `cursor`.
    pub fn start(&mut self, focus_point: Option<FocusPoint>, cursor: Option<CursorPosition>)
        ensures
            final(self).is_active(),
            final(self).focus_point() == focus_point,
            final(self).cursor() == cursor,
    {
        self.active = true;
        self.focus_point = focus_point;
        self.cursor = cursor;
    }

    /// Ends the pan and lets go of the focus point. Where the cursor was
    /// last seen is kept.
    pub fn stop(&mut self)
        ensures
            !final(self).is_active(),
            final(self).focus_point() is None,
            final(self).cursor() == old(self).cursor(),
    {
        self.active = false;
        self.focus_point = None;
    }

    /// Takes note of a cursor event and returns the step by which the camera
    /// has to follow, if there is one. Whether a pan is under way and what it
    /// holds on to stay as they are.
    pub fn apply(&mut self, cursor: Option<CursorPosition>) -> (drag: Option<Drag>)
        ensures
            drag == old(self).step(cursor),
            final(self).cursor() == cursor,
            final(self).is_active() == old(self).is_active(),
            final(self).focus_point() == old(self).focus_point(),
    {
        let drag = match (self.cursor, cursor, self.focus_point) {
            (Some(previous), Some(cursor), Some(focus_point)) => Some(
                Drag { previous, cursor, focus_point },
            ),
            _ => None,
        };
        self.cursor = cursor;
        drag
    }

    /// Whether a pan is under way.
    #[verifier::when_used_as_spec(spec_is_active)]
    pub fn is_active(&self) -> (active: bool)
        ensures
            active == self.is_active(),
    {
        self.active
    }
}

} // verus!
