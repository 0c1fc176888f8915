//! Input events: what the pointer did, and where, in logical pixels.

use crate::geometry::logical_point;
use crate::geometry::offset_fits;
use crate::geometry::to_logical;
use crate::geometry::Point;
use vstd::prelude::*;

verus! {

/// What the pointer device reported.
#[derive(Clone, Copy, Debug, PartialEq, Eq, Structural)]
pub enum PointerKind {
    /// A press or click.
    Press,
    /// A movement.
    Move,
}

/// An input event for the user interface, at a logical position.
#[derive(Clone, Copy, Debug, PartialEq, Eq, Structural)]
pub enum InputEvent {
    /// A press or click.
    Active(Point),
    /// A movement of the pointer.
    Move(Point),
}

impl InputEvent {
    /// The logical position of the event.
    pub open spec fn position(self) -> Point {
        match self {
            InputEvent::Active(p) => p,
            InputEvent::Move(p) => p,
        }
    }

    /// Whether this is the event that `kind` gives rise to.
    pub open spec fn is_kind(self, kind: PointerKind) -> bool {
        match kind {
            PointerKind::Press => self is Active,
            PointerKind::Move => self is Move,
        }
    }
}

/// Turns a report of the pointer device into an input event: a press becomes
/// `Active`, a movement `Move`, each at the logical position of the device
/// position.
pub fn pointer_event(kind: PointerKind, device: Point, origin: Point, scale: i32) -> (event:
    InputEvent)
    requires
        scale > 0,
        offset_fits(device, origin),
    ensures
        event.is_kind(kind),
        (event.position().x as int, event.position().y as int) == logical_point(
            device,
            origin,
            scale as int,
        ),
{
    let position = to_logical(device, origin, scale);
    match kind {
        PointerKind::Press => InputEvent::Active(position),
        PointerKind::Move => InputEvent::Move(position),
    }
}

} // verus!
