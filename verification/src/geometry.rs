//! Units, world constants and the plain geometric values shared by all modules.

use vstd::prelude::*;

verus! {

/// Number of length units in one pixel.
pub const PX: i64 = 1_000_000_000_000;

/// Number of time units (microseconds) in one second.
pub const SECOND: u32 = 1_000_000;

/// Width of the playfield: 288 pixels.
pub const SCREENWIDTH: i64 = 288_000_000_000_000;

/// Height of the window: 512 pixels.
pub const SCREENHEIGHT: i64 = 512_000_000_000_000;

/// The ground line: 400 pixels below the top edge.
pub const GROUND_Y: i64 = 400_000_000_000_000;

/// Horizontal starting position of the player: 20 pixels.
pub const PLAYER_X: i64 = 20_000_000_000_000;

/// Vertical starting position of the player: 100 pixels.
pub const PLAYER_Y: i64 = 100_000_000_000_000;

/// A point or an extent in the plane.
#[derive(Clone, Copy, Debug, PartialEq, Eq, Structural)]
pub struct Vector2 {
    /// Horizontal component; positive is to the right.
    pub x: i64,
    /// Vertical component; positive is downwards.
    pub y: i64,
}

/// An axis-aligned rectangle, given by its top-left corner and its extent.
#[derive(Clone, Copy, Debug, PartialEq, Eq, Structural)]
pub struct Rect {
    /// Left edge.
    pub x: i64,
    /// Top edge.
    pub y: i64,
    /// Horizontal extent.
    pub width: i64,
    /// Vertical extent.
    pub height: i64,
}

impl Rect {
    /// A rectangle is well formed when neither extent is negative.
    pub open spec fn wf(self) -> bool {
        self.width >= 0 && self.height >= 0
    }

    /// The right edge.
    pub open spec fn right(self) -> int {
        self.x + self.width
    }

    /// The bottom edge.
    pub open spec fn bottom(self) -> int {
        self.y + self.height
    }

    /// Whether the point `(px, py)` lies in the closed region of the rectangle.
    pub open spec fn covers(self, px: int, py: int) -> bool {
        self.x <= px <= self.right() && self.y <= py <= self.bottom()
    }
}

} // verus!
