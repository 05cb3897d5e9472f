//! The window, the targets that move inside it, and one target's frame step.

use vstd::prelude::*;
use crate::geometry::{distance_squared, in_circle, point_in_circle, Point};

verus! {

/// Width of the game window, in pixels.
pub const WINDOW_WIDTH: i32 = 1200;

/// Height of the game window, in pixels.
pub const WINDOW_HEIGHT: i32 = 800;

/// Radius of every target. It is the same for all of them.
pub const TARGET_RADIUS: i32 = 15;

/// Smallest window extent on either axis that a game can be played in.
pub const MIN_EXTENT: i32 = 60;

/// Largest window extent on either axis that the arithmetic allows.
pub const MAX_EXTENT: i32 = 0x4000_0000;

/// Largest speed on either axis that the arithmetic allows.
pub const MAX_SPEED: i32 = 0x4000_0000;

/// The playing field: a rectangle with one corner at the origin.
#[derive(Clone, Copy, Debug, PartialEq, Eq, Structural)]
pub struct Window {
    pub width: i32,
    pub height: i32,
}

impl Window {
    /// A window has room for a game when both extents are at least
    /// `MIN_EXTENT`.
    pub open spec fn has_room(self) -> bool {
        MIN_EXTENT <= self.width && MIN_EXTENT <= self.height
    }

    /// A window is valid when it has room for a game and neither extent is
    /// above `MAX_EXTENT`.
    pub open spec fn is_valid(self) -> bool {
        self.has_room() && self.width <= MAX_EXTENT && self.height <= MAX_EXTENT
    }

    /// Tells whether the window is valid.
    pub fn validate(&self) -> (ok: bool)
        ensures
            ok == self.is_valid(),
    {
        MIN_EXTENT <= self.width && self.width <= MAX_EXTENT && MIN_EXTENT <= self.height
            && self.height <= MAX_EXTENT
    }

    /// Makes a window of the given extents, if they are valid.
    pub fn new(width: i32, height: i32) -> (made: Option<Window>)
        ensures
            made == if (Window { width, height }).is_valid() {
                Some(Window { width, height })
            } else {
                None::<Window>
            },
    {
        if MIN_EXTENT <= width && width <= MAX_EXTENT && MIN_EXTENT <= height && height
            <= MAX_EXTENT {
            Some(Window { width, height })
        } else {
            None
        }
    }

    /// The window that the game is played in: `WINDOW_WIDTH` by `WINDOW_HEIGHT`.
    pub fn standard() -> (made: Window)
        ensures
            made == (Window { width: WINDOW_WIDTH, height: WINDOW_HEIGHT }),
            made.is_valid(),
    {
        Window { width: WINDOW_WIDTH, height: WINDOW_HEIGHT }
    }
}

/// Whether a target's centre at coordinate `pos` touches or has passed a wall
/// of an axis that runs from 0 to `extent`.
pub open spec fn at_wall(pos: int, extent: int) -> bool {
    pos <= TARGET_RADIUS || pos >= extent - TARGET_RADIUS
}

/// The velocity on one axis after a move that ended at `pos`: reversed at a
/// wall, unchanged elsewhere.
pub open spec fn bounced(pos: int, dir: int, extent: int) -> int {
    if at_wall(pos, extent) {
        -dir
    } else {
        dir
    }
}

/// Whether one axis of a target can take a step without leaving the range of
/// the machine integers.
pub open spec fn axis_can_advance(pos: int, dir: int) -> bool {
    &&& -MAX_SPEED <= dir <= MAX_SPEED
    &&& i32::MIN <= pos + dir <= i32::MAX
}

/// A moving circular hit region: its centre and its velocity per frame.
#[derive(Clone, Copy, Debug, PartialEq, Eq, Structural)]
pub struct Target {
    pub pos_x: i32,
    pub pos_y: i32,
    pub dir_y: i32,
    pub dir_x: i32,
}

impl Target {
    /// Whether the target can take a frame step within the machine integers.
    pub open spec fn can_advance(self) -> bool {
        &&& axis_can_advance(self.pos_x as int, self.dir_x as int)
        &&& axis_can_advance(self.pos_y as int, self.dir_y as int)
    }

    /// The target one frame later: the velocity is added to the position, and
    /// then each axis of the velocity is reversed where the new position is at
    /// a wall. The position itself is not pulled back into the window.
    pub open spec fn moved(self, window: Window) -> Target {
        let x = self.pos_x + self.dir_x;
        let y = self.pos_y + self.dir_y;
        Target {
            pos_x: x as i32,
            pos_y: y as i32,
            dir_y: bounced(y, self.dir_y as int, window.height as int) as i32,
            dir_x: bounced(x, self.dir_x as int, window.width as int) as i32,
        }
    }

    /// Whether the point lies on the target: at most `TARGET_RADIUS` from its
    /// centre.
    pub open spec fn covers(self, point: Point) -> bool {
        in_circle(
            point.x as int,
            point.y as int,
            self.pos_x as int,
            self.pos_y as int,
            TARGET_RADIUS as int,
        )
    }

    /// Whether the target does not move at all.
    pub open spec fn is_still(self) -> bool {
        self.dir_x == 0 && self.dir_y == 0
    }

    /// Tells whether the target can take a frame step within the machine
    /// integers.
    pub fn validate(&self) -> (ok: bool)
        ensures
            ok == self.can_advance(),
    {
        let next_x: i64 = self.pos_x as i64 + self.dir_x as i64;
        let next_y: i64 = self.pos_y as i64 + self.dir_y as i64;
        -MAX_SPEED <= self.dir_x && self.dir_x <= MAX_SPEED && -MAX_SPEED <= self.dir_y
            && self.dir_y <= MAX_SPEED && i32::MIN as i64 <= next_x && next_x <= i32::MAX as i64
            && i32::MIN as i64 <= next_y && next_y <= i32::MAX as i64
    }

    /// Moves the target by one frame.
    pub fn advance(&mut self, window: &Window)
        requires
            old(self).can_advance(),
            window.is_valid(),
        ensures
            *final(self) == old(self).moved(*window),
            final(self).pos_x == old(self).pos_x + old(self).dir_x,
            final(self).pos_y == old(self).pos_y + old(self).dir_y,
            final(self).dir_x == if at_wall(final(self).pos_x as int, window.width as int) {
                -old(self).dir_x
            } else {
                old(self).dir_x as int
            },
            final(self).dir_y == if at_wall(final(self).pos_y as int, window.height as int) {
                -old(self).dir_y
            } else {
                old(self).dir_y as int
            },
            final(self).can_advance(),
    {
        self.pos_x = self.pos_x + self.dir_x;
        self.pos_y = self.pos_y + self.dir_y;
        if self.pos_x >= window.width - TARGET_RADIUS || self.pos_x <= TARGET_RADIUS {
            self.dir_x = -self.dir_x;
        }
        if self.pos_y >= window.height - TARGET_RADIUS || self.pos_y <= TARGET_RADIUS {
            self.dir_y = -self.dir_y;
        }
    }

    /// Whether a click at `point` hits the target.
    pub fn is_hit(&self, point: Point) -> (hit: bool)
        ensures
            hit == self.covers(point),
    {
        point_in_circle(point.x, point.y, self.pos_x, self.pos_y, TARGET_RADIUS)
    }
}

/// A step keeps a target within the machine integers, so that it can take the
/// next one: frame after frame, in any valid window.
pub proof fn lemma_moved_can_advance(target: Target, window: Window)
    requires
        target.can_advance(),
        window.is_valid(),
    ensures
        target.moved(window).can_advance(),
{
}

/// A target whose new position is at a wall leaves the step with that axis of
/// its velocity reversed, and with it unchanged otherwise.
pub proof fn lemma_wall_reverses_velocity(target: Target, window: Window)
    requires
        target.can_advance(),
        window.is_valid(),
    ensures
        at_wall(target.moved(window).pos_x as int, window.width as int) ==> target.moved(
            window,
        ).dir_x == -target.dir_x,
        !at_wall(target.moved(window).pos_x as int, window.width as int) ==> target.moved(
            window,
        ).dir_x == target.dir_x,
        at_wall(target.moved(window).pos_y as int, window.height as int) ==> target.moved(
            window,
        ).dir_y == -target.dir_y,
        !at_wall(target.moved(window).pos_y as int, window.height as int) ==> target.moved(
            window,
        ).dir_y == target.dir_y,
{
}

/// A click at exactly `TARGET_RADIUS` from a target's centre hits it, and so
/// does every closer one; a click farther away misses.
pub proof fn lemma_hit_includes_boundary(target: Target, point: Point)
    ensures
        distance_squared(
            point.x as int,
            point.y as int,
            target.pos_x as int,
            target.pos_y as int,
        ) == TARGET_RADIUS * TARGET_RADIUS ==> target.covers(point),
        distance_squared(
            point.x as int,
            point.y as int,
            target.pos_x as int,
            target.pos_y as int,
        ) < TARGET_RADIUS * TARGET_RADIUS ==> target.covers(point),
        distance_squared(
            point.x as int,
            point.y as int,
            target.pos_x as int,
            target.pos_y as int,
        ) > TARGET_RADIUS * TARGET_RADIUS ==> !target.covers(point),
{
}

/// A target that does not move is the same after a step, wherever it is.
pub proof fn lemma_still_target_stays(target: Target, window: Window)
    requires
        target.is_still(),
    ensures
        target.moved(window) == target,
{
}

} // verus!
