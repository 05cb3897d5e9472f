//! The spawner: ten targets at random places, moving at the speed of the
//! difficulty tier in random directions.

use vstd::prelude::*;
use rand::rngs::ThreadRng;
use crate::engine::all_can_advance;
use crate::policy::{GameDifficult, SPAWN_MARGIN, TARGET_COUNT};
use crate::target::{Target, Window};

verus! {

/// The thread-local random number generator of the `rand` crate. Nothing is
/// known of its state.
#[verifier::external_type_specification]
#[verifier::external_body]
pub struct ExThreadRng(rand::rngs::ThreadRng);

/// Draws an integer with `rand::Rng::random_range` on the inclusive range from
/// `low` to `high`. The range must not be empty, or the draw panics. All that
/// is claimed of the number is that it lies in the range.
#[verifier::external_body]
fn random_in_range(rng: &mut ThreadRng, low: i32, high: i32) -> (drawn: i32)
    requires
        low <= high,
    ensures
        low <= drawn <= high,
{
    rand::Rng::random_range(rng, low..=high)
}

/// Draws a boolean with `rand::Rng::random`. Nothing is claimed of it.
#[verifier::external_body]
fn random_flag(rng: &mut ThreadRng) -> bool {
    rand::Rng::random(rng)
}

/// A speed with its direction: negative where `reversed`.
pub open spec fn directed(speed: int, reversed: bool) -> int {
    if reversed {
        -speed
    } else {
        speed
    }
}

/// The target that is made from a place, two direction draws and a tier.
pub open spec fn spawned(
    pos_x: i32,
    pos_y: i32,
    reverse_x: bool,
    reverse_y: bool,
    difficult: GameDifficult,
) -> Target {
    Target {
        pos_x,
        pos_y,
        dir_y: directed(difficult.speed_of(), reverse_y) as i32,
        dir_x: directed(difficult.speed_of(), reverse_x) as i32,
    }
}

/// Whether the target is one that the spawner can have made for the tier and
/// the window: its centre is at least `SPAWN_MARGIN` from every wall, and on
/// each axis it moves at the tier's speed, one way or the other.
pub open spec fn well_spawned(target: Target, difficult: GameDifficult, window: Window) -> bool {
    &&& SPAWN_MARGIN <= target.pos_x <= window.width - SPAWN_MARGIN
    &&& SPAWN_MARGIN <= target.pos_y <= window.height - SPAWN_MARGIN
    &&& target.dir_x == difficult.speed_of() || target.dir_x == -difficult.speed_of()
    &&& target.dir_y == difficult.speed_of() || target.dir_y == -difficult.speed_of()
}

/// Whether the collection is one that the spawner can have made: exactly
/// `TARGET_COUNT` targets, each of them well spawned.
pub open spec fn fresh_targets(targets: Seq<Target>, difficult: GameDifficult, window: Window)
    -> bool {
    &&& targets.len() == TARGET_COUNT
    &&& forall|i: int|
        0 <= i < targets.len() ==> well_spawned(#[trigger] targets[i], difficult, window)
}

/// Makes the target for a place, two direction draws and a tier.
pub fn make_target(
    pos_x: i32,
    pos_y: i32,
    reverse_x: bool,
    reverse_y: bool,
    difficult: GameDifficult,
) -> (target: Target)
    ensures
        target == spawned(pos_x, pos_y, reverse_x, reverse_y, difficult),
{
    let mut dir_y = difficult.speed();
    let mut dir_x = difficult.speed();
    if reverse_x {
        dir_x = -dir_x;
    }
    if reverse_y {
        dir_y = -dir_y;
    }
    Target { pos_x, pos_y, dir_y, dir_x }
}

/// Spawns the targets of a new session. Each centre is drawn independently on
/// each axis between `SPAWN_MARGIN` and the window's extent less `SPAWN_MARGIN`,
/// both included, and each axis of the velocity is reversed or not by a draw of
/// its own. Targets may overlap.
pub fn spawn_targets(difficult: GameDifficult, window: &Window, rng: &mut ThreadRng) -> (targets:
    Vec<Target>)
    requires
        window.has_room(),
    ensures
        fresh_targets(targets@, difficult, *window),
        all_can_advance(targets@),
{
    let mut targets: Vec<Target> = Vec::new();
    let mut made: usize = 0;
    while made < TARGET_COUNT
        invariant
            made <= TARGET_COUNT,
            window.has_room(),
            targets.len() == made,
            forall|i: int|
                0 <= i < targets.len() ==> well_spawned(#[trigger] targets[i], difficult, *window),
            all_can_advance(targets@),
        decreases TARGET_COUNT - made,
    {
        let pos_y = random_in_range(rng, SPAWN_MARGIN, window.height - SPAWN_MARGIN);
        let pos_x = random_in_range(rng, SPAWN_MARGIN, window.width - SPAWN_MARGIN);
        let reverse_x = random_flag(rng);
        let reverse_y = random_flag(rng);
        let target = make_target(pos_x, pos_y, reverse_x, reverse_y, difficult);
        targets.push(target);
        made = made + 1;
    }
    targets
}

} // verus!
