//! The motion and collision engine: one frame over the whole collection of
//! targets. Every target moves and bounces; then, if the player clicked, every
//! target under the click is removed and counted.

use vstd::prelude::*;
use crate::geometry::Point;
use crate::target::{lemma_moved_can_advance, lemma_still_target_stays, Target, Window};

verus! {

/// Whether a target, where it stands after its move, outlives the frame: it
/// does unless there was a click and the click lies on it.
pub open spec fn survives(target: Target, click: Option<Point>) -> bool {
    match click {
        Some(point) => !target.covers(point),
        None => true,
    }
}

/// The test that picks the survivors of a frame with the given click.
pub open spec fn keeps(click: Option<Point>) -> spec_fn(Target) -> bool {
    |target: Target| survives(target, click)
}

/// The move of one target, as a function of the target.
pub open spec fn mover(window: Window) -> spec_fn(Target) -> Target {
    |target: Target| target.moved(window)
}

/// Every target of the collection after its move, in the same order.
pub open spec fn all_moved(targets: Seq<Target>, window: Window) -> Seq<Target> {
    targets.map_values(mover(window))
}

/// The collection after one frame: the moved targets that the click did not
/// hit, in their old order.
pub open spec fn survivors(targets: Seq<Target>, click: Option<Point>, window: Window) -> Seq<
    Target,
> {
    all_moved(targets, window).filter(keeps(click))
}

/// The test that picks the targets that the click of a frame hits.
pub open spec fn strikes(click: Option<Point>) -> spec_fn(Target) -> bool {
    |target: Target| !survives(target, click)
}

/// The targets that the frame removes: the moved targets that the click lies
/// on. Without a click there is none.
pub open spec fn struck(targets: Seq<Target>, click: Option<Point>, window: Window) -> Seq<
    Target,
> {
    all_moved(targets, window).filter(strikes(click))
}

/// The number of targets that the frame removes: how many of them the click
/// lies on after their move.
pub open spec fn hit_count(targets: Seq<Target>, click: Option<Point>, window: Window) -> int {
    struck(targets, click, window).len() as int
}

/// Whether the frame registers a hit: there was a click, and it lies on at
/// least one target after the move.
pub open spec fn hit_registered(targets: Seq<Target>, click: Option<Point>, window: Window) -> bool {
    exists|i: int| 0 <= i < targets.len() && !survives(#[trigger] targets[i].moved(window), click)
}

/// Whether every target of the collection can take a frame step.
pub open spec fn all_can_advance(targets: Seq<Target>) -> bool {
    forall|i: int| 0 <= i < targets.len() ==> (#[trigger] targets[i]).can_advance()
}

/// The collection after the given number of frames without a click.
pub open spec fn after_quiet_frames(targets: Seq<Target>, window: Window, frames: nat) -> Seq<
    Target,
>
    decreases frames,
{
    if frames == 0 {
        targets
    } else {
        after_quiet_frames(survivors(targets, None, window), window, (frames - 1) as nat)
    }
}

/// What one frame leaves: the targets still in play, and how many were hit.
#[derive(Debug, PartialEq, Eq)]
pub struct FrameOutcome {
    pub survivors: Vec<Target>,
    pub hits: usize,
}

/// One more target at the end of the collection adds its moved self to the end
/// of the survivors, or nothing if the click hits it.
pub proof fn lemma_survivors_push(
    targets: Seq<Target>,
    last: Target,
    click: Option<Point>,
    window: Window,
)
    ensures
        survivors(targets.push(last), click, window) == if survives(last.moved(window), click) {
            survivors(targets, click, window).push(last.moved(window))
        } else {
            survivors(targets, click, window)
        },
{
    assert(all_moved(targets.push(last), window) =~= all_moved(targets, window).push(
        last.moved(window),
    ));
    all_moved(targets, window).lemma_filter_push(last.moved(window), keeps(click));
}

/// One more target at the end of the collection adds its moved self to the end
/// of the struck targets if the click hits it, and nothing otherwise.
pub proof fn lemma_struck_push(
    targets: Seq<Target>,
    last: Target,
    click: Option<Point>,
    window: Window,
)
    ensures
        struck(targets.push(last), click, window) == if survives(last.moved(window), click) {
            struck(targets, click, window)
        } else {
            struck(targets, click, window).push(last.moved(window))
        },
{
    assert(all_moved(targets.push(last), window) =~= all_moved(targets, window).push(
        last.moved(window),
    ));
    all_moved(targets, window).lemma_filter_push(last.moved(window), strikes(click));
}

/// Every target of a frame either survives it or is struck: the survivors and
/// the struck targets together are as many as the targets were.
pub proof fn lemma_survivors_and_struck(
    targets: Seq<Target>,
    click: Option<Point>,
    window: Window,
)
    ensures
        survivors(targets, click, window).len() + hit_count(targets, click, window)
            == targets.len(),
        0 <= hit_count(targets, click, window) <= targets.len(),
    decreases targets.len(),
{
    if targets.len() == 0 {
        reveal(Seq::filter);
        assert(all_moved(targets, window) =~= Seq::empty());
    } else {
        let front = targets.drop_last();
        assert(targets =~= front.push(targets.last()));
        lemma_survivors_and_struck(front, click, window);
        lemma_survivors_push(front, targets.last(), click, window);
        lemma_struck_push(front, targets.last(), click, window);
    }
}

/// Every survivor of a frame can take the next frame's step.
pub proof fn lemma_survivors_can_advance(
    targets: Seq<Target>,
    click: Option<Point>,
    window: Window,
)
    requires
        all_can_advance(targets),
        window.is_valid(),
    ensures
        all_can_advance(survivors(targets, click, window)),
    decreases targets.len(),
{
    if targets.len() == 0 {
        reveal(Seq::filter);
        assert(all_moved(targets, window) =~= Seq::empty());
    } else {
        let front = targets.drop_last();
        assert(targets =~= front.push(targets.last()));
        lemma_survivors_can_advance(front, click, window);
        lemma_survivors_push(front, targets.last(), click, window);
        lemma_moved_can_advance(targets.last(), window);
    }
}

/// The number of targets never grows over a frame, and it shrinks exactly on
/// the frames that register a hit.
pub proof fn lemma_count_shrinks_only_on_hit(
    targets: Seq<Target>,
    click: Option<Point>,
    window: Window,
)
    ensures
        survivors(targets, click, window).len() <= targets.len(),
        survivors(targets, click, window).len() < targets.len() <==> hit_registered(
            targets,
            click,
            window,
        ),
        hit_count(targets, click, window) > 0 <==> hit_registered(targets, click, window),
        hit_registered(targets, click, window) ==> click is Some,
    decreases targets.len(),
{
    lemma_survivors_and_struck(targets, click, window);
    if targets.len() == 0 {
        reveal(Seq::filter);
        assert(all_moved(targets, window) =~= Seq::empty());
    } else {
        let front = targets.drop_last();
        let last = targets.last();
        assert(targets =~= front.push(last));
        lemma_count_shrinks_only_on_hit(front, click, window);
        lemma_survivors_push(front, last, click, window);
        if hit_registered(front, click, window) {
            let i = choose|i: int|
                0 <= i < front.len() && !survives(#[trigger] front[i].moved(window), click);
            assert(targets[i] == front[i]);
        }
        if !survives(last.moved(window), click) {
            assert(!survives(targets[targets.len() - 1].moved(window), click));
        }
        if hit_registered(targets, click, window) {
            let i = choose|i: int|
                0 <= i < targets.len() && !survives(#[trigger] targets[i].moved(window), click);
            if i < front.len() {
                assert(front[i] == targets[i]);
            }
        }
    }
}

/// A frame without a click removes nothing: every target is still there,
/// moved.
pub proof fn lemma_quiet_frame_keeps_all(targets: Seq<Target>, window: Window)
    ensures
        survivors(targets, None, window) == all_moved(targets, window),
    decreases targets.len(),
{
    if targets.len() == 0 {
        reveal(Seq::filter);
        assert(all_moved(targets, window) =~= Seq::empty());
    } else {
        let front = targets.drop_last();
        assert(targets =~= front.push(targets.last()));
        lemma_quiet_frame_keeps_all(front, window);
        lemma_survivors_push(front, targets.last(), None, window);
        assert(all_moved(targets, window) =~= all_moved(front, window).push(
            targets.last().moved(window),
        ));
    }
}

/// Targets that do not move and are never clicked stay as they are, for any
/// number of frames.
pub proof fn lemma_still_targets_never_change(targets: Seq<Target>, window: Window, frames: nat)
    requires
        forall|i: int| 0 <= i < targets.len() ==> (#[trigger] targets[i]).is_still(),
    ensures
        after_quiet_frames(targets, window, frames) == targets,
    decreases frames,
{
    if frames > 0 {
        lemma_quiet_frame_keeps_all(targets, window);
        assert forall|i: int| 0 <= i < targets.len() implies all_moved(targets, window)[i]
            == targets[i] by {
            lemma_still_target_stays(targets[i], window);
        }
        assert(all_moved(targets, window) =~= targets);
        lemma_still_targets_never_change(targets, window, (frames - 1) as nat);
    }
}

/// Tells whether every target of the collection can take a frame step.
pub fn validate_targets(targets: &Vec<Target>) -> (ok: bool)
    ensures
        ok == all_can_advance(targets@),
{
    let mut i: usize = 0;
    while i < targets.len()
        invariant
            i <= targets.len(),
            forall|k: int| 0 <= k < i ==> (#[trigger] targets@[k]).can_advance(),
        decreases targets.len() - i,
    {
        if !targets[i].validate() {
            return false;
        }
        i = i + 1;
    }
    true
}

/// Runs one frame of the engine over the collection: moves every target,
/// bounces it off the walls, and drops those that the click hits. A click on
/// overlapping targets removes all of them. The survivors keep their order.
pub fn step_targets(targets: &Vec<Target>, click: Option<Point>, window: &Window) -> (out:
    FrameOutcome)
    requires
        all_can_advance(targets@),
        window.is_valid(),
    ensures
        out.survivors@ == survivors(targets@, click, *window),
        out.hits as int == hit_count(targets@, click, *window),
        out.survivors.len() + out.hits == targets.len(),
        out.survivors.len() < targets.len() <==> hit_registered(targets@, click, *window),
        click is None ==> out.survivors@ == all_moved(targets@, *window),
        all_can_advance(out.survivors@),
{
    let mut kept: Vec<Target> = Vec::new();
    let mut hits: usize = 0;
    let mut i: usize = 0;
    proof {
        reveal(Seq::filter);
        assert(all_moved(targets@.take(0), *window) =~= Seq::empty());
    }
    while i < targets.len()
        invariant
            i <= targets.len(),
            window.is_valid(),
            all_can_advance(targets@),
            kept@ == survivors(targets@.take(i as int), click, *window),
            hits as int == hit_count(targets@.take(i as int), click, *window),
            hits + kept.len() == i,
        decreases targets.len() - i,
    {
        let mut target = targets[i];
        target.advance(window);
        let keep_alive = match click {
            Some(point) => !target.is_hit(point),
            None => true,
        };
        proof {
            assert(targets@.take(i + 1) =~= targets@.take(i as int).push(targets@[i as int]));
            lemma_survivors_push(targets@.take(i as int), targets@[i as int], click, *window);
            lemma_struck_push(targets@.take(i as int), targets@[i as int], click, *window);
        }
        if keep_alive {
            kept.push(target);
        } else {
            hits = hits + 1;
        }
        i = i + 1;
    }
    proof {
        assert(targets@.take(targets.len() as int) =~= targets@);
        lemma_count_shrinks_only_on_hit(targets@, click, *window);
        lemma_survivors_can_advance(targets@, click, *window);
        if click is None {
            lemma_quiet_frame_keeps_all(targets@, *window);
        }
    }
    FrameOutcome { survivors: kept, hits }
}

} // verus!
