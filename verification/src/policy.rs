//! The difficulty tiers and what each of them sets: the speed of the targets.

use vstd::prelude::*;

verus! {

/// How many targets a session starts with.
pub const TARGET_COUNT: usize = 10;

/// How far from every wall a new target's centre is placed, at the least.
pub const SPAWN_MARGIN: i32 = 30;

/// The difficulty tier of a session.
#[derive(Clone, Copy, Debug, PartialEq, Eq, Structural)]
pub enum GameDifficult {
    Easy,
    Medium,
    Hard,
}

impl GameDifficult {
    /// The speed of a target on each axis, in pixels per frame.
    pub open spec fn speed_of(self) -> int {
        match self {
            GameDifficult::Easy => 1,
            GameDifficult::Medium => 3,
            GameDifficult::Hard => 5,
        }
    }

    /// The tier's name as the menu shows it.
    pub open spec fn label_of(self) -> Seq<char> {
        match self {
            GameDifficult::Easy => "Easy"@,
            GameDifficult::Medium => "Medium"@,
            GameDifficult::Hard => "Hard"@,
        }
    }

    /// The speed of a target on each axis: 1 for easy, 3 for medium, 5 for
    /// hard.
    pub fn speed(&self) -> (speed: i32)
        ensures
            speed == self.speed_of(),
    {
        match self {
            GameDifficult::Easy => 1,
            GameDifficult::Medium => 3,
            GameDifficult::Hard => 5,
        }
    }

    /// The tier's name as the menu shows it.
    pub fn label(&self) -> (label: &'static str)
        ensures
            label@ == self.label_of(),
    {
        match self {
            GameDifficult::Easy => "Easy",
            GameDifficult::Medium => "Medium",
            GameDifficult::Hard => "Hard",
        }
    }
}

/// The tier after a frame in the menu in which the given tier keys went down.
/// Each key sets its tier; where several went down together, the harder tier
/// wins. With none of them the tier stays.
pub open spec fn selected(current: GameDifficult, easy: bool, medium: bool, hard: bool)
    -> GameDifficult {
    if hard {
        GameDifficult::Hard
    } else if medium {
        GameDifficult::Medium
    } else if easy {
        GameDifficult::Easy
    } else {
        current
    }
}

/// Applies the tier keys of one frame to the current tier.
pub fn select_difficulty(current: GameDifficult, easy: bool, medium: bool, hard: bool) -> (chosen:
    GameDifficult)
    ensures
        chosen == selected(current, easy, medium, hard),
{
    let mut chosen = current;
    if easy {
        chosen = GameDifficult::Easy;
    }
    if medium {
        chosen = GameDifficult::Medium;
    }
    if hard {
        chosen = GameDifficult::Hard;
    }
    chosen
}

} // verus!
