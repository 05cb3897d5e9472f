//! The three screens and the transitions between them: the menu, the running
//! session and the winning screen. Each frame, the front end polls the input
//! devices, hands what it found to the update function of the current screen,
//! and gets the next state back.

use vstd::prelude::*;
use rand::rngs::ThreadRng;
use crate::engine::{
    after_quiet_frames, all_can_advance, all_moved, hit_count, hit_registered,
    lemma_count_shrinks_only_on_hit, lemma_still_targets_never_change,
    lemma_survivors_and_struck, lemma_survivors_can_advance, step_targets, survivors,
    validate_targets,
};
use crate::geometry::Point;
use crate::ledger::{current_time, Timestamp};
use crate::policy::{select_difficulty, selected, GameDifficult};
use crate::spawner::{fresh_targets, spawn_targets};
use crate::target::{Target, Window};

verus! {

/// What the input devices report for one frame. A key or button counts only in
/// the frame in which it goes down, not while it is held.
#[derive(Clone, Copy, Debug, PartialEq, Eq)]
pub struct FrameInput {
    /// The start key went down.
    pub start: bool,
    /// The key for the easy tier went down.
    pub easy: bool,
    /// The key for the medium tier went down.
    pub medium: bool,
    /// The key for the hard tier went down.
    pub hard: bool,
    /// The cancel key went down.
    pub cancel: bool,
    /// The confirm key went down.
    pub confirm: bool,
    /// Where the cursor was, if the left mouse button went down.
    pub click: Option<Point>,
}

/// The screen that is shown, with what that screen needs: a running session
/// has its targets, its counter and the time it started at; the winning screen
/// has the counter and both times.
#[derive(Debug, PartialEq, Eq)]
pub enum GameScreens {
    MainScreen,
    GameRunning { targets: Vec<Target>, clicks: u32, started_at: Timestamp },
    WinningScreen { clicks: u32, started_at: Timestamp, finished_at: Timestamp },
}

/// The whole state of the game.
#[derive(Debug, PartialEq, Eq)]
pub struct GameState {
    pub current_screen: GameScreens,
    pub difficult: GameDifficult,
}

/// A screen as a mathematical value.
pub enum ScreenModel {
    Main,
    Running { targets: Seq<Target>, clicks: int, started_at: Timestamp },
    Winning { clicks: int, started_at: Timestamp, finished_at: Timestamp },
}

/// The state of the game as a mathematical value.
pub struct StateModel {
    pub screen: ScreenModel,
    pub difficult: GameDifficult,
}

impl View for GameScreens {
    type V = ScreenModel;

    open spec fn view(&self) -> ScreenModel {
        match *self {
            GameScreens::MainScreen => ScreenModel::Main,
            GameScreens::GameRunning { targets, clicks, started_at } => ScreenModel::Running {
                targets: targets@,
                clicks: clicks as int,
                started_at,
            },
            GameScreens::WinningScreen { clicks, started_at, finished_at } => ScreenModel::Winning {
                clicks: clicks as int,
                started_at,
                finished_at,
            },
        }
    }
}

impl View for GameState {
    type V = StateModel;

    open spec fn view(&self) -> StateModel {
        StateModel { screen: self.current_screen@, difficult: self.difficult }
    }
}

impl ScreenModel {
    /// What always holds of a screen. A running session has at least one target,
    /// every target can take a step, and the counter has room for every target
    /// still in play; the times are valid readings of the clock.
    pub open spec fn is_valid(self) -> bool {
        match self {
            ScreenModel::Main => true,
            ScreenModel::Running { targets, clicks, started_at } => {
                &&& targets.len() > 0
                &&& all_can_advance(targets)
                &&& 0 <= clicks
                &&& clicks + targets.len() <= u32::MAX
                &&& started_at.is_valid()
            },
            ScreenModel::Winning { clicks, started_at, finished_at } => {
                &&& 0 <= clicks <= u32::MAX
                &&& started_at.is_valid()
                &&& finished_at.is_valid()
            },
        }
    }

    /// The targets in play: none outside a running session.
    pub open spec fn targets(self) -> Seq<Target> {
        match self {
            ScreenModel::Running { targets, .. } => targets,
            _ => Seq::empty(),
        }
    }

    /// The number of targets in play.
    pub open spec fn target_count(self) -> nat {
        self.targets().len()
    }

    /// The counter: zero in the menu.
    pub open spec fn clicks(self) -> int {
        match self {
            ScreenModel::Main => 0,
            ScreenModel::Running { clicks, .. } => clicks,
            ScreenModel::Winning { clicks, .. } => clicks,
        }
    }

    /// The time at which the session started, on the screens that have one.
    pub open spec fn start_time(self) -> Option<Timestamp> {
        match self {
            ScreenModel::Main => None,
            ScreenModel::Running { started_at, .. } => Some(started_at),
            ScreenModel::Winning { started_at, .. } => Some(started_at),
        }
    }

    /// The time at which the session was won, on the winning screen.
    pub open spec fn finish_time(self) -> Option<Timestamp> {
        match self {
            ScreenModel::Winning { finished_at, .. } => Some(finished_at),
            _ => None,
        }
    }
}

/// The time in the option, or the start of 1970 where there is none.
pub open spec fn time_or_epoch(time: Option<Timestamp>) -> Timestamp {
    match time {
        Some(time) => time,
        None => Timestamp { secs: 0, nanos: 0 },
    }
}

/// The screen that a new session starts on.
pub open spec fn session_start(targets: Seq<Target>, now: Timestamp) -> ScreenModel {
    ScreenModel::Running { targets, clicks: 0, started_at: now }
}

/// The state after one frame in the menu. The start key begins a session with
/// the given targets at the given time and a counter of zero. The tier keys
/// set the tier, whether or not the session began in the same frame; the
/// targets that begin it were made for the tier as it was. On another screen
/// the frame changes nothing.
pub open spec fn menu_step(
    state: StateModel,
    input: FrameInput,
    fresh: Seq<Target>,
    now: Timestamp,
) -> StateModel {
    match state.screen {
        ScreenModel::Main => StateModel {
            screen: if input.start {
                session_start(fresh, now)
            } else {
                ScreenModel::Main
            },
            difficult: selected(state.difficult, input.easy, input.medium, input.hard),
        },
        _ => state,
    }
}

/// The state after one frame of a running session. The cancel key abandons
/// the session for the menu and nothing else happens. Otherwise the engine
/// runs: the targets move, those under a click are removed and each of them is
/// counted, and if none is left the session is won at the given time. The tier
/// keys do nothing here. On another screen the frame changes nothing.
pub open spec fn running_step(
    state: StateModel,
    input: FrameInput,
    window: Window,
    now: Timestamp,
) -> StateModel {
    match state.screen {
        ScreenModel::Running { targets, clicks, started_at } => StateModel {
            screen: if input.cancel {
                ScreenModel::Main
            } else if survivors(targets, input.click, window).len() == 0 {
                ScreenModel::Winning {
                    clicks: clicks + hit_count(targets, input.click, window),
                    started_at,
                    finished_at: now,
                }
            } else {
                ScreenModel::Running {
                    targets: survivors(targets, input.click, window),
                    clicks: clicks + hit_count(targets, input.click, window),
                    started_at,
                }
            },
            difficult: state.difficult,
        },
        _ => state,
    }
}

/// The state after one frame on the winning screen: the confirm key leads
/// back to the menu. On another screen the frame changes nothing.
pub open spec fn winning_step(state: StateModel, input: FrameInput) -> StateModel {
    match state.screen {
        ScreenModel::Winning { .. } => StateModel {
            screen: if input.confirm {
                ScreenModel::Main
            } else {
                state.screen
            },
            difficult: state.difficult,
        },
        _ => state,
    }
}

/// Whether the targets can begin a session: there is at least one, every one
/// can take a step, and a counter can count them all.
pub open spec fn can_begin_with(targets: Seq<Target>) -> bool {
    &&& 0 < targets.len() <= u32::MAX
    &&& all_can_advance(targets)
}

/// Every step leads from a valid state to a valid state.
pub proof fn lemma_steps_keep_valid(
    state: StateModel,
    input: FrameInput,
    window: Window,
    fresh: Seq<Target>,
    now: Timestamp,
)
    requires
        state.screen.is_valid(),
        window.is_valid(),
        can_begin_with(fresh),
        now.is_valid(),
    ensures
        menu_step(state, input, fresh, now).screen.is_valid(),
        running_step(state, input, window, now).screen.is_valid(),
        winning_step(state, input).screen.is_valid(),
{
    if let ScreenModel::Running { targets, clicks, started_at } = state.screen {
        lemma_survivors_and_struck(targets, input.click, window);
        lemma_survivors_can_advance(targets, input.click, window);
    }
}

/// While a session runs, the number of targets never grows from one frame to
/// the next, and in a frame that does not abandon the session it shrinks
/// exactly when the frame registers a hit.
pub proof fn lemma_target_count_never_grows(
    state: StateModel,
    input: FrameInput,
    window: Window,
    now: Timestamp,
)
    requires
        state.screen is Running,
    ensures
        running_step(state, input, window, now).screen.target_count()
            <= state.screen.target_count(),
        !input.cancel ==> (running_step(state, input, window, now).screen.target_count()
            < state.screen.target_count() <==> hit_registered(
            state.screen.targets(),
            input.click,
            window,
        )),
        !input.cancel && input.click is None ==> running_step(
            state,
            input,
            window,
            now,
        ).screen.target_count() == state.screen.target_count(),
{
    lemma_count_shrinks_only_on_hit(state.screen.targets(), input.click, window);
}

/// A session whose targets do not move stays exactly as it is through every
/// frame without a click and without the cancel key.
pub proof fn lemma_still_session_never_changes(
    state: StateModel,
    input: FrameInput,
    window: Window,
    now: Timestamp,
)
    requires
        state.screen is Running,
        state.screen.target_count() > 0,
        forall|i: int|
            0 <= i < state.screen.targets().len() ==> (#[trigger] state.screen.targets()[i])
                .is_still(),
        !input.cancel,
        input.click is None,
    ensures
        running_step(state, input, window, now) == state,
{
    let targets = state.screen.targets();
    lemma_still_targets_never_change(targets, window, 1);
    assert(after_quiet_frames(targets, window, 1) == after_quiet_frames(
        survivors(targets, None, window),
        window,
        0,
    ));
    lemma_survivors_and_struck(targets, input.click, window);
}

/// In a frame that does not abandon the session, the counter grows by one for
/// every target that the click lies on after the move, and the number of
/// targets falls by as many. So the counter never falls, a click that hits
/// nothing and a frame without a click leave both as they were, and the
/// counter and the targets in play together stay what they were.
pub proof fn lemma_counter_counts_hits(
    state: StateModel,
    input: FrameInput,
    window: Window,
    now: Timestamp,
)
    requires
        state.screen is Running,
        !input.cancel,
    ensures
        running_step(state, input, window, now).screen.clicks() == state.screen.clicks()
            + hit_count(state.screen.targets(), input.click, window),
        running_step(state, input, window, now).screen.target_count()
            == state.screen.target_count() - hit_count(
            state.screen.targets(),
            input.click,
            window,
        ),
        0 <= hit_count(state.screen.targets(), input.click, window)
            <= state.screen.target_count(),
        !hit_registered(state.screen.targets(), input.click, window) ==> hit_count(
            state.screen.targets(),
            input.click,
            window,
        ) == 0,
        input.click is None ==> hit_count(state.screen.targets(), input.click, window) == 0,
{
    lemma_survivors_and_struck(state.screen.targets(), input.click, window);
    lemma_count_shrinks_only_on_hit(state.screen.targets(), input.click, window);
}

/// The state after a run of frames of a session, each with its input and the
/// reading of the clock in it, the first frame first.
pub open spec fn after_frames(
    state: StateModel,
    frames: Seq<(FrameInput, Timestamp)>,
    window: Window,
) -> StateModel
    decreases frames.len(),
{
    if frames.len() == 0 {
        state
    } else {
        running_step(
            after_frames(state, frames.drop_last(), window),
            frames.last().0,
            window,
            frames.last().1,
        )
    }
}

/// A session whose targets do not move stays exactly as it is for as many
/// frames as one likes, as long as none of them has a click or the cancel
/// key.
pub proof fn lemma_still_session_stays_for_ever(
    state: StateModel,
    frames: Seq<(FrameInput, Timestamp)>,
    window: Window,
)
    requires
        state.screen is Running,
        state.screen.target_count() > 0,
        forall|i: int|
            0 <= i < state.screen.targets().len() ==> (#[trigger] state.screen.targets()[i])
                .is_still(),
        forall|k: int|
            0 <= k < frames.len() ==> !(#[trigger] frames[k]).0.cancel && frames[k].0.click is None,
    ensures
        after_frames(state, frames, window) == state,
    decreases frames.len(),
{
    if frames.len() > 0 {
        let front = frames.drop_last();
        assert forall|k: int| 0 <= k < front.len() implies !(#[trigger] front[k]).0.cancel
            && front[k].0.click is None by {
            assert(front[k] == frames[k]);
        }
        lemma_still_session_stays_for_ever(state, front, window);
        lemma_still_session_never_changes(state, frames.last().0, window, frames.last().1);
    }
}

/// Over any run of frames the number of targets never grows, and over a run
/// without the cancel key the counter never falls: what the targets lose, the
/// counter gains.
pub proof fn lemma_frames_only_remove_targets(
    state: StateModel,
    frames: Seq<(FrameInput, Timestamp)>,
    window: Window,
)
    requires
        state.screen is Running,
    ensures
        after_frames(state, frames, window).screen.target_count()
            <= state.screen.target_count(),
        (forall|k: int| 0 <= k < frames.len() ==> !(#[trigger] frames[k]).0.cancel) ==> {
            &&& !(after_frames(state, frames, window).screen is Main)
            &&& after_frames(state, frames, window).screen.clicks() >= state.screen.clicks()
            &&& after_frames(state, frames, window).screen.clicks() + after_frames(
                state,
                frames,
                window,
            ).screen.target_count() == state.screen.clicks() + state.screen.target_count()
        },
    decreases frames.len(),
{
    if frames.len() > 0 {
        let front = frames.drop_last();
        let before = after_frames(state, front, window);
        lemma_frames_only_remove_targets(state, front, window);
        if before.screen is Running {
            lemma_target_count_never_grows(before, frames.last().0, window, frames.last().1);
        }
        if forall|k: int| 0 <= k < frames.len() ==> !(#[trigger] frames[k]).0.cancel {
            assert forall|k: int| 0 <= k < front.len() implies !(#[trigger] front[k]).0.cancel by {
                assert(front[k] == frames[k]);
            }
            assert(!frames[frames.len() - 1].0.cancel);
            if before.screen is Running {
                lemma_counter_counts_hits(before, frames.last().0, window, frames.last().1);
            }
        }
    }
}

/// A session is won in the very frame that removes its last target, and is
/// stamped with that frame's time; until then it goes on with at least one
/// target. The start time is the one that the session began with throughout.
pub proof fn lemma_won_when_last_target_goes(
    state: StateModel,
    input: FrameInput,
    window: Window,
    now: Timestamp,
)
    requires
        state.screen is Running,
        !input.cancel,
    ensures
        running_step(state, input, window, now).screen is Winning <==> survivors(
            state.screen.targets(),
            input.click,
            window,
        ).len() == 0,
        running_step(state, input, window, now).screen is Running <==> survivors(
            state.screen.targets(),
            input.click,
            window,
        ).len() > 0,
        running_step(state, input, window, now).screen is Winning ==> running_step(
            state,
            input,
            window,
            now,
        ).screen.finish_time() == Some(now),
        running_step(state, input, window, now).screen.start_time() == state.screen.start_time(),
{
}

/// The tier keys set the tier in the menu and nowhere else: a running session
/// and the winning screen leave the tier as it is, whatever keys go down.
pub proof fn lemma_tier_changes_only_in_menu(
    state: StateModel,
    input: FrameInput,
    window: Window,
    fresh: Seq<Target>,
    now: Timestamp,
)
    ensures
        running_step(state, input, window, now).difficult == state.difficult,
        winning_step(state, input).difficult == state.difficult,
        !(state.screen is Main) ==> menu_step(state, input, fresh, now) == state,
        state.screen is Main ==> menu_step(state, input, fresh, now).difficult == selected(
            state.difficult,
            input.easy,
            input.medium,
            input.hard,
        ),
{
}

impl GameState {
    /// What always holds of the state: see `ScreenModel::is_valid`.
    pub open spec fn is_valid(&self) -> bool {
        self@.screen.is_valid()
    }

    /// The state that the game starts in: the menu, on the easy tier.
    pub fn new() -> (state: GameState)
        ensures
            state@ == (StateModel { screen: ScreenModel::Main, difficult: GameDifficult::Easy }),
            state.is_valid(),
    {
        GameState { current_screen: GameScreens::MainScreen, difficult: GameDifficult::Easy }
    }

    /// Tells whether the state is valid.
    pub fn validate(&self) -> (ok: bool)
        ensures
            ok == self.is_valid(),
    {
        match &self.current_screen {
            GameScreens::MainScreen => true,
            GameScreens::GameRunning { targets, clicks, started_at } => {
                targets.len() > 0 && targets.len() <= (u32::MAX - *clicks) as usize
                    && started_at.validate() && validate_targets(targets)
            },
            GameScreens::WinningScreen { started_at, finished_at, .. } => {
                started_at.validate() && finished_at.validate()
            },
        }
    }

    /// The number of targets in play.
    pub fn target_count(&self) -> (count: usize)
        ensures
            count == self@.screen.target_count(),
    {
        match &self.current_screen {
            GameScreens::GameRunning { targets, .. } => targets.len(),
            _ => 0,
        }
    }
}

/// One frame in the menu, with the targets and the clock reading that a start
/// in this frame would use.
pub fn menu_frame(state: &mut GameState, input: &FrameInput, fresh: Vec<Target>, now: Timestamp)
    requires
        old(state).is_valid(),
        old(state)@.screen is Main && input.start ==> can_begin_with(fresh@),
        now.is_valid(),
    ensures
        final(state)@ == menu_step(old(state)@, *input, fresh@, now),
        final(state).is_valid(),
{
    if let GameScreens::MainScreen = state.current_screen {
        if input.start {
            state.current_screen = GameScreens::GameRunning {
                targets: fresh,
                clicks: 0,
                started_at: now,
            };
        }
        state.difficult = select_difficulty(state.difficult, input.easy, input.medium, input.hard);
    }
}

/// One frame of a running session, with the clock reading that a win in this
/// frame would be stamped with.
pub fn running_frame(state: &mut GameState, input: &FrameInput, window: &Window, now: Timestamp)
    requires
        old(state).is_valid(),
        window.is_valid(),
        now.is_valid(),
    ensures
        final(state)@ == running_step(old(state)@, *input, *window, now),
        final(state)@.screen.target_count() <= old(state)@.screen.target_count(),
        old(state)@.screen is Running && !input.cancel ==> (final(state)@.screen.target_count()
            < old(state)@.screen.target_count() <==> hit_registered(
            old(state)@.screen.targets(),
            input.click,
            *window,
        )),
        old(state)@.screen is Running && !input.cancel ==> final(state)@.screen.target_count()
            == old(state)@.screen.target_count() - hit_count(
            old(state)@.screen.targets(),
            input.click,
            *window,
        ),
        old(state)@.screen is Running && !input.cancel ==> final(state)@.screen.clicks()
            == old(state)@.screen.clicks() + hit_count(
            old(state)@.screen.targets(),
            input.click,
            *window,
        ),
        old(state)@.screen is Running && !input.cancel && input.click is None
            ==> final(state)@.screen.targets() == all_moved(
            old(state)@.screen.targets(),
            *window,
        ),
        old(state)@.screen is Running && !input.cancel && input.click is None ==> forall|i: int|
            0 <= i < old(state)@.screen.targets().len()
                && (#[trigger] old(state)@.screen.targets()[i]).is_still()
                ==> final(state)@.screen.targets()[i] == old(state)@.screen.targets()[i],
        final(state).is_valid(),
{
    let next = match &state.current_screen {
        GameScreens::GameRunning { targets, clicks, started_at } => {
            if input.cancel {
                Some(GameScreens::MainScreen)
            } else {
                let outcome = step_targets(targets, input.click, window);
                let counted: u32 = *clicks + outcome.hits as u32;
                if outcome.survivors.len() == 0 {
                    Some(
                        GameScreens::WinningScreen {
                            clicks: counted,
                            started_at: *started_at,
                            finished_at: now,
                        },
                    )
                } else {
                    Some(
                        GameScreens::GameRunning {
                            targets: outcome.survivors,
                            clicks: counted,
                            started_at: *started_at,
                        },
                    )
                }
            }
        },
        _ => None,
    };
    if let Some(screen) = next {
        state.current_screen = screen;
    }
}

/// One frame on the winning screen.
pub fn update_wining_screen(state: &mut GameState, input: &FrameInput)
    requires
        old(state).is_valid(),
    ensures
        final(state)@ == winning_step(old(state)@, *input),
        final(state).is_valid(),
{
    if let GameScreens::WinningScreen { .. } = state.current_screen {
        if input.confirm {
            state.current_screen = GameScreens::MainScreen;
        }
    }
}

/// One frame in the menu. A start draws the targets from the random number
/// generator and reads the clock, so the frame is the menu step for the targets
/// and the start time that the new session turns out to have; the targets are
/// fresh ones for the tier as it was before the frame.
pub fn update_main_screen(
    state: &mut GameState,
    input: &FrameInput,
    window: &Window,
    rng: &mut ThreadRng,
)
    requires
        old(state).is_valid(),
        window.is_valid(),
    ensures
        final(state)@ == menu_step(
            old(state)@,
            *input,
            final(state)@.screen.targets(),
            time_or_epoch(final(state)@.screen.start_time()),
        ),
        old(state)@.screen is Main && input.start ==> fresh_targets(
            final(state)@.screen.targets(),
            old(state).difficult,
            *window,
        ),
        final(state).is_valid(),
{
    if let GameScreens::MainScreen = state.current_screen {
        if input.start {
            let now = current_time();
            let fresh = spawn_targets(state.difficult, window, rng);
            menu_frame(state, input, fresh, now);
        } else {
            state.difficult = select_difficulty(
                state.difficult,
                input.easy,
                input.medium,
                input.hard,
            );
        }
    }
}

/// One frame of a running session. The clock is read for the time that a win
/// in this frame is stamped with, so the frame is the running step for the
/// finish time that the winning screen turns out to have; everything else is
/// fixed by the state and the input.
pub fn update_game_screen(state: &mut GameState, input: &FrameInput, window: &Window)
    requires
        old(state).is_valid(),
        window.is_valid(),
    ensures
        final(state)@ == running_step(
            old(state)@,
            *input,
            *window,
            time_or_epoch(final(state)@.screen.finish_time()),
        ),
        final(state)@.screen.target_count() <= old(state)@.screen.target_count(),
        old(state)@.screen is Running && !input.cancel ==> (final(state)@.screen.target_count()
            < old(state)@.screen.target_count() <==> hit_registered(
            old(state)@.screen.targets(),
            input.click,
            *window,
        )),
        old(state)@.screen is Running && !input.cancel ==> final(state)@.screen.target_count()
            == old(state)@.screen.target_count() - hit_count(
            old(state)@.screen.targets(),
            input.click,
            *window,
        ),
        old(state)@.screen is Running && !input.cancel ==> final(state)@.screen.clicks()
            == old(state)@.screen.clicks() + hit_count(
            old(state)@.screen.targets(),
            input.click,
            *window,
        ),
        old(state)@.screen is Running && !input.cancel && input.click is None
            ==> final(state)@.screen.targets() == all_moved(
            old(state)@.screen.targets(),
            *window,
        ),
        old(state)@.screen is Running && !input.cancel && input.click is None ==> forall|i: int|
            0 <= i < old(state)@.screen.targets().len()
                && (#[trigger] old(state)@.screen.targets()[i]).is_still()
                ==> final(state)@.screen.targets()[i] == old(state)@.screen.targets()[i],
        final(state).is_valid(),
{
    let now = current_time();
    running_frame(state, input, window, now);
}

/// One frame, on whichever screen is current.
pub fn update(state: &mut GameState, input: &FrameInput, window: &Window, rng: &mut ThreadRng)
    requires
        old(state).is_valid(),
        window.is_valid(),
    ensures
        old(state)@.screen is Main ==> final(state)@ == menu_step(
            old(state)@,
            *input,
            final(state)@.screen.targets(),
            time_or_epoch(final(state)@.screen.start_time()),
        ),
        old(state)@.screen is Main && input.start ==> fresh_targets(
            final(state)@.screen.targets(),
            old(state).difficult,
            *window,
        ),
        old(state)@.screen is Running ==> final(state)@ == running_step(
            old(state)@,
            *input,
            *window,
            time_or_epoch(final(state)@.screen.finish_time()),
        ),
        old(state)@.screen is Winning ==> final(state)@ == winning_step(old(state)@, *input),
        final(state).is_valid(),
{
    match &state.current_screen {
        GameScreens::MainScreen => update_main_screen(state, input, window, rng),
        GameScreens::GameRunning { .. } => update_game_screen(state, input, window),
        GameScreens::WinningScreen { .. } => update_wining_screen(state, input),
    }
}

} // verus!
