//! What each screen shows, as a list of draw commands for the front end to
//! carry out in order. The library decides what is drawn and where; measuring
//! text and painting are the front end's.

use vstd::prelude::*;
use vstd::string::*;
use crate::ledger::{
    append_timer_text, current_time, elapsed_of, time_between, timer_text_of, whole_units,
    Elapsed, Timestamp,
};
use crate::policy::GameDifficult;
use crate::screen::{GameScreens, GameState, ScreenModel};
use crate::target::{Target, Window, TARGET_RADIUS};
use crate::text::{append_decimal, decimal};

verus! {

/// Red part of the sky colour that every screen is cleared to.
pub const SKY_RED: u8 = 135;

/// Green part of the sky colour.
pub const SKY_GREEN: u8 = 206;

/// Blue part of the sky colour.
pub const SKY_BLUE: u8 = 235;

/// Opacity of the sky colour.
pub const SKY_ALPHA: u8 = 255;

/// The colours that the screens use. `Sky` is the colour of `SKY_RED`,
/// `SKY_GREEN`, `SKY_BLUE` and `SKY_ALPHA`; the others are the front end's
/// colours of those names.
#[derive(Clone, Copy, Debug, PartialEq, Eq, Structural)]
pub enum Paint {
    Sky,
    Black,
    Red,
    Green,
    Gold,
}

/// One thing to draw.
#[derive(Debug, PartialEq, Eq)]
pub enum DrawCommand {
    /// Fill the whole window.
    Clear { color: Paint },
    /// A filled circle.
    Circle { x: i32, y: i32, radius: i32, color: Paint },
    /// A line of text whose left end is at `x`.
    Text { text: String, x: i32, y: i32, font_size: i32, color: Paint },
    /// A line of text centred in the window's width: see `centered_x`.
    CenteredText { text: String, y: i32, font_size: i32, color: Paint },
    /// The frame rate overlay.
    Fps { x: i32, y: i32 },
}

/// A draw command as a mathematical value.
pub enum DrawModel {
    Clear { color: Paint },
    Circle { x: int, y: int, radius: int, color: Paint },
    Text { text: Seq<char>, x: int, y: int, font_size: int, color: Paint },
    CenteredText { text: Seq<char>, y: int, font_size: int, color: Paint },
    Fps { x: int, y: int },
}

impl View for DrawCommand {
    type V = DrawModel;

    open spec fn view(&self) -> DrawModel {
        match *self {
            DrawCommand::Clear { color } => DrawModel::Clear { color },
            DrawCommand::Circle { x, y, radius, color } => DrawModel::Circle {
                x: x as int,
                y: y as int,
                radius: radius as int,
                color,
            },
            DrawCommand::Text { text, x, y, font_size, color } => DrawModel::Text {
                text: text@,
                x: x as int,
                y: y as int,
                font_size: font_size as int,
                color,
            },
            DrawCommand::CenteredText { text, y, font_size, color } => DrawModel::CenteredText {
                text: text@,
                y: y as int,
                font_size: font_size as int,
                color,
            },
            DrawCommand::Fps { x, y } => DrawModel::Fps { x: x as int, y: y as int },
        }
    }
}

/// The commands of a list as mathematical values.
pub open spec fn scene_of(commands: Seq<DrawCommand>) -> Seq<DrawModel> {
    commands.map_values(|command: DrawCommand| command@)
}

/// The left end of a line of text of the given width that is centred in a
/// window of the given width: half the one less half the other, each half
/// rounded towards zero.
pub open spec fn centered(window_width: int, text_width: int) -> int {
    whole_units(window_width, 2) - whole_units(text_width, 2)
}

/// The circle that shows a target.
pub open spec fn circle_of(target: Target) -> DrawModel {
    DrawModel::Circle {
        x: target.pos_x as int,
        y: target.pos_y as int,
        radius: TARGET_RADIUS as int,
        color: Paint::Red,
    }
}

/// The circles that show the targets, in their order.
pub open spec fn circles_of(targets: Seq<Target>) -> Seq<DrawModel> {
    targets.map_values(|target: Target| circle_of(target))
}

/// The line of the menu that names the tier.
pub open spec fn difficulty_line(difficult: GameDifficult) -> Seq<char> {
    "Current difficult: "@ + difficult.label_of()
}

/// The line of a running session that shows the counter.
pub open spec fn clicks_line(clicks: int) -> Seq<char> {
    "Clicks: "@ + decimal(clicks)
}

/// The line of the winning screen that sums the session up.
pub open spec fn result_line(elapsed: Elapsed, clicks: int) -> Seq<char> {
    "You finished in "@ + timer_text_of(elapsed) + " seconds, with "@ + decimal(clicks)
        + " total clicks!"@
}

/// What the menu shows.
pub open spec fn main_scene(difficult: GameDifficult, window: Window) -> Seq<DrawModel> {
    seq![
        DrawModel::Clear { color: Paint::Sky },
        DrawModel::CenteredText {
            text: "Clicker Game"@,
            y: window.height / 2 - 100,
            font_size: 40,
            color: Paint::Black,
        },
        DrawModel::CenteredText {
            text: difficulty_line(difficult),
            y: window.height / 2 - 25,
            font_size: 20,
            color: Paint::Black,
        },
        DrawModel::CenteredText {
            text: "Press 1 to easy; 2 to medium and 3 to hard"@,
            y: window.height / 2 + 25,
            font_size: 20,
            color: Paint::Black,
        },
        DrawModel::CenteredText {
            text: "Press Space to start"@,
            y: window.height / 2 + 100,
            font_size: 20,
            color: Paint::Black,
        },
    ]
}

/// What a running session shows: the targets, the frame rate, the time since
/// the start and the counter.
pub open spec fn game_scene(targets: Seq<Target>, clicks: int, elapsed: Elapsed, window: Window)
    -> Seq<DrawModel> {
    seq![DrawModel::Clear { color: Paint::Sky }] + circles_of(targets) + seq![
        DrawModel::Fps { x: window.width - 100, y: 0 },
        DrawModel::CenteredText {
            text: timer_text_of(elapsed),
            y: 10,
            font_size: 20,
            color: Paint::Red,
        },
        DrawModel::Text {
            text: clicks_line(clicks),
            x: 10,
            y: 10,
            font_size: 20,
            color: Paint::Black,
        },
    ]
}

/// What the winning screen shows.
pub open spec fn winning_scene(clicks: int, elapsed: Elapsed, window: Window) -> Seq<DrawModel> {
    seq![
        DrawModel::Clear { color: Paint::Sky },
        DrawModel::CenteredText {
            text: "Congrats!"@,
            y: window.height / 2 - 100,
            font_size: 50,
            color: Paint::Green,
        },
        DrawModel::CenteredText {
            text: result_line(elapsed, clicks),
            y: window.height / 2,
            font_size: 40,
            color: Paint::Gold,
        },
        DrawModel::CenteredText {
            text: "Press Enter to restart"@,
            y: window.height / 2 + 100,
            font_size: 20,
            color: Paint::Black,
        },
    ]
}

/// What a running session shows at the given time, and nothing on another
/// screen.
pub open spec fn game_scene_at(screen: ScreenModel, window: Window, now: Timestamp) -> Seq<
    DrawModel,
> {
    match screen {
        ScreenModel::Running { targets, clicks, started_at } => game_scene(
            targets,
            clicks,
            elapsed_of(started_at, now),
            window,
        ),
        _ => Seq::empty(),
    }
}

/// What the winning screen shows for the session that it holds, and nothing on
/// another screen.
pub open spec fn winning_scene_of(screen: ScreenModel, window: Window) -> Seq<DrawModel> {
    match screen {
        ScreenModel::Winning { clicks, started_at, finished_at } => winning_scene(
            clicks,
            elapsed_of(started_at, finished_at),
            window,
        ),
        _ => Seq::empty(),
    }
}

/// The left end of a line of text of the given width, as the front end has
/// measured it, that is centred in a window of the given width.
pub fn centered_x(window_width: i32, text_width: i32) -> (x: i32)
    ensures
        x == centered(window_width as int, text_width as int),
{
    window_width / 2 - text_width / 2
}

/// The line of the menu that names the tier.
pub fn difficulty_text(difficult: GameDifficult) -> (text: String)
    ensures
        text@ == difficulty_line(difficult),
{
    let mut text = String::from_str("Current difficult: ");
    text.append(difficult.label());
    text
}

/// The line of a running session that shows the counter.
pub fn clicks_text(clicks: u32) -> (text: String)
    ensures
        text@ == clicks_line(clicks as int),
{
    let mut text = String::from_str("Clicks: ");
    append_decimal(&mut text, clicks as i64);
    text
}

/// The line of the winning screen that sums the session up.
pub fn result_text(elapsed: Elapsed, clicks: u32) -> (text: String)
    requires
        elapsed.is_consistent(),
    ensures
        text@ == result_line(elapsed, clicks as int),
{
    let mut text = String::from_str("You finished in ");
    append_timer_text(&mut text, elapsed);
    text.append(" seconds, with ");
    append_decimal(&mut text, clicks as i64);
    text.append(" total clicks!");
    assert(text@ =~= result_line(elapsed, clicks as int));
    text
}

/// The draw list of the menu.
pub fn draw_main_screen(state: &GameState, window: &Window) -> (commands: Vec<DrawCommand>)
    requires
        window.is_valid(),
    ensures
        scene_of(commands@) == main_scene(state.difficult, *window),
{
    let middle = window.height / 2;
    let mut commands: Vec<DrawCommand> = Vec::new();
    commands.push(DrawCommand::Clear { color: Paint::Sky });
    commands.push(
        DrawCommand::CenteredText {
            text: String::from_str("Clicker Game"),
            y: middle - 100,
            font_size: 40,
            color: Paint::Black,
        },
    );
    commands.push(
        DrawCommand::CenteredText {
            text: difficulty_text(state.difficult),
            y: middle - 25,
            font_size: 20,
            color: Paint::Black,
        },
    );
    commands.push(
        DrawCommand::CenteredText {
            text: String::from_str("Press 1 to easy; 2 to medium and 3 to hard"),
            y: middle + 25,
            font_size: 20,
            color: Paint::Black,
        },
    );
    commands.push(
        DrawCommand::CenteredText {
            text: String::from_str("Press Space to start"),
            y: middle + 100,
            font_size: 20,
            color: Paint::Black,
        },
    );
    assert(scene_of(commands@) =~= main_scene(state.difficult, *window));
    commands
}

/// The draw list of a running session at the given time.
pub fn game_screen_at(state: &GameState, window: &Window, now: Timestamp) -> (commands: Vec<
    DrawCommand,
>)
    requires
        state.is_valid(),
        window.is_valid(),
        now.is_valid(),
    ensures
        scene_of(commands@) == game_scene_at(state@.screen, *window, now),
{
    let mut commands: Vec<DrawCommand> = Vec::new();
    if let GameScreens::GameRunning { targets, clicks, started_at } = &state.current_screen {
        commands.push(DrawCommand::Clear { color: Paint::Sky });
        let mut i: usize = 0;
        while i < targets.len()
            invariant
                i <= targets.len(),
                scene_of(commands@) == seq![DrawModel::Clear { color: Paint::Sky }] + circles_of(
                    targets@.take(i as int),
                ),
            decreases targets.len() - i,
        {
            let target = targets[i];
            let ghost drawn = commands@;
            commands.push(
                DrawCommand::Circle {
                    x: target.pos_x,
                    y: target.pos_y,
                    radius: TARGET_RADIUS,
                    color: Paint::Red,
                },
            );
            proof {
                assert(targets@.take(i + 1) =~= targets@.take(i as int).push(targets@[i as int]));
                assert(circles_of(targets@.take(i + 1)) =~= circles_of(
                    targets@.take(i as int),
                ).push(circle_of(target)));
                assert(scene_of(commands@) =~= scene_of(drawn).push(circle_of(target)));
                assert(scene_of(commands@) =~= seq![DrawModel::Clear { color: Paint::Sky }]
                    + circles_of(targets@.take(i + 1)));
            }
            i = i + 1;
        }
        assert(targets@.take(targets.len() as int) =~= targets@);
        let elapsed = time_between(*started_at, now);
        commands.push(DrawCommand::Fps { x: window.width - 100, y: 0 });
        commands.push(
            DrawCommand::CenteredText {
                text: crate::ledger::timer_text(elapsed),
                y: 10,
                font_size: 20,
                color: Paint::Red,
            },
        );
        commands.push(
            DrawCommand::Text {
                text: clicks_text(*clicks),
                x: 10,
                y: 10,
                font_size: 20,
                color: Paint::Black,
            },
        );
        assert(scene_of(commands@) =~= game_scene_at(state@.screen, *window, now));
    } else {
        assert(scene_of(commands@) =~= game_scene_at(state@.screen, *window, now));
    }
    commands
}

/// The draw list of a running session now: the clock is read for the time
/// that the timer shows, and everything else is fixed by the state.
pub fn draw_game_screen(state: &GameState, window: &Window) -> (commands: Vec<DrawCommand>)
    requires
        state.is_valid(),
        window.is_valid(),
    ensures
        exists|now: Timestamp|
            now.is_valid() && scene_of(commands@) == #[trigger] game_scene_at(
                state@.screen,
                *window,
                now,
            ),
{
    let now = current_time();
    game_screen_at(state, window, now)
}

/// The draw list of the winning screen.
pub fn draw_wining_screen(state: &GameState, window: &Window) -> (commands: Vec<DrawCommand>)
    requires
        state.is_valid(),
        window.is_valid(),
    ensures
        scene_of(commands@) == winning_scene_of(state@.screen, *window),
{
    let mut commands: Vec<DrawCommand> = Vec::new();
    if let GameScreens::WinningScreen { clicks, started_at, finished_at } = &state.current_screen {
        let middle = window.height / 2;
        let elapsed = time_between(*started_at, *finished_at);
        commands.push(DrawCommand::Clear { color: Paint::Sky });
        commands.push(
            DrawCommand::CenteredText {
                text: String::from_str("Congrats!"),
                y: middle - 100,
                font_size: 50,
                color: Paint::Green,
            },
        );
        commands.push(
            DrawCommand::CenteredText {
                text: result_text(elapsed, *clicks),
                y: middle,
                font_size: 40,
                color: Paint::Gold,
            },
        );
        commands.push(
            DrawCommand::CenteredText {
                text: String::from_str("Press Enter to restart"),
                y: middle + 100,
                font_size: 20,
                color: Paint::Black,
            },
        );
    }
    assert(scene_of(commands@) =~= winning_scene_of(state@.screen, *window));
    commands
}

/// The draw list of whichever screen is current.
pub fn draw(state: &GameState, window: &Window) -> (commands: Vec<DrawCommand>)
    requires
        state.is_valid(),
        window.is_valid(),
    ensures
        state@.screen is Main ==> scene_of(commands@) == main_scene(state.difficult, *window),
        state@.screen is Running ==> exists|now: Timestamp|
            now.is_valid() && scene_of(commands@) == #[trigger] game_scene_at(
                state@.screen,
                *window,
                now,
            ),
        state@.screen is Winning ==> scene_of(commands@) == winning_scene_of(
            state@.screen,
            *window,
        ),
{
    match &state.current_screen {
        GameScreens::MainScreen => draw_main_screen(state, window),
        GameScreens::GameRunning { .. } => draw_game_screen(state, window),
        GameScreens::WinningScreen { .. } => draw_wining_screen(state, window),
    }
}

} // verus!
