use clicker_game::ledger::Timestamp;
use clicker_game::policy::GameDifficult;
use clicker_game::render::{
    centered_x, clicks_text, difficulty_text, draw, draw_game_screen, draw_main_screen,
    draw_wining_screen, game_screen_at, result_text, DrawCommand, Paint, SKY_ALPHA, SKY_BLUE,
    SKY_GREEN, SKY_RED,
};
use clicker_game::ledger::Elapsed;
use clicker_game::screen::{GameScreens, GameState};
use clicker_game::target::{Target, Window};

fn play_window() -> Window {
    Window { width: 1200, height: 800 }
}

fn centred(text: &str, y: i32, font_size: i32, color: Paint) -> DrawCommand {
    DrawCommand::CenteredText { text: String::from(text), y, font_size, color }
}

fn running() -> GameState {
    GameState {
        current_screen: GameScreens::GameRunning {
            targets: vec![
                Target { pos_x: 100, pos_y: 200, dir_y: 1, dir_x: -1 },
                Target { pos_x: 640, pos_y: 35, dir_y: 5, dir_x: 5 },
            ],
            clicks: 8,
            started_at: Timestamp { secs: 43_200, nanos: 0 },
        },
        difficult: GameDifficult::Hard,
    }
}

fn won() -> GameState {
    GameState {
        current_screen: GameScreens::WinningScreen {
            clicks: 10,
            started_at: Timestamp { secs: 43_200, nanos: 0 },
            finished_at: Timestamp { secs: 43_212, nanos: 345_678_901 },
        },
        difficult: GameDifficult::Hard,
    }
}

#[test]
fn the_sky_colour() {
    assert_eq!((SKY_RED, SKY_GREEN, SKY_BLUE, SKY_ALPHA), (135, 206, 235, 255));
}

#[test]
fn a_line_is_centred_by_half_the_widths() {
    assert_eq!(centered_x(1200, 300), 450);
    assert_eq!(centered_x(1200, 301), 450);
    assert_eq!(centered_x(1200, 0), 600);
    assert_eq!(centered_x(1201, 1), 600);
    assert_eq!(centered_x(1200, 1400), -100);
    assert_eq!(centered_x(0, 0), 0);
}

#[test]
fn the_halves_are_rounded_towards_zero() {
    assert_eq!(centered_x(1200, -3), 601);
    assert_eq!(centered_x(-3, 0), -1);
    assert_eq!(centered_x(i32::MAX, i32::MIN), i32::MAX);
    assert_eq!(centered_x(i32::MIN, i32::MAX), i32::MIN + 1);
}

#[test]
fn the_menu_names_the_tier() {
    assert_eq!(difficulty_text(GameDifficult::Easy), "Current difficult: Easy");
    assert_eq!(difficulty_text(GameDifficult::Medium), "Current difficult: Medium");
    assert_eq!(difficulty_text(GameDifficult::Hard), "Current difficult: Hard");
}

#[test]
fn the_counter_line() {
    assert_eq!(clicks_text(0), "Clicks: 0");
    assert_eq!(clicks_text(10), "Clicks: 10");
    assert_eq!(clicks_text(u32::MAX), "Clicks: 4294967295");
}

#[test]
fn the_line_that_sums_a_session_up() {
    assert_eq!(
        result_text(Elapsed { seconds: 12, milliseconds: 12_345 }, 10),
        "You finished in 12.345 seconds, with 10 total clicks!"
    );
    assert_eq!(
        result_text(Elapsed { seconds: 2, milliseconds: 2050 }, 10),
        "You finished in 2.50 seconds, with 10 total clicks!"
    );
    assert_eq!(
        result_text(Elapsed { seconds: -2, milliseconds: -2500 }, 3),
        "You finished in -2.500 seconds, with 3 total clicks!"
    );
    assert_eq!(
        result_text(Elapsed { seconds: 0, milliseconds: 7 }, 1),
        "You finished in 0.7 seconds, with 1 total clicks!"
    );
}

#[test]
fn what_the_menu_shows() {
    let state = GameState { current_screen: GameScreens::MainScreen, difficult: GameDifficult::Medium };
    let commands = draw_main_screen(&state, &play_window());
    assert_eq!(
        commands,
        vec![
            DrawCommand::Clear { color: Paint::Sky },
            centred("Clicker Game", 300, 40, Paint::Black),
            centred("Current difficult: Medium", 375, 20, Paint::Black),
            centred("Press 1 to easy; 2 to medium and 3 to hard", 425, 20, Paint::Black),
            centred("Press Space to start", 500, 20, Paint::Black),
        ]
    );
    assert_eq!(draw(&state, &play_window()), commands);
}

#[test]
fn the_menu_follows_the_window() {
    let state = GameState::new();
    let commands = draw_main_screen(&state, &Window { width: 61, height: 61 });
    assert_eq!(
        commands,
        vec![
            DrawCommand::Clear { color: Paint::Sky },
            centred("Clicker Game", -70, 40, Paint::Black),
            centred("Current difficult: Easy", 5, 20, Paint::Black),
            centred("Press 1 to easy; 2 to medium and 3 to hard", 55, 20, Paint::Black),
            centred("Press Space to start", 130, 20, Paint::Black),
        ]
    );
}

#[test]
fn what_a_running_session_shows() {
    let now = Timestamp { secs: 43_201, nanos: 545_000_000 };
    let commands = game_screen_at(&running(), &play_window(), now);
    assert_eq!(
        commands,
        vec![
            DrawCommand::Clear { color: Paint::Sky },
            DrawCommand::Circle { x: 100, y: 200, radius: 15, color: Paint::Red },
            DrawCommand::Circle { x: 640, y: 35, radius: 15, color: Paint::Red },
            DrawCommand::Fps { x: 1100, y: 0 },
            centred("1.545", 10, 20, Paint::Red),
            DrawCommand::Text {
                text: String::from("Clicks: 8"),
                x: 10,
                y: 10,
                font_size: 20,
                color: Paint::Black,
            },
        ]
    );
}

#[test]
fn the_timer_of_a_running_session_follows_the_clock() {
    let commands = draw_game_screen(&running(), &play_window());
    assert_eq!(commands.len(), 6);
    assert_eq!(commands[0], DrawCommand::Clear { color: Paint::Sky });
    assert_eq!(commands[1], DrawCommand::Circle { x: 100, y: 200, radius: 15, color: Paint::Red });
    assert_eq!(commands[2], DrawCommand::Circle { x: 640, y: 35, radius: 15, color: Paint::Red });
    assert_eq!(commands[3], DrawCommand::Fps { x: 1100, y: 0 });
    match &commands[4] {
        DrawCommand::CenteredText { text, y, font_size, color } => {
            // The session of `running()` began at noon on the first day of 1970.
            let (seconds, left) = text.split_once('.').unwrap();
            let seconds: i64 = seconds.parse().unwrap();
            let left: i64 = left.parse().unwrap();
            assert!(seconds > 1_577_836_800 - 43_200);
            assert!(0 <= left && left < 1000);
            assert_eq!((*y, *font_size, *color), (10, 20, Paint::Red));
        }
        other => panic!("no timer: {:?}", other),
    }
    assert_eq!(
        commands[5],
        DrawCommand::Text {
            text: String::from("Clicks: 8"),
            x: 10,
            y: 10,
            font_size: 20,
            color: Paint::Black,
        }
    );
    assert_eq!(draw(&running(), &play_window()).len(), 6);
}

#[test]
fn what_the_winning_screen_shows() {
    let commands = draw_wining_screen(&won(), &play_window());
    assert_eq!(
        commands,
        vec![
            DrawCommand::Clear { color: Paint::Sky },
            centred("Congrats!", 300, 50, Paint::Green),
            centred("You finished in 12.345 seconds, with 10 total clicks!", 400, 40, Paint::Gold),
            centred("Press Enter to restart", 500, 20, Paint::Black),
        ]
    );
    assert_eq!(draw(&won(), &play_window()), commands);
}

#[test]
fn a_screen_that_is_not_current_shows_nothing() {
    let menu = GameState::new();
    let now = Timestamp { secs: 1, nanos: 1 };
    assert_eq!(game_screen_at(&menu, &play_window(), now), vec![]);
    assert_eq!(game_screen_at(&won(), &play_window(), now), vec![]);
    assert_eq!(draw_game_screen(&menu, &play_window()), vec![]);
    assert_eq!(draw_wining_screen(&menu, &play_window()), vec![]);
    assert_eq!(draw_wining_screen(&running(), &play_window()), vec![]);
}

#[test]
fn the_timer_shows_what_is_left_of_a_second_as_the_number_it_is() {
    let timer_at = |secs: i64, nanos: u32| -> String {
        let commands = game_screen_at(&running(), &play_window(), Timestamp { secs, nanos });
        match &commands[4] {
            DrawCommand::CenteredText { text, .. } => text.clone(),
            other => panic!("no timer: {:?}", other),
        }
    };
    assert_eq!(timer_at(43_202, 500_000_000), "2.500");
    assert_eq!(timer_at(43_202, 50_000_000), "2.50");
    assert_eq!(timer_at(43_200, 250_000_000), "0.250");
    assert_eq!(timer_at(43_200, 0), "0.0");
    assert_eq!(timer_at(43_200 + 86_400, 7_000_000), "86400.7");
    assert_eq!(timer_at(43_197, 500_000_000), "-2.500");
}
