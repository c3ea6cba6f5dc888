use arcade_core::entities::Entity;
use arcade_core::entities::EntityKind;
use arcade_core::entities::ScreenTag;
use arcade_core::entities::despawn_screen;
use arcade_core::flow::GameState;
use arcade_core::flow::MenuButtonAction;
use arcade_core::flow::MenuState;
use arcade_core::flow::PongState;
use arcade_core::geometry::Vec2;
use arcade_core::session::FrameInput;
use arcade_core::session::Session;

const HALF_W: i64 = 400_000_000;
const HALF_H: i64 = 300_000_000;

fn idle(dt_ms: u64) -> FrameInput {
    FrameInput {
        dt_ms,
        left_pressed: false,
        right_pressed: false,
        pressed: None,
        half_width: HALF_W,
        half_height: HALF_H,
    }
}

fn press(button: MenuButtonAction) -> FrameInput {
    FrameInput { pressed: Some(button), ..idle(0) }
}

fn count_tag(s: &Session, tag: ScreenTag) -> usize {
    s.entities.iter().filter(|e| e.tag == tag).count()
}

#[test]
fn despawn_removes_only_the_screens_entities() {
    let mut v = vec![
        Entity { tag: ScreenTag::MainMenuScreen, kind: EntityKind::UiRoot },
        Entity { tag: ScreenTag::PongScreen, kind: EntityKind::Wall },
        Entity { tag: ScreenTag::PongScreen, kind: EntityKind::Ball },
        Entity { tag: ScreenTag::GameMenuScreen, kind: EntityKind::UiRoot },
    ];
    despawn_screen(&mut v, ScreenTag::PongScreen);
    assert_eq!(
        v,
        vec![
            Entity { tag: ScreenTag::MainMenuScreen, kind: EntityKind::UiRoot },
            Entity { tag: ScreenTag::GameMenuScreen, kind: EntityKind::UiRoot },
        ]
    );
    despawn_screen(&mut v, ScreenTag::BoogleScreen);
    assert_eq!(v.len(), 2);
}

#[test]
fn full_session_runs_menu_to_game_over_and_back() {
    let mut s = Session::new();
    assert_eq!(s.flow.game, GameState::Menu);
    assert_eq!(s.flow.pong, PongState::Disabled);

    // The startup request brings up the main menu page.
    s.frame(idle(16));
    assert_eq!(s.flow.menu, MenuState::Main);
    assert_eq!(count_tag(&s, ScreenTag::MainMenuScreen), 1);

    // Open the game selection, then pick pong.
    s.frame(press(MenuButtonAction::Games));
    s.frame(idle(16));
    assert_eq!(s.flow.menu, MenuState::Games);
    assert_eq!(count_tag(&s, ScreenTag::MainMenuScreen), 0);
    assert_eq!(count_tag(&s, ScreenTag::GameMenuScreen), 1);

    s.frame(press(MenuButtonAction::Pong));
    // Entering the pong screen immediately requests Loading, which is
    // consumed in the same boundary pass: the scene exists this frame.
    s.frame(idle(0));
    assert_eq!(s.flow.game, GameState::Pong);
    assert_eq!(s.flow.menu, MenuState::Disabled);
    assert_eq!(s.flow.pong, PongState::Loading);
    assert!(s.world.is_some());
    assert!(s.game_timer.is_some());
    assert_eq!(count_tag(&s, ScreenTag::GameMenuScreen), 0);
    assert_eq!(count_tag(&s, ScreenTag::PongScreen), 6);

    // The pre-game countdown runs for 2.0 seconds, then play begins.
    s.frame(idle(1000));
    assert_eq!(s.flow.pong, PongState::Loading);
    s.frame(idle(1000));
    s.frame(idle(0));
    assert_eq!(s.flow.pong, PongState::Game);

    // Play a frame: the ball leaves its spawn point.
    let spawn_y = s.world.unwrap().ball.pos.y;
    s.frame(idle(100));
    assert!(s.world.unwrap().ball.pos.y > spawn_y);
    assert_eq!(s.flow.pong, PongState::Game);

    // Put the ball just above the exit surface, falling: the exit check
    // classifies Top and requests game over.
    let mut w = s.world.unwrap();
    w.ball.pos = Vec2 { x: 0, y: -290_000_000 };
    w.ball.vel = Vec2 { x: 0, y: -100_000 };
    s.world = Some(w);
    s.frame(idle(0));
    // The exit was detected and game over requested; the request is consumed
    // at the next frame boundary.
    assert_eq!(s.flow.pong, PongState::Game);
    s.frame(idle(0));
    assert_eq!(s.flow.pong, PongState::GameOver);

    // Game over returns the shell to the menu and tears the scene down.
    s.frame(idle(0));
    assert_eq!(s.flow.game, GameState::Menu);
    assert_eq!(s.flow.pong, PongState::Disabled);
    assert!(s.world.is_none());
    assert!(s.game_timer.is_none());
    assert_eq!(count_tag(&s, ScreenTag::PongScreen), 0);
    assert_eq!(s.flow.menu, MenuState::Main);
    assert_eq!(count_tag(&s, ScreenTag::MainMenuScreen), 1);
}

#[test]
fn play_systems_are_gated_off_while_loading() {
    let mut s = Session::new();
    s.frame(idle(0));
    s.frame(press(MenuButtonAction::Games));
    s.frame(press(MenuButtonAction::Pong));
    s.frame(idle(0));
    assert_eq!(s.flow.pong, PongState::Loading);
    // A long frame during the countdown: the ball must not move, and menu
    // buttons must be ignored outside the menu screen.
    let before = s.world.unwrap().ball.pos;
    let mut input = idle(1000);
    input.pressed = Some(MenuButtonAction::Games);
    input.right_pressed = true;
    s.frame(input);
    assert_eq!(s.world.unwrap().ball.pos, before);
    assert_eq!(s.world.unwrap().paddle.x, 0);
    assert_eq!(s.flow.next_menu, None);
    assert_eq!(s.flow.game, GameState::Pong);
}

#[test]
fn countdown_does_not_fire_twice_across_frames() {
    let mut s = Session::new();
    s.frame(idle(0));
    s.frame(press(MenuButtonAction::Games));
    s.frame(press(MenuButtonAction::Pong));
    s.frame(idle(0));
    assert_eq!(s.flow.pong, PongState::Loading);
    // Overshoot the duration in one frame: exactly one fire.
    s.frame(idle(60_000));
    s.frame(idle(0));
    assert_eq!(s.flow.pong, PongState::Game);
    let t = s.game_timer.unwrap();
    assert!(t.fired);
    assert_eq!(t.elapsed, t.duration);
}

#[test]
fn splash_screen_times_out_to_menu() {
    let mut s = Session::new();
    s.frame(idle(0));
    s.flow.request_game(GameState::LoadingScreen);
    s.frame(idle(0));
    assert_eq!(s.flow.game, GameState::LoadingScreen);
    assert!(s.splash_timer.is_some());
    assert_eq!(count_tag(&s, ScreenTag::LoadingScreen), 1);
    // The menu page was not torn down: its screen was never exited.
    assert_eq!(count_tag(&s, ScreenTag::MainMenuScreen), 1);

    s.frame(idle(4_999));
    assert_eq!(s.flow.game, GameState::LoadingScreen);
    s.frame(idle(1));
    s.frame(idle(0));
    assert_eq!(s.flow.game, GameState::Menu);
    assert!(s.splash_timer.is_none());
    assert_eq!(count_tag(&s, ScreenTag::LoadingScreen), 0);
    assert_eq!(count_tag(&s, ScreenTag::MainMenuScreen), 1);
}

#[test]
fn boogle_screen_opens_and_tears_down() {
    let mut s = Session::new();
    s.frame(idle(0));
    s.frame(press(MenuButtonAction::Games));
    s.frame(press(MenuButtonAction::Boogle));
    s.frame(idle(0));
    assert_eq!(s.flow.game, GameState::Boogle);
    assert_eq!(count_tag(&s, ScreenTag::BoogleScreen), 1);

    s.flow.request_game(GameState::Menu);
    s.frame(idle(0));
    assert_eq!(s.flow.game, GameState::Menu);
    assert_eq!(count_tag(&s, ScreenTag::BoogleScreen), 0);
}

#[test]
fn quit_button_raises_the_quit_flag_only() {
    let mut s = Session::new();
    s.frame(idle(0));
    assert!(!s.quit);
    s.frame(press(MenuButtonAction::Quit));
    assert!(s.quit);
    assert_eq!(s.flow.game, GameState::Menu);
    s.frame(idle(16));
    assert!(s.quit);
}

#[test]
fn paddle_input_moves_paddle_during_play() {
    let mut s = Session::new();
    s.frame(idle(0));
    s.frame(press(MenuButtonAction::Games));
    s.frame(press(MenuButtonAction::Pong));
    s.frame(idle(0));
    s.frame(idle(2000));
    s.frame(idle(0));
    assert_eq!(s.flow.pong, PongState::Game);

    let x0 = s.world.unwrap().paddle.x;
    let mut input = idle(100);
    input.right_pressed = true;
    s.frame(input);
    let x1 = s.world.unwrap().paddle.x;
    assert_eq!(x1, x0 + 50_000_000);
}
