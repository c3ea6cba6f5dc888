use arcade_core::flow::BoogleState;
use arcade_core::flow::Flow;
use arcade_core::flow::GameState;
use arcade_core::flow::MenuButtonAction;
use arcade_core::flow::MenuState;
use arcade_core::flow::PongState;
use arcade_core::flow::button_action;

#[test]
fn pong_requests_follow_legal_edges_only() {
    let mut f = Flow::init();
    // Not reachable from Disabled: rejected, nothing changes.
    assert!(!f.request_pong(PongState::GameOver));
    assert!(!f.request_pong(PongState::Game));
    assert!(!f.request_pong(PongState::Disabled));
    assert_eq!(f.next_pong, None);
    // The legal edge out of Disabled.
    assert!(f.request_pong(PongState::Loading));
    assert_eq!(f.next_pong, Some(PongState::Loading));
    // Edges are judged against the current phase, not the pending request.
    assert!(!f.request_pong(PongState::Game));
    f.pong = PongState::Loading;
    assert!(f.request_pong(PongState::Game));
    f.pong = PongState::Game;
    assert!(f.request_pong(PongState::GameOver));
    f.pong = PongState::GameOver;
    assert!(!f.request_pong(PongState::Loading));
}

#[test]
fn boogle_requests_follow_legal_edges_only() {
    let mut f = Flow::init();
    assert!(f.request_boogle(BoogleState::Declaration));
    f.boogle = BoogleState::Declaration;
    assert!(f.request_boogle(BoogleState::Game));
    f.boogle = BoogleState::Game;
    assert!(!f.request_boogle(BoogleState::Declaration));
    assert!(!f.request_boogle(BoogleState::Disabled));
}

#[test]
fn buttons_file_the_requests_they_stand_for() {
    let mut f = Flow::init();
    assert!(!button_action(&MenuButtonAction::Games, &mut f));
    assert_eq!(f.next_menu, Some(MenuState::Games));

    let mut f = Flow::init();
    assert!(!button_action(&MenuButtonAction::Back, &mut f));
    assert_eq!(f.next_menu, Some(MenuState::Main));

    let mut f = Flow::init();
    assert!(!button_action(&MenuButtonAction::Pong, &mut f));
    assert_eq!(f.next_menu, Some(MenuState::Disabled));
    assert_eq!(f.next_game, Some(GameState::Pong));

    let mut f = Flow::init();
    assert!(!button_action(&MenuButtonAction::Boogle, &mut f));
    assert_eq!(f.next_menu, Some(MenuState::Disabled));
    assert_eq!(f.next_game, Some(GameState::Boogle));

    let mut f = Flow::init();
    assert!(button_action(&MenuButtonAction::Quit, &mut f));
    assert_eq!(f.next_menu, None);
    assert_eq!(f.next_game, None);
}
