//! Hierarchical game-flow state machine: a top-level screen state plus
//! per-scope sub-states (menu pages, each game's phase), with explicit
//! "request next state" transitions that are consumed at the frame boundary.
//!
//! Sub-state transitions are validated against the legal edges; a request for
//! any other edge is rejected and changes nothing.

use vstd::prelude::*;

verus! {

/// Top-level screen: which mode of the shell is active.
#[derive(Clone, Copy, PartialEq, Eq, Structural, Debug)]
pub enum GameState {
    /// The menu screens (main menu and game selection).
    Menu,
    /// The pong game screen.
    Pong,
    /// The letter-grid game screen.
    Boogle,
    /// The splash screen shown while loading.
    LoadingScreen,
}

/// Which menu page is shown while the top-level state is `Menu`.
#[derive(Clone, Copy, PartialEq, Eq, Structural, Debug)]
pub enum MenuState {
    /// The main menu page.
    Main,
    /// The game-selection page.
    Games,
    /// No menu page (a game is running).
    Disabled,
}

/// Pong's phase while its screen is active.
#[derive(Clone, Copy, PartialEq, Eq, Structural, Debug)]
pub enum PongState {
    /// The pong screen is not active.
    Disabled,
    /// Pre-game countdown.
    Loading,
    /// Active play.
    Game,
    /// The ball reached the exit surface.
    GameOver,
}

/// The letter-grid game's phase while its screen is active.
#[derive(Clone, Copy, PartialEq, Eq, Structural, Debug)]
pub enum BoogleState {
    /// The game's screen is not active.
    Disabled,
    /// Rules are being shown.
    Declaration,
    /// The letter grid is shown.
    Game,
}

/// What a pressed menu button asks for.
#[derive(Clone, Copy, PartialEq, Eq, Structural, Debug)]
pub enum MenuButtonAction {
    /// Open the game-selection page.
    Games,
    /// Start the pong game.
    Pong,
    /// Start the letter-grid game.
    Boogle,
    /// Return to the main menu page.
    Back,
    /// Quit the shell.
    Quit,
}

/// Current states of every level, with the pending "next state" requests that
/// the frame boundary consumes. Transitions are the only legal mutation path.
#[derive(Clone, Copy, PartialEq, Eq, Structural, Debug)]
pub struct Flow {
    /// Current top-level screen.
    pub game: GameState,
    /// Current menu page.
    pub menu: MenuState,
    /// Pong's current phase.
    pub pong: PongState,
    /// The letter-grid game's current phase.
    pub boogle: BoogleState,
    /// Pending top-level request.
    pub next_game: Option<GameState>,
    /// Pending menu request.
    pub next_menu: Option<MenuState>,
    /// Pending pong request.
    pub next_pong: Option<PongState>,
    /// Pending letter-grid request.
    pub next_boogle: Option<BoogleState>,
}

/// The legal edges of pong's sub-machine. Leaving `GameOver` happens only by
/// the screen-exit reset, not by a request.
pub open spec fn pong_edge(from: PongState, to: PongState) -> bool {
    ||| (from is Disabled && to is Loading)
    ||| (from is Loading && to is Game)
    ||| (from is Game && to is GameOver)
}

/// The legal edges of the letter-grid game's sub-machine.
pub open spec fn boogle_edge(from: BoogleState, to: BoogleState) -> bool {
    ||| (from is Disabled && to is Declaration)
    ||| (from is Disabled && to is Game)
    ||| (from is Declaration && to is Game)
}

/// The flow after a menu button press: which requests the dispatcher files.
pub open spec fn button_next(f: Flow, a: MenuButtonAction) -> Flow {
    match a {
        MenuButtonAction::Quit => f,
        MenuButtonAction::Back => Flow { next_menu: Option::Some(MenuState::Main), ..f },
        MenuButtonAction::Games => Flow { next_menu: Option::Some(MenuState::Games), ..f },
        MenuButtonAction::Pong => Flow {
            next_menu: Option::Some(MenuState::Disabled),
            next_game: Option::Some(GameState::Pong),
            ..f
        },
        MenuButtonAction::Boogle => Flow {
            next_menu: Option::Some(MenuState::Disabled),
            next_game: Option::Some(GameState::Boogle),
            ..f
        },
    }
}

impl Flow {
    /// The initial flow: main-menu screen, every sub-machine disabled,
    /// nothing pending.
    pub fn init() -> (f: Flow)
        ensures
            f == (Flow {
                game: GameState::Menu,
                menu: MenuState::Disabled,
                pong: PongState::Disabled,
                boogle: BoogleState::Disabled,
                next_game: Option::<GameState>::None,
                next_menu: Option::<MenuState>::None,
                next_pong: Option::<PongState>::None,
                next_boogle: Option::<BoogleState>::None,
            }),
    {
        Flow {
            game: GameState::Menu,
            menu: MenuState::Disabled,
            pong: PongState::Disabled,
            boogle: BoogleState::Disabled,
            next_game: None,
            next_menu: None,
            next_pong: None,
            next_boogle: None,
        }
    }

    /// Request a top-level screen change.
    pub fn request_game(&mut self, target: GameState)
        ensures
            *final(self) == (Flow { next_game: Option::Some(target), ..*old(self) }),
    {
        self.next_game = Some(target);
    }

    /// Request a menu page change.
    pub fn request_menu(&mut self, target: MenuState)
        ensures
            *final(self) == (Flow { next_menu: Option::Some(target), ..*old(self) }),
    {
        self.next_menu = Some(target);
    }

    /// Request a pong phase change. Accepted exactly on the legal edges;
    /// anything else is rejected and changes nothing.
    pub fn request_pong(&mut self, target: PongState) -> (ok: bool)
        ensures
            ok == pong_edge(old(self).pong, target),
            ok ==> *final(self) == (Flow { next_pong: Option::Some(target), ..*old(self) }),
            !ok ==> *final(self) == *old(self),
    {
        let ok = match (self.pong, target) {
            (PongState::Disabled, PongState::Loading) => true,
            (PongState::Loading, PongState::Game) => true,
            (PongState::Game, PongState::GameOver) => true,
            _ => false,
        };
        if ok {
            self.next_pong = Some(target);
        }
        ok
    }

    /// Request a letter-grid phase change. Accepted exactly on the legal
    /// edges; anything else is rejected and changes nothing.
    pub fn request_boogle(&mut self, target: BoogleState) -> (ok: bool)
        ensures
            ok == boogle_edge(old(self).boogle, target),
            ok ==> *final(self) == (Flow { next_boogle: Option::Some(target), ..*old(self) }),
            !ok ==> *final(self) == *old(self),
    {
        let ok = match (self.boogle, target) {
            (BoogleState::Disabled, BoogleState::Declaration) => true,
            (BoogleState::Disabled, BoogleState::Game) => true,
            (BoogleState::Declaration, BoogleState::Game) => true,
            _ => false,
        };
        if ok {
            self.next_boogle = Some(target);
        }
        ok
    }
}

/// Dispatch one pressed menu button: file the state requests the button asks
/// for, and report whether it asks the shell to quit.
pub fn button_action(action: &MenuButtonAction, flow: &mut Flow) -> (quit: bool)
    ensures
        *final(flow) == button_next(*old(flow), *action),
        quit == (action is Quit),
{
    match action {
        MenuButtonAction::Quit => true,
        MenuButtonAction::Back => {
            flow.request_menu(MenuState::Main);
            false
        },
        MenuButtonAction::Games => {
            flow.request_menu(MenuState::Games);
            false
        },
        MenuButtonAction::Pong => {
            flow.request_menu(MenuState::Disabled);
            flow.request_game(GameState::Pong);
            false
        },
        MenuButtonAction::Boogle => {
            flow.request_menu(MenuState::Disabled);
            flow.request_game(GameState::Boogle);
            false
        },
    }
}

} // verus!
