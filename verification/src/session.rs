//! One running shell session: the flow states, the entity arena, the pong
//! world and the timers, advanced one frame at a time.
//!
//! A frame first consumes the pending state requests (exit effects, then the
//! new state's enter effects), then runs the systems gated by the states the
//! frame settled on: menu button dispatch, the splash timer, the pre-game
//! countdown, and the four-step pong loop. The whole frame is one
//! deterministic function of the previous state and the frame's input, and
//! `frame` is specified as exactly that function.

use vstd::prelude::*;

use crate::entities::Entity;
use crate::entities::EntityKind;
use crate::entities::ScreenTag;
use crate::entities::despawn_screen;
use crate::entities::without_screen;
use crate::flow::BoogleState;
use crate::flow::Flow;
use crate::flow::GameState;
use crate::flow::MenuButtonAction;
use crate::flow::MenuState;
use crate::flow::PongState;
use crate::flow::boogle_edge;
use crate::flow::button_action;
use crate::flow::button_next;
use crate::flow::pong_edge;
use crate::pong::DT_LIMIT;
use crate::pong::PADDLE_HALF_WIDTH;
use crate::pong::POS_LIMIT;
use crate::pong::PongWorld;
use crate::pong::check_collision;
use crate::pong::collided;
use crate::pong::direction_from_input;
use crate::pong::exit_conditions;
use crate::pong::exit_hit;
use crate::pong::initial_world;
use crate::pong::integrated;
use crate::pong::move_paddle;
use crate::pong::moved_paddle;
use crate::pong::pong_setup;
use crate::pong::velocity_update;
use crate::timer::Countdown;
use crate::timer::tick_fires;
use crate::timer::ticked;

verus! {

/// How long the pre-game countdown of the pong screen runs, in milliseconds.
pub const GAME_COUNTDOWN_MS: u64 = 2_000;

/// The outside values one frame consumes: the wall-clock delta time, the
/// held directional keys, at most one pressed menu button, and the window's
/// current half dimensions in micro-units.
#[derive(Clone, Copy, Debug)]
pub struct FrameInput {
    /// Wall-clock time since the previous frame, in milliseconds.
    pub dt_ms: u64,
    /// Whether the left directional key is held.
    pub left_pressed: bool,
    /// Whether the right directional key is held.
    pub right_pressed: bool,
    /// The menu button pressed this frame, if any.
    pub pressed: Option<MenuButtonAction>,
    /// Half the window's width, in micro-units.
    pub half_width: i64,
    /// Half the window's height, in micro-units.
    pub half_height: i64,
}

impl FrameInput {
    /// The bounds a frame's input must respect: a bounded delta time and a
    /// window that the play surface invariant admits.
    pub open spec fn wf(self) -> bool {
        &&& self.dt_ms <= DT_LIMIT
        &&& PADDLE_HALF_WIDTH <= self.half_width <= POS_LIMIT
        &&& 1 <= self.half_height <= POS_LIMIT
    }
}

/// The paddle direction sign the held keys yield: right minus left.
pub open spec fn input_sign(i: FrameInput) -> int {
    (if i.right_pressed {
        1int
    } else {
        0int
    }) - (if i.left_pressed {
        1int
    } else {
        0int
    })
}

/// How long the splash screen is shown, in milliseconds.
pub const SPLASH_DURATION_MS: u64 = 5_000;

/// One running session of the shell.
pub struct Session {
    /// The hierarchical flow states and their pending requests.
    pub flow: Flow,
    /// Every spawned entity, tagged by the screen that owns it.
    pub entities: Vec<Entity>,
    /// The pong simulation state, present while the pong screen is set up.
    pub world: Option<PongWorld>,
    /// The pre-game countdown, present while the pong screen is active.
    pub game_timer: Option<Countdown>,
    /// The splash timer, present while the splash screen is active.
    pub splash_timer: Option<Countdown>,
    /// Whether a menu button asked the shell to quit.
    pub quit: bool,
}

/// The mathematical model of a session: the same state with the entity arena
/// abstracted to a sequence.
pub struct SessionModel {
    /// The flow states and pending requests.
    pub flow: Flow,
    /// The spawned entities, in spawn order.
    pub entities: Seq<Entity>,
    /// The pong simulation state.
    pub world: Option<PongWorld>,
    /// The pre-game countdown.
    pub game_timer: Option<Countdown>,
    /// The splash timer.
    pub splash_timer: Option<Countdown>,
    /// Whether a quit was requested.
    pub quit: bool,
}

impl View for Session {
    type V = SessionModel;

    open spec fn view(&self) -> SessionModel {
        SessionModel {
            flow: self.flow,
            entities: self.entities@,
            world: self.world,
            game_timer: self.game_timer,
            splash_timer: self.splash_timer,
            quit: self.quit,
        }
    }
}

impl SessionModel {
    /// The session invariant: resources exist exactly while the scope that
    /// owns them is active, sub-states are active only under their own
    /// screen, and a pending sub-state request is a legal edge filed while
    /// its screen was current.
    pub open spec fn wf(self) -> bool {
        &&& (self.flow.pong is Disabled <==> self.world is None)
        &&& (match self.world {
            Option::Some(w) => w.wf(),
            Option::None => true,
        })
        &&& (!(self.flow.pong is Disabled) ==> self.flow.game is Pong)
        &&& (!(self.flow.boogle is Disabled) ==> self.flow.game is Boogle)
        &&& (self.flow.game is Pong <==> self.game_timer is Some)
        &&& (match self.game_timer {
            Option::Some(t) => t.wf(),
            Option::None => true,
        })
        &&& (self.flow.game is LoadingScreen <==> self.splash_timer is Some)
        &&& (match self.splash_timer {
            Option::Some(t) => t.wf(),
            Option::None => true,
        })
        &&& (match self.flow.next_pong {
            Option::Some(p) => pong_edge(self.flow.pong, p) && self.flow.game is Pong,
            Option::None => true,
        })
        &&& (match self.flow.next_boogle {
            Option::Some(b) => boogle_edge(self.flow.boogle, b) && self.flow.game is Boogle,
            Option::None => true,
        })
    }
}

/// The model a fresh session starts from: the main-menu screen entered, its
/// page requested, nothing else alive.
pub open spec fn init_model() -> SessionModel {
    SessionModel {
        flow: Flow {
            game: GameState::Menu,
            menu: MenuState::Disabled,
            pong: PongState::Disabled,
            boogle: BoogleState::Disabled,
            next_game: Option::None,
            next_menu: Option::Some(MenuState::Main),
            next_pong: Option::None,
            next_boogle: Option::None,
        },
        entities: Seq::empty(),
        world: Option::None,
        game_timer: Option::None,
        splash_timer: Option::None,
        quit: false,
    }
}

/// Entering the menu screen requests its main page.
pub open spec fn menu_setup_step(m: SessionModel) -> SessionModel {
    SessionModel { flow: Flow { next_menu: Option::Some(MenuState::Main), ..m.flow }, ..m }
}

/// Entering the pong screen starts the pre-game countdown and requests the
/// loading phase.
pub open spec fn game_setup_step(m: SessionModel) -> SessionModel {
    SessionModel {
        game_timer: Option::Some(
            Countdown { elapsed: 0u64, duration: GAME_COUNTDOWN_MS, fired: false },
        ),
        flow: Flow { next_pong: Option::Some(PongState::Loading), ..m.flow },
        ..m
    }
}

/// Entering the game-over phase requests the menu screen.
pub open spec fn game_exit_step(m: SessionModel) -> SessionModel {
    SessionModel { flow: Flow { next_game: Option::Some(GameState::Menu), ..m.flow }, ..m }
}

/// Entering the splash screen spawns its widgets and starts its timer.
pub open spec fn loading_screen_setup_step(m: SessionModel) -> SessionModel {
    SessionModel {
        entities: m.entities.push(
            Entity { tag: ScreenTag::LoadingScreen, kind: EntityKind::UiRoot },
        ),
        splash_timer: Option::Some(
            Countdown { elapsed: 0u64, duration: SPLASH_DURATION_MS, fired: false },
        ),
        ..m
    }
}

/// Entering the main-menu page spawns its widgets.
pub open spec fn main_menu_setup_step(m: SessionModel) -> SessionModel {
    SessionModel {
        entities: m.entities.push(
            Entity { tag: ScreenTag::MainMenuScreen, kind: EntityKind::UiRoot },
        ),
        ..m
    }
}

/// Entering the game-selection page spawns its widgets.
pub open spec fn game_menu_setup_step(m: SessionModel) -> SessionModel {
    SessionModel {
        entities: m.entities.push(
            Entity { tag: ScreenTag::GameMenuScreen, kind: EntityKind::UiRoot },
        ),
        ..m
    }
}

/// Entering the letter-grid game's play phase spawns its grid.
pub open spec fn boogle_setup_step(m: SessionModel) -> SessionModel {
    SessionModel {
        entities: m.entities.push(
            Entity { tag: ScreenTag::BoogleScreen, kind: EntityKind::UiRoot },
        ),
        ..m
    }
}

/// The entities the pong scene spawns, in spawn order: the four walls, the
/// paddle, the ball.
pub open spec fn pong_scene_entities() -> Seq<Entity> {
    seq![
        Entity { tag: ScreenTag::PongScreen, kind: EntityKind::Wall },
        Entity { tag: ScreenTag::PongScreen, kind: EntityKind::Wall },
        Entity { tag: ScreenTag::PongScreen, kind: EntityKind::Wall },
        Entity { tag: ScreenTag::PongScreen, kind: EntityKind::Wall },
        Entity { tag: ScreenTag::PongScreen, kind: EntityKind::Paddle },
        Entity { tag: ScreenTag::PongScreen, kind: EntityKind::Ball },
    ]
}

/// Entering the loading phase builds the world from the window and spawns
/// the scene.
pub open spec fn pong_scene_setup_step(m: SessionModel, hw: i64, hh: i64) -> SessionModel {
    SessionModel {
        world: Option::Some(initial_world(hw, hh)),
        entities: m.entities + pong_scene_entities(),
        ..m
    }
}

/// Leaving a top-level screen: despawn everything the screen owns and reset
/// the scoped resources and sub-state.
pub open spec fn exit_game_step(m: SessionModel, from: GameState) -> SessionModel {
    match from {
        GameState::Menu => m,
        GameState::LoadingScreen => SessionModel {
            entities: without_screen(m.entities, ScreenTag::LoadingScreen),
            splash_timer: Option::None,
            ..m
        },
        GameState::Pong => SessionModel {
            entities: without_screen(m.entities, ScreenTag::PongScreen),
            world: Option::None,
            game_timer: Option::None,
            flow: Flow { pong: PongState::Disabled, next_pong: Option::None, ..m.flow },
            ..m
        },
        GameState::Boogle => SessionModel {
            entities: without_screen(m.entities, ScreenTag::BoogleScreen),
            flow: Flow { boogle: BoogleState::Disabled, next_boogle: Option::None, ..m.flow },
            ..m
        },
    }
}

/// Entering a top-level screen: its setup effect.
pub open spec fn enter_game_step(m: SessionModel, to: GameState) -> SessionModel {
    match to {
        GameState::Menu => menu_setup_step(m),
        GameState::LoadingScreen => loading_screen_setup_step(m),
        GameState::Pong => game_setup_step(m),
        GameState::Boogle => SessionModel {
            flow: Flow { next_boogle: Option::Some(BoogleState::Game), ..m.flow },
            ..m
        },
    }
}

/// Consume the pending top-level request: run the old screen's exit effects,
/// switch, and run the new screen's enter effects. A request for the current
/// screen only clears the pending slot.
pub open spec fn apply_game_step(m: SessionModel) -> SessionModel {
    match m.flow.next_game {
        Option::None => m,
        Option::Some(g) => {
            let m1 = SessionModel { flow: Flow { next_game: Option::None, ..m.flow }, ..m };
            if g == m.flow.game {
                m1
            } else {
                let m2 = exit_game_step(m1, m1.flow.game);
                let m3 = SessionModel { flow: Flow { game: g, ..m2.flow }, ..m2 };
                enter_game_step(m3, g)
            }
        },
    }
}

/// Leaving a menu page despawns its widgets.
pub open spec fn exit_menu_step(m: SessionModel, from: MenuState) -> SessionModel {
    match from {
        MenuState::Main => SessionModel {
            entities: without_screen(m.entities, ScreenTag::MainMenuScreen),
            ..m
        },
        MenuState::Games => SessionModel {
            entities: without_screen(m.entities, ScreenTag::GameMenuScreen),
            ..m
        },
        MenuState::Disabled => m,
    }
}

/// Entering a menu page spawns its widgets.
pub open spec fn enter_menu_step(m: SessionModel, to: MenuState) -> SessionModel {
    match to {
        MenuState::Main => main_menu_setup_step(m),
        MenuState::Games => game_menu_setup_step(m),
        MenuState::Disabled => m,
    }
}

/// Consume the pending menu request.
pub open spec fn apply_menu_step(m: SessionModel) -> SessionModel {
    match m.flow.next_menu {
        Option::None => m,
        Option::Some(p) => {
            let m1 = SessionModel { flow: Flow { next_menu: Option::None, ..m.flow }, ..m };
            if p == m.flow.menu {
                m1
            } else {
                let m2 = exit_menu_step(m1, m1.flow.menu);
                let m3 = SessionModel { flow: Flow { menu: p, ..m2.flow }, ..m2 };
                enter_menu_step(m3, p)
            }
        },
    }
}

/// Entering a pong phase: its setup effect.
pub open spec fn enter_pong_step(m: SessionModel, to: PongState, hw: i64, hh: i64) -> SessionModel {
    match to {
        PongState::Disabled => m,
        PongState::Loading => pong_scene_setup_step(m, hw, hh),
        PongState::Game => m,
        PongState::GameOver => game_exit_step(m),
    }
}

/// Consume the pending pong phase request. Phases have no exit effects of
/// their own: teardown rides the screen exit.
pub open spec fn apply_pong_step(m: SessionModel, hw: i64, hh: i64) -> SessionModel {
    match m.flow.next_pong {
        Option::None => m,
        Option::Some(p) => {
            let m1 = SessionModel { flow: Flow { next_pong: Option::None, ..m.flow }, ..m };
            if p == m.flow.pong {
                m1
            } else {
                let m3 = SessionModel { flow: Flow { pong: p, ..m1.flow }, ..m1 };
                enter_pong_step(m3, p, hw, hh)
            }
        },
    }
}

/// Entering a letter-grid phase: its setup effect.
pub open spec fn enter_boogle_step(m: SessionModel, to: BoogleState) -> SessionModel {
    match to {
        BoogleState::Disabled => m,
        BoogleState::Declaration => m,
        BoogleState::Game => boogle_setup_step(m),
    }
}

/// Consume the pending letter-grid phase request.
pub open spec fn apply_boogle_step(m: SessionModel) -> SessionModel {
    match m.flow.next_boogle {
        Option::None => m,
        Option::Some(b) => {
            let m1 = SessionModel { flow: Flow { next_boogle: Option::None, ..m.flow }, ..m };
            if b == m.flow.boogle {
                m1
            } else {
                let m3 = SessionModel { flow: Flow { boogle: b, ..m1.flow }, ..m1 };
                enter_boogle_step(m3, b)
            }
        },
    }
}

/// The menu system: while the menu screen is current, dispatch the frame's
/// button press, if any.
pub open spec fn menu_update_step(m: SessionModel, pressed: Option<MenuButtonAction>) -> SessionModel {
    if m.flow.game is Menu {
        match pressed {
            Option::None => m,
            Option::Some(a) => SessionModel {
                flow: button_next(m.flow, a),
                quit: m.quit || a is Quit,
                ..m
            },
        }
    } else {
        m
    }
}

/// The splash system: while the splash screen is current, tick its timer;
/// when it fires, request the menu screen.
pub open spec fn splash_update_step(m: SessionModel, dt: u64) -> SessionModel {
    if m.flow.game is LoadingScreen {
        match m.splash_timer {
            Option::None => m,
            Option::Some(t) => SessionModel {
                splash_timer: Option::Some(ticked(t, dt)),
                flow: if tick_fires(t, dt) {
                    Flow { next_game: Option::Some(GameState::Menu), ..m.flow }
                } else {
                    m.flow
                },
                ..m
            },
        }
    } else {
        m
    }
}

/// The pre-game countdown system: while pong is loading, tick the countdown;
/// when it fires, request the play phase.
pub open spec fn countdown_update_step(m: SessionModel, dt: u64) -> SessionModel {
    if m.flow.pong is Loading {
        match m.game_timer {
            Option::None => m,
            Option::Some(t) => SessionModel {
                game_timer: Option::Some(ticked(t, dt)),
                flow: if tick_fires(t, dt) {
                    Flow { next_pong: Option::Some(PongState::Game), ..m.flow }
                } else {
                    m.flow
                },
                ..m
            },
        }
    } else {
        m
    }
}

/// The play loop: while pong's play phase is current, run the four ordered
/// steps — paddle motion, velocity integration, collision response, exit
/// check — and request game over when the ball struck the exit surface.
pub open spec fn pong_update_step(m: SessionModel, i: FrameInput) -> SessionModel {
    if m.flow.pong is Game {
        match m.world {
            Option::None => m,
            Option::Some(w0) => {
                let w1 = moved_paddle(w0, input_sign(i), i.dt_ms);
                let w2 = integrated(w1, i.dt_ms);
                let w3 = collided(w2);
                SessionModel {
                    world: Option::Some(w3),
                    flow: if exit_hit(w3) {
                        Flow { next_pong: Option::Some(PongState::GameOver), ..m.flow }
                    } else {
                        m.flow
                    },
                    ..m
                }
            },
        }
    } else {
        m
    }
}

/// One whole frame: consume the pending requests of every level (screen,
/// menu page, pong phase, letter-grid phase, in that order), then run the
/// gated systems on the states the frame settled on.
pub open spec fn frame_step(m: SessionModel, i: FrameInput) -> SessionModel {
    let m1 = apply_game_step(m);
    let m2 = apply_menu_step(m1);
    let m3 = apply_pong_step(m2, i.half_width, i.half_height);
    let m4 = apply_boogle_step(m3);
    let m5 = menu_update_step(m4, i.pressed);
    let m6 = splash_update_step(m5, i.dt_ms);
    let m7 = countdown_update_step(m6, i.dt_ms);
    pong_update_step(m7, i)
}

impl Session {
    /// Start a fresh session at the main-menu screen.
    pub fn new() -> (s: Session)
        ensures
            s@ == init_model(),
            s@.wf(),
    {
        let mut s = Session {
            flow: Flow::init(),
            entities: Vec::new(),
            world: None,
            game_timer: None,
            splash_timer: None,
            quit: false,
        };
        s.menu_setup();
        s
    }

    /// Enter-effect of the menu screen: request its main page.
    pub fn menu_setup(&mut self)
        ensures
            final(self)@ == menu_setup_step(old(self)@),
    {
        self.flow.request_menu(MenuState::Main);
    }

    /// Enter-effect of the pong screen: start the pre-game countdown and
    /// request the loading phase.
    pub fn game_setup(&mut self)
        requires
            old(self).flow.pong is Disabled,
        ensures
            final(self)@ == game_setup_step(old(self)@),
    {
        self.game_timer = Some(Countdown::new(GAME_COUNTDOWN_MS));
        let accepted = self.flow.request_pong(PongState::Loading);
        assert(accepted);
    }

    /// Enter-effect of the game-over phase: request the menu screen.
    pub fn game_exit(&mut self)
        ensures
            final(self)@ == game_exit_step(old(self)@),
    {
        self.flow.request_game(GameState::Menu);
    }

    /// Enter-effect of the splash screen: spawn its widgets and start its
    /// timer.
    pub fn loading_screen_setup(&mut self)
        ensures
            final(self)@ == loading_screen_setup_step(old(self)@),
    {
        self.entities.push(Entity { tag: ScreenTag::LoadingScreen, kind: EntityKind::UiRoot });
        self.splash_timer = Some(Countdown::new(SPLASH_DURATION_MS));
    }

    /// Enter-effect of the main-menu page: spawn its widgets.
    pub fn main_menu_setup(&mut self)
        ensures
            final(self)@ == main_menu_setup_step(old(self)@),
    {
        self.entities.push(Entity { tag: ScreenTag::MainMenuScreen, kind: EntityKind::UiRoot });
    }

    /// Enter-effect of the game-selection page: spawn its widgets.
    pub fn game_menu_setup(&mut self)
        ensures
            final(self)@ == game_menu_setup_step(old(self)@),
    {
        self.entities.push(Entity { tag: ScreenTag::GameMenuScreen, kind: EntityKind::UiRoot });
    }

    /// Enter-effect of the letter-grid play phase: spawn its grid.
    pub fn boogle_setup(&mut self)
        ensures
            final(self)@ == boogle_setup_step(old(self)@),
    {
        self.entities.push(Entity { tag: ScreenTag::BoogleScreen, kind: EntityKind::UiRoot });
    }

    /// Enter-effect of the loading phase: build the world from the window's
    /// half dimensions and spawn the scene.
    pub fn pong_scene_setup(&mut self, half_width: i64, half_height: i64)
        requires
            PADDLE_HALF_WIDTH <= half_width <= POS_LIMIT,
            1 <= half_height <= POS_LIMIT,
        ensures
            final(self)@ == pong_scene_setup_step(old(self)@, half_width, half_height),
    {
        self.world = Some(pong_setup(half_width, half_height));
        self.entities.push(Entity { tag: ScreenTag::PongScreen, kind: EntityKind::Wall });
        self.entities.push(Entity { tag: ScreenTag::PongScreen, kind: EntityKind::Wall });
        self.entities.push(Entity { tag: ScreenTag::PongScreen, kind: EntityKind::Wall });
        self.entities.push(Entity { tag: ScreenTag::PongScreen, kind: EntityKind::Wall });
        self.entities.push(Entity { tag: ScreenTag::PongScreen, kind: EntityKind::Paddle });
        self.entities.push(Entity { tag: ScreenTag::PongScreen, kind: EntityKind::Ball });
        proof {
            assert(self.entities@ =~= old(self).entities@ + pong_scene_entities());
        }
    }

    /// Consume the pending top-level screen request.
    pub fn apply_game(&mut self)
        requires
            old(self)@.wf(),
        ensures
            final(self)@ == apply_game_step(old(self)@),
            final(self)@.wf(),
    {
        let pending = self.flow.next_game;
        self.flow.next_game = None;
        match pending {
            None => {},
            Some(g) => {
                if !(g == self.flow.game) {
                    match self.flow.game {
                        GameState::Menu => {},
                        GameState::LoadingScreen => {
                            despawn_screen(&mut self.entities, ScreenTag::LoadingScreen);
                            self.splash_timer = None;
                        },
                        GameState::Pong => {
                            despawn_screen(&mut self.entities, ScreenTag::PongScreen);
                            self.world = None;
                            self.game_timer = None;
                            self.flow.pong = PongState::Disabled;
                            self.flow.next_pong = None;
                        },
                        GameState::Boogle => {
                            despawn_screen(&mut self.entities, ScreenTag::BoogleScreen);
                            self.flow.boogle = BoogleState::Disabled;
                            self.flow.next_boogle = None;
                        },
                    }
                    self.flow.game = g;
                    match g {
                        GameState::Menu => self.menu_setup(),
                        GameState::LoadingScreen => self.loading_screen_setup(),
                        GameState::Pong => self.game_setup(),
                        GameState::Boogle => {
                            let accepted = self.flow.request_boogle(BoogleState::Game);
                            assert(accepted);
                        },
                    }
                }
            },
        }
    }

    /// Consume the pending menu page request.
    pub fn apply_menu(&mut self)
        requires
            old(self)@.wf(),
        ensures
            final(self)@ == apply_menu_step(old(self)@),
            final(self)@.wf(),
    {
        let pending = self.flow.next_menu;
        self.flow.next_menu = None;
        match pending {
            None => {},
            Some(p) => {
                if !(p == self.flow.menu) {
                    match self.flow.menu {
                        MenuState::Main => {
                            despawn_screen(&mut self.entities, ScreenTag::MainMenuScreen);
                        },
                        MenuState::Games => {
                            despawn_screen(&mut self.entities, ScreenTag::GameMenuScreen);
                        },
                        MenuState::Disabled => {},
                    }
                    self.flow.menu = p;
                    match p {
                        MenuState::Main => self.main_menu_setup(),
                        MenuState::Games => self.game_menu_setup(),
                        MenuState::Disabled => {},
                    }
                }
            },
        }
    }

    /// Consume the pending pong phase request.
    pub fn apply_pong(&mut self, half_width: i64, half_height: i64)
        requires
            old(self)@.wf(),
            PADDLE_HALF_WIDTH <= half_width <= POS_LIMIT,
            1 <= half_height <= POS_LIMIT,
        ensures
            final(self)@ == apply_pong_step(old(self)@, half_width, half_height),
            final(self)@.wf(),
    {
        let pending = self.flow.next_pong;
        self.flow.next_pong = None;
        match pending {
            None => {},
            Some(p) => {
                if !(p == self.flow.pong) {
                    self.flow.pong = p;
                    match p {
                        PongState::Disabled => {},
                        PongState::Loading => self.pong_scene_setup(half_width, half_height),
                        PongState::Game => {},
                        PongState::GameOver => self.game_exit(),
                    }
                }
            },
        }
    }

    /// Consume the pending letter-grid phase request.
    pub fn apply_boogle(&mut self)
        requires
            old(self)@.wf(),
        ensures
            final(self)@ == apply_boogle_step(old(self)@),
            final(self)@.wf(),
    {
        let pending = self.flow.next_boogle;
        self.flow.next_boogle = None;
        match pending {
            None => {},
            Some(b) => {
                if !(b == self.flow.boogle) {
                    self.flow.boogle = b;
                    match b {
                        BoogleState::Disabled => {},
                        BoogleState::Declaration => {},
                        BoogleState::Game => self.boogle_setup(),
                    }
                }
            },
        }
    }

    /// The menu system: dispatch the frame's button press while the menu
    /// screen is current.
    pub fn menu_update(&mut self, pressed: Option<MenuButtonAction>)
        requires
            old(self)@.wf(),
        ensures
            final(self)@ == menu_update_step(old(self)@, pressed),
            final(self)@.wf(),
    {
        if self.flow.game == GameState::Menu {
            match pressed {
                None => {},
                Some(a) => {
                    let wants_quit = button_action(&a, &mut self.flow);
                    if wants_quit {
                        self.quit = true;
                    }
                },
            }
        }
    }

    /// The splash system: tick the splash timer while the splash screen is
    /// current; when it fires, request the menu screen.
    pub fn timer(&mut self, dt_ms: u64)
        requires
            old(self)@.wf(),
        ensures
            final(self)@ == splash_update_step(old(self)@, dt_ms),
            final(self)@.wf(),
    {
        if self.flow.game == GameState::LoadingScreen {
            match self.splash_timer {
                None => {},
                Some(t) => {
                    let mut t2 = t;
                    let fired = t2.tick(dt_ms);
                    self.splash_timer = Some(t2);
                    if fired {
                        self.flow.request_game(GameState::Menu);
                    }
                },
            }
        }
    }

    /// The pre-game countdown system: tick the countdown while pong is
    /// loading; when it fires, request the play phase.
    pub fn countdown(&mut self, dt_ms: u64)
        requires
            old(self)@.wf(),
        ensures
            final(self)@ == countdown_update_step(old(self)@, dt_ms),
            final(self)@.wf(),
    {
        if self.flow.pong == PongState::Loading {
            match self.game_timer {
                None => {},
                Some(t) => {
                    let mut t2 = t;
                    let fired = t2.tick(dt_ms);
                    self.game_timer = Some(t2);
                    if fired {
                        let accepted = self.flow.request_pong(PongState::Game);
                        assert(accepted);
                    }
                },
            }
        }
    }

    /// The play loop: run the four ordered pong systems while the play phase
    /// is current.
    pub fn pong_update(&mut self, input: FrameInput)
        requires
            old(self)@.wf(),
            input.wf(),
        ensures
            final(self)@ == pong_update_step(old(self)@, input),
            final(self)@.wf(),
    {
        if self.flow.pong == PongState::Game {
            match self.world {
                None => {},
                Some(w) => {
                    let mut w2 = w;
                    let dir = direction_from_input(input.left_pressed, input.right_pressed);
                    move_paddle(&mut w2, dir, input.dt_ms);
                    velocity_update(&mut w2, input.dt_ms);
                    check_collision(&mut w2);
                    self.world = Some(w2);
                    if exit_conditions(&w2) {
                        let accepted = self.flow.request_pong(PongState::GameOver);
                        assert(accepted);
                    }
                },
            }
        }
    }

    /// Advance the session by one whole frame: consume the pending state
    /// requests, then run the systems gated by the states the frame settled
    /// on.
    pub fn frame(&mut self, input: FrameInput)
        requires
            old(self)@.wf(),
            input.wf(),
        ensures
            final(self)@ == frame_step(old(self)@, input),
            final(self)@.wf(),
    {
        self.apply_game();
        self.apply_menu();
        self.apply_pong(input.half_width, input.half_height);
        self.apply_boogle();
        self.menu_update(input.pressed);
        self.timer(input.dt_ms);
        self.countdown(input.dt_ms);
        self.pong_update(input);
    }
}

} // verus!
