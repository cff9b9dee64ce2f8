//! The session state machine: menu, loading, playing and game over, with
//! the state that a session owns.
//!
//! Each step of the game is one method. A step that does not belong to the
//! current state changes nothing and raises nothing, so that stale signals
//! from the frame in which a transition happened do no harm.

use crate::collision::{spec_accepts, spec_gap, PlayerCollision};
use crate::gravity::{update_gravity, GravitySource, GravityView};
use crate::menu::MenuEvent;
use crate::terrain::{create_game_level, GameLevel, GameLevelView};
use crate::timer::{
    secs_to_nanos, spec_timer_to_secs_remaining, timer_to_secs_remaining, Countdown,
    CountdownView,
};
use vstd::prelude::*;

verus! {

/// Seconds for which the loading screen is shown.
pub const LOADING_TIMER_DURATION_SECONDS: u64 = 3;

/// Seconds for which the result is shown when the game is over.
pub const GAME_OVER_SCREEN_SHOW_DURATION_SECONDS: u64 = 5;

/// The state of a session.
#[derive(Clone, Copy, Debug, PartialEq, Eq, Hash, Structural)]
pub enum AppState {
    Init,
    InMenu,
    LoadingLevel,
    InGame,
    GameOver,
}

impl Default for AppState {
    fn default() -> (state: AppState)
        ensures
            state == AppState::Init,
    {
        AppState::Init
    }
}

/// What the game tells its collaborators.
#[derive(Clone, Copy, Debug, PartialEq, Eq, Structural)]
pub enum GameEvent {
    /// The whole seconds left on the countdown changed to this many.
    CountdownTick(u32),
    GoalReached,
    GameOver,
    LevelStarted,
    /// The player hit something: nanoseconds since the last such hit, and
    /// the magnitude of the contact force.
    PlayerCollided(u64, u64),
}

/// Whether a session may pass from `from` to `to` in one step.
pub open spec fn allowed_transition(from: AppState, to: AppState) -> bool {
    ||| from == AppState::Init && to == AppState::InMenu
    ||| from == AppState::InMenu && to == AppState::LoadingLevel
    ||| from == AppState::LoadingLevel && to == AppState::InGame
    ||| from == AppState::InGame && to == AppState::LoadingLevel
    ||| from == AppState::InGame && to == AppState::GameOver
    ||| from == AppState::InGame && to == AppState::InMenu
    ||| from == AppState::GameOver && to == AppState::InMenu
}

/// What a [`Session`] stands for.
pub struct SessionView {
    pub state: AppState,
    /// The level that is played or was played last, if any.
    pub level: Option<GameLevelView>,
    pub gravity: GravityView,
    pub collision: PlayerCollision,
    /// The timer of the loading screen.
    pub loading: CountdownView,
    /// The timer of the game over screen.
    pub game_over_screen: CountdownView,
    /// Whether loading was entered and the next level is not yet built.
    pub setup_pending: bool,
}

impl SessionView {
    /// A session that has just been created.
    pub open spec fn initial() -> SessionView {
        SessionView {
            state: AppState::Init,
            level: None,
            gravity: GravityView::initial(),
            collision: PlayerCollision { previous_collision_time: 0 },
            loading: CountdownView::fresh(secs_to_nanos(LOADING_TIMER_DURATION_SECONDS as nat)),
            game_over_screen: CountdownView::fresh(
                secs_to_nanos(GAME_OVER_SCREEN_SHOW_DURATION_SECONDS as nat),
            ),
            setup_pending: false,
        }
    }

    /// A level exists whenever one is played or was just lost, and once
    /// loading has built it; every level is well formed and the gravity
    /// scalar lies within its bounds.
    pub open spec fn wf(self) -> bool {
        &&& self.gravity.wf()
        &&& self.level matches Some(level) ==> level.wf()
        &&& self.state == AppState::InGame || self.state == AppState::GameOver
            ==> self.level is Some
        &&& self.state == AppState::LoadingLevel && !self.setup_pending ==> self.level is Some
        &&& self.setup_pending ==> self.state == AppState::LoadingLevel
    }

    /// Number of the level that is played or was played last; zero before
    /// the first.
    pub open spec fn current_level(self) -> nat {
        match self.level {
            Some(level) => level.n,
            None => 0,
        }
    }

    /// The presentation surface is ready: a session that was starting
    /// enters the menu.
    pub open spec fn surface_ready(self) -> SessionView {
        if self.state == AppState::Init {
            SessionView { state: AppState::InMenu, ..self }
        } else {
            self
        }
    }

    /// A menu event arrived: "begin new game" in the menu drops the last
    /// level, so that numbering starts over, and enters loading.
    pub open spec fn menu_event(self, event: MenuEvent) -> SessionView {
        if self.state == AppState::InMenu && event == MenuEvent::BeginNewGame {
            SessionView { state: AppState::LoadingLevel, level: None, setup_pending: true, ..self }
        } else {
            self
        }
    }

    /// Whether the next level is still to be built.
    pub open spec fn awaits_setup(self) -> bool {
        self.state == AppState::LoadingLevel && self.setup_pending
    }

    /// Loading builds the level after the current one, resets the gravity
    /// source and the collision debounce, and starts the loading timer.
    pub open spec fn set_up(self, draws: Seq<i32>) -> SessionView {
        if self.awaits_setup() {
            SessionView {
                level: Some(GameLevelView::generated(self.current_level(), draws)),
                gravity: GravityView::initial(),
                collision: PlayerCollision { previous_collision_time: 0 },
                loading: CountdownView::fresh(secs_to_nanos(LOADING_TIMER_DURATION_SECONDS as nat)),
                setup_pending: false,
                ..self
            }
        } else {
            self
        }
    }

    /// Whether the loading screen is running.
    pub open spec fn is_loading(self) -> bool {
        self.state == AppState::LoadingLevel && !self.setup_pending
    }

    /// The loading screen runs for `dt` nanoseconds; when its time is up
    /// the game starts.
    pub open spec fn loaded(self, dt: nat) -> SessionView {
        if self.is_loading() {
            SessionView {
                state: if self.loading.after(dt).finished() {
                    AppState::InGame
                } else {
                    AppState::LoadingLevel
                },
                loading: self.loading.after(dt),
                ..self
            }
        } else {
            self
        }
    }

    pub open spec fn loaded_event(self, dt: nat) -> Option<GameEvent> {
        if self.is_loading() && self.loading.after(dt).finished() {
            Some(GameEvent::LevelStarted)
        } else {
            None
        }
    }

    /// Whether the gravity scalar moves in the current state: while
    /// playing, and in every state while it cycles by itself.
    pub open spec fn gravity_runs(self) -> bool {
        self.state == AppState::InGame || self.gravity.auto_cycle
    }

    pub open spec fn gravity_updated(self, dt: nat, decrease: bool, increase: bool)
        -> SessionView {
        if self.gravity_runs() {
            SessionView { gravity: self.gravity.updated(dt, decrease, increase), ..self }
        } else {
            self
        }
    }

    /// Whether a goal check with the given result counts as reaching the
    /// goal.
    pub open spec fn reaches_goal(self, touched: bool) -> bool {
        self.state == AppState::InGame && touched
    }

    /// Reaching the goal leaves the game for loading at once, keeping the
    /// level so that numbering goes on.
    pub open spec fn goal_checked(self, touched: bool) -> SessionView {
        if self.reaches_goal(touched) {
            SessionView { state: AppState::LoadingLevel, setup_pending: true, ..self }
        } else {
            self
        }
    }

    pub open spec fn goal_event(self, touched: bool) -> Option<GameEvent> {
        if self.reaches_goal(touched) {
            Some(GameEvent::GoalReached)
        } else {
            None
        }
    }

    /// Whether a raw contact event at `now` counts as a collision.
    pub open spec fn accepts_contact(self, now: u64) -> bool {
        self.state == AppState::InGame && spec_accepts(self.collision.previous_collision_time, now)
    }

    pub open spec fn contact(self, now: u64) -> SessionView {
        if self.accepts_contact(now) {
            SessionView { collision: PlayerCollision { previous_collision_time: now }, ..self }
        } else {
            self
        }
    }

    pub open spec fn contact_event(self, now: u64, magnitude: u64) -> Option<GameEvent> {
        if self.accepts_contact(now) {
            Some(
                GameEvent::PlayerCollided(
                    spec_gap(self.collision.previous_collision_time, now),
                    magnitude,
                ),
            )
        } else {
            None
        }
    }

    /// The contact events of one frame, all at time `now`, taken in order.
    pub open spec fn contacts(self, now: u64, magnitudes: Seq<u64>) -> SessionView
        decreases magnitudes.len(),
    {
        if magnitudes.len() == 0 {
            self
        } else {
            self.contact(now).contacts(now, magnitudes.drop_first())
        }
    }

    pub open spec fn contacts_events(self, now: u64, magnitudes: Seq<u64>) -> Seq<GameEvent>
        decreases magnitudes.len(),
    {
        if magnitudes.len() == 0 {
            Seq::empty()
        } else {
            let rest = self.contact(now).contacts_events(now, magnitudes.drop_first());
            match self.contact_event(now, magnitudes[0]) {
                Some(event) => seq![event] + rest,
                None => rest,
            }
        }
    }

    /// Whether the countdown of a level runs.
    pub open spec fn counts_down(self) -> bool {
        self.state == AppState::InGame && self.level is Some
    }

    /// The countdown runs for `dt` nanoseconds; when it reaches zero the
    /// game is over and the game over screen starts.
    pub open spec fn counted_down(self, dt: nat) -> SessionView {
        if self.counts_down() {
            let level = self.level->0;
            let countdown = level.countdown.after(dt);
            SessionView {
                state: if countdown.finished() {
                    AppState::GameOver
                } else {
                    AppState::InGame
                },
                level: Some(GameLevelView { countdown, ..level }),
                game_over_screen: if countdown.finished() {
                    CountdownView::fresh(
                        secs_to_nanos(GAME_OVER_SCREEN_SHOW_DURATION_SECONDS as nat),
                    )
                } else {
                    self.game_over_screen
                },
                ..self
            }
        } else {
            self
        }
    }

    /// What the countdown raises: "game over" when it reaches zero, else a
    /// tick whenever the whole seconds left have changed.
    pub open spec fn countdown_event(self, dt: nat) -> Option<GameEvent> {
        if self.counts_down() {
            let before = self.level->0.countdown;
            let after = before.after(dt);
            if after.finished() {
                Some(GameEvent::GameOver)
            } else if spec_timer_to_secs_remaining(after) != spec_timer_to_secs_remaining(before) {
                Some(GameEvent::CountdownTick(spec_timer_to_secs_remaining(after)))
            } else {
                None
            }
        } else {
            None
        }
    }

    /// The game over screen runs for `dt` nanoseconds; when its time is up
    /// the session is back in the menu.
    pub open spec fn game_over_shown(self, dt: nat) -> SessionView {
        if self.state == AppState::GameOver {
            SessionView {
                state: if self.game_over_screen.after(dt).finished() {
                    AppState::InMenu
                } else {
                    AppState::GameOver
                },
                game_over_screen: self.game_over_screen.after(dt),
                ..self
            }
        } else {
            self
        }
    }

    /// Whether a request to return to the menu is honoured.
    pub open spec fn leaves_game(self, requested: bool) -> bool {
        self.state == AppState::InGame && requested
    }

    /// A request to return to the menu ends the game that is played.
    pub open spec fn returned_to_menu(self, requested: bool) -> SessionView {
        if self.leaves_game(requested) {
            SessionView { state: AppState::InMenu, ..self }
        } else {
            self
        }
    }

    /// The event raised on entering the menu from `before`.
    pub open spec fn menu_entered(self, before: SessionView) -> Option<MenuEvent> {
        if before.state != AppState::InMenu && self.state == AppState::InMenu {
            Some(MenuEvent::EnterMenu)
        } else {
            None
        }
    }
}

impl SessionView {
    /// The session after a run of goal checks with the given results.
    pub open spec fn goal_checks(self, touches: Seq<bool>) -> SessionView
        decreases touches.len(),
    {
        if touches.len() == 0 {
            self
        } else {
            self.goal_checked(touches[0]).goal_checks(touches.drop_first())
        }
    }

    /// How often "goal reached" is raised over a run of goal checks.
    pub open spec fn goals_reached(self, touches: Seq<bool>) -> nat
        decreases touches.len(),
    {
        if touches.len() == 0 {
            0
        } else {
            (if self.goal_event(touches[0]) is Some {
                1nat
            } else {
                0nat
            }) + self.goal_checked(touches[0]).goals_reached(touches.drop_first())
        }
    }

    /// The session after a run of countdown steps of the given lengths.
    pub open spec fn countdowns(self, ticks: Seq<nat>) -> SessionView
        decreases ticks.len(),
    {
        if ticks.len() == 0 {
            self
        } else {
            self.counted_down(ticks[0]).countdowns(ticks.drop_first())
        }
    }

    /// How often "game over" is raised over a run of countdown steps.
    pub open spec fn games_over(self, ticks: Seq<nat>) -> nat
        decreases ticks.len(),
    {
        if ticks.len() == 0 {
            0
        } else {
            (if self.countdown_event(ticks[0]) == Some(GameEvent::GameOver) {
                1nat
            } else {
                0nat
            }) + self.counted_down(ticks[0]).games_over(ticks.drop_first())
        }
    }
}

/// Every step keeps a session well formed.
pub proof fn lemma_steps_keep_wf(
    session: SessionView,
    event: MenuEvent,
    draws: Seq<i32>,
    dt: nat,
    now: u64,
    flag: bool,
    other: bool,
)
    requires
        session.wf(),
    ensures
        SessionView::initial().wf(),
        session.surface_ready().wf(),
        session.menu_event(event).wf(),
        session.set_up(draws).wf(),
        session.loaded(dt).wf(),
        session.gravity_updated(dt, flag, other).wf(),
        session.goal_checked(flag).wf(),
        session.contact(now).wf(),
        session.counted_down(dt).wf(),
        session.game_over_shown(dt).wf(),
        session.returned_to_menu(flag).wf(),
{
    crate::terrain::lemma_generated_wf(session.current_level(), draws);
    crate::gravity::lemma_update_keeps_bounds(session.gravity, dt, flag, other);
    if session.counts_down() {
        let level = session.level->0;
        crate::timer::lemma_tick_monotone(level.countdown, dt);
        let moved = GameLevelView { countdown: level.countdown.after(dt), ..level };
        assert(moved.wf());
    }
}

/// The transitions are strict: a step either leaves the state as it is or
/// follows one of the allowed transitions.
pub proof fn lemma_transitions_strict(
    session: SessionView,
    event: MenuEvent,
    draws: Seq<i32>,
    dt: nat,
    now: u64,
    flag: bool,
    other: bool,
)
    ensures
        session.surface_ready().state == session.state || allowed_transition(
            session.state,
            session.surface_ready().state,
        ),
        session.menu_event(event).state == session.state || allowed_transition(
            session.state,
            session.menu_event(event).state,
        ),
        session.set_up(draws).state == session.state,
        session.loaded(dt).state == session.state || allowed_transition(
            session.state,
            session.loaded(dt).state,
        ),
        session.gravity_updated(dt, flag, other).state == session.state,
        session.goal_checked(flag).state == session.state || allowed_transition(
            session.state,
            session.goal_checked(flag).state,
        ),
        session.contact(now).state == session.state,
        session.counted_down(dt).state == session.state || allowed_transition(
            session.state,
            session.counted_down(dt).state,
        ),
        session.game_over_shown(dt).state == session.state || allowed_transition(
            session.state,
            session.game_over_shown(dt).state,
        ),
        session.returned_to_menu(flag).state == session.state || allowed_transition(
            session.state,
            session.returned_to_menu(flag).state,
        ),
{
}

/// Level numbering: a new game starts at level one, and reaching the goal
/// of level `n` leads to level `n + 1`.
pub proof fn lemma_level_numbering(session: SessionView, draws: Seq<i32>)
    ensures
        session.state == AppState::InMenu ==> session.menu_event(MenuEvent::BeginNewGame).set_up(
            draws,
        ).current_level() == 1,
        session.state == AppState::InGame && session.current_level() < u32::MAX
            ==> session.goal_checked(true).set_up(draws).current_level() == session.current_level()
            + 1,
{
}

/// Repeating the goal check while the player rests on the goal raises
/// "goal reached" at most once: the first hit leaves the game, and a check
/// outside the game changes nothing and raises nothing.
pub proof fn lemma_goal_reached_once(session: SessionView, touches: Seq<bool>)
    ensures
        session.goals_reached(touches) <= 1,
        session.state != AppState::InGame ==> session.goals_reached(touches) == 0
            && session.goal_checks(touches) == session,
        session.goal_checked(true).goal_checked(true) == session.goal_checked(true),
        session.goal_checked(true).goal_event(true) is None,
    decreases touches.len(),
{
    if touches.len() > 0 {
        lemma_goal_reached_once(session.goal_checked(touches[0]), touches.drop_first());
    }
}

/// Reaching the goal supersedes the countdown: once the goal is reached,
/// the countdown of the same frame does nothing, however long the frame.
pub proof fn lemma_goal_supersedes_countdown(session: SessionView, dt: nat)
    requires
        session.state == AppState::InGame,
    ensures
        session.goal_checked(true).state == AppState::LoadingLevel,
        session.goal_checked(true).counted_down(dt) == session.goal_checked(true),
        session.goal_checked(true).countdown_event(dt) is None,
{
}

/// The game ends exactly once per level: after the countdown has raised
/// "game over", further countdown steps change nothing and raise nothing.
pub proof fn lemma_game_over_once(session: SessionView, ticks: Seq<nat>)
    ensures
        session.games_over(ticks) <= 1,
        session.state != AppState::InGame ==> session.games_over(ticks) == 0
            && session.countdowns(ticks) == session,
    decreases ticks.len(),
{
    if ticks.len() > 0 {
        lemma_game_over_once(session.counted_down(ticks[0]), ticks.drop_first());
    }
}

/// The contact events of one frame give at most one collision, that of
/// the first event, and none outside the game. They change nothing but the
/// time of the last collision.
pub proof fn lemma_one_collision_per_frame(session: SessionView, now: u64, magnitudes: Seq<u64>)
    ensures
        session.contacts_events(now, magnitudes).len() <= 1,
        !session.accepts_contact(now) || magnitudes.len() == 0 ==> session.contacts_events(
            now,
            magnitudes,
        ).len() == 0 && session.contacts(now, magnitudes) == session,
        session.accepts_contact(now) && magnitudes.len() > 0 ==> session.contacts_events(
            now,
            magnitudes,
        ) == seq![session.contact_event(now, magnitudes[0])->0] && session.contacts(now, magnitudes)
            == session.contact(now),
    decreases magnitudes.len(),
{
    if magnitudes.len() > 0 {
        lemma_one_collision_per_frame(session.contact(now), now, magnitudes.drop_first());
    }
}

/// Everything that a session owns.
#[derive(Debug)]
pub struct Session {
    state: AppState,
    game_level: Option<GameLevel>,
    gravity_source: GravitySource,
    player_collision: PlayerCollision,
    loading: Countdown,
    game_over_screen: Countdown,
    setup_pending: bool,
}

impl View for Session {
    type V = SessionView;

    closed spec fn view(&self) -> SessionView {
        SessionView {
            state: self.state,
            level: match self.game_level {
                Some(level) => Some(level@),
                None => None,
            },
            gravity: self.gravity_source@,
            collision: self.player_collision,
            loading: self.loading@,
            game_over_screen: self.game_over_screen@,
            setup_pending: self.setup_pending,
        }
    }
}

impl Session {
    /// A session at the start of the program.
    pub fn new() -> (session: Session)
        ensures
            session@ == SessionView::initial(),
            session@.wf(),
    {
        Session {
            state: AppState::Init,
            game_level: None,
            gravity_source: GravitySource::default(),
            player_collision: PlayerCollision::default(),
            loading: Countdown::from_secs(LOADING_TIMER_DURATION_SECONDS),
            game_over_screen: Countdown::from_secs(GAME_OVER_SCREEN_SHOW_DURATION_SECONDS),
            setup_pending: false,
        }
    }

    pub fn state(&self) -> (state: AppState)
        ensures
            state == self@.state,
    {
        self.state
    }

    /// The level that is played or was played last.
    pub fn game_level(&self) -> (level: Option<&GameLevel>)
        ensures
            match level {
                Some(level) => self@.level == Some(level@),
                None => self@.level is None,
            },
    {
        self.game_level.as_ref()
    }

    pub fn gravity_source(&self) -> (source: &GravitySource)
        ensures
            source@ == self@.gravity,
    {
        &self.gravity_source
    }

    pub fn player_collision(&self) -> (collision: PlayerCollision)
        ensures
            collision == self@.collision,
    {
        self.player_collision
    }

    /// Whether loading was entered and [`Session::game_setup`] has not run
    /// for it yet.
    pub fn setup_pending(&self) -> (pending: bool)
        ensures
            pending == self@.awaits_setup(),
    {
        self.state == AppState::LoadingLevel && self.setup_pending
    }

    /// Switches the gravity source between cycling by itself and manual
    /// control.
    pub fn set_gravity_auto_cycle(&mut self, enabled: bool)
        ensures
            final(self)@ == (SessionView {
                gravity: GravityView { auto_cycle: enabled, ..old(self)@.gravity },
                ..old(self)@
            }),
            old(self)@.wf() ==> final(self)@.wf(),
    {
        self.gravity_source.set_auto_cycle(enabled);
    }

    /// The presentation surface is ready. A session that was starting
    /// enters the menu and says so; any other session is left alone.
    pub fn surface_ready(&mut self) -> (event: Option<MenuEvent>)
        ensures
            final(self)@ == old(self)@.surface_ready(),
            event == final(self)@.menu_entered(old(self)@),
            old(self)@.wf() ==> final(self)@.wf(),
    {
        if self.state == AppState::Init {
            self.state = AppState::InMenu;
            Some(MenuEvent::EnterMenu)
        } else {
            None
        }
    }

    /// Takes a menu event. "Begin new game", in the menu, drops the last
    /// level and enters loading; the result says whether it did.
    pub fn init_game(&mut self, event: MenuEvent) -> (started: bool)
        ensures
            final(self)@ == old(self)@.menu_event(event),
            started == (old(self)@.state == AppState::InMenu && event == MenuEvent::BeginNewGame),
            old(self)@.wf() ==> final(self)@.wf(),
    {
        if self.state == AppState::InMenu && event == MenuEvent::BeginNewGame {
            self.game_level = None;
            self.state = AppState::LoadingLevel;
            self.setup_pending = true;
            true
        } else {
            false
        }
    }

    /// Builds the next level once after loading was entered. `draws` holds
    /// the random heights of the inner wall. The result says whether a
    /// level was built.
    pub fn game_setup(&mut self, draws: &Vec<i32>) -> (built: bool)
        ensures
            final(self)@ == old(self)@.set_up(draws@),
            built == old(self)@.awaits_setup(),
            built ==> final(self)@.level is Some && final(self)@.level->0.wf(),
            old(self)@.wf() ==> final(self)@.wf(),
    {
        proof {
            if self@.wf() {
                lemma_steps_keep_wf(self@, MenuEvent::EnterMenu, draws@, 0, 0, false, false);
            }
        }
        if self.state == AppState::LoadingLevel && self.setup_pending {
            let current_game_level_n: u32 = match &self.game_level {
                Some(level) => level.n(),
                None => 0,
            };
            let next_game_level: GameLevel = create_game_level(current_game_level_n, draws);
            self.gravity_source = GravitySource::default();
            self.player_collision = PlayerCollision::default();
            self.game_level = Some(next_game_level);
            self.loading = Countdown::from_secs(LOADING_TIMER_DURATION_SECONDS);
            self.setup_pending = false;
            true
        } else {
            false
        }
    }

    /// Runs the loading screen for `dt` nanoseconds. When its time is up
    /// the game starts and "level started" is raised.
    pub fn loading_update(&mut self, dt: u64) -> (event: Option<GameEvent>)
        ensures
            final(self)@ == old(self)@.loaded(dt as nat),
            event == old(self)@.loaded_event(dt as nat),
            old(self)@.wf() ==> final(self)@.wf(),
    {
        if self.state == AppState::LoadingLevel && !self.setup_pending {
            self.loading.tick(dt);
            if self.loading.finished() {
                self.state = AppState::InGame;
                Some(GameEvent::LevelStarted)
            } else {
                None
            }
        } else {
            None
        }
    }

    /// Moves the gravity scalar for a tick of `dt` nanoseconds, while the
    /// game is played or the scalar cycles by itself.
    pub fn update_gravity(&mut self, dt: u64, decrease_pressed: bool, increase_pressed: bool)
        ensures
            final(self)@ == old(self)@.gravity_updated(
                dt as nat,
                decrease_pressed,
                increase_pressed,
            ),
            old(self)@.wf() ==> final(self)@.wf(),
    {
        proof {
            if self@.wf() {
                lemma_steps_keep_wf(self@, MenuEvent::EnterMenu, Seq::empty(), dt as nat, 0, decrease_pressed, increase_pressed);
            }
        }
        if self.state == AppState::InGame || self.gravity_source.auto_cycle() {
            update_gravity(&mut self.gravity_source, dt, decrease_pressed, increase_pressed);
        }
    }

    /// Takes the result of the intersection query between the player and
    /// the goal. A hit while the game is played raises "goal reached" and
    /// enters loading at once.
    pub fn check_goal_reached(&mut self, touched: bool) -> (event: Option<GameEvent>)
        ensures
            final(self)@ == old(self)@.goal_checked(touched),
            event == old(self)@.goal_event(touched),
            old(self)@.wf() ==> final(self)@.wf(),
    {
        if self.state == AppState::InGame && touched {
            self.state = AppState::LoadingLevel;
            self.setup_pending = true;
            Some(GameEvent::GoalReached)
        } else {
            None
        }
    }

    /// Takes the raw contact events of one frame, which all happened at
    /// time `now`, by the magnitude of their force, and returns the
    /// collisions that survive the debounce.
    pub fn detect_player_collision(&mut self, now: u64, magnitudes: &Vec<u64>) -> (events: Vec<
        GameEvent,
    >)
        ensures
            final(self)@ == old(self)@.contacts(now, magnitudes@),
            events@ == old(self)@.contacts_events(now, magnitudes@),
            final(self)@ == if old(self)@.accepts_contact(now) && magnitudes@.len() > 0 {
                old(self)@.contact(now)
            } else {
                old(self)@
            },
            events@ == if old(self)@.accepts_contact(now) && magnitudes@.len() > 0 {
                seq![old(self)@.contact_event(now, magnitudes@[0])->0]
            } else {
                Seq::<GameEvent>::empty()
            },
            old(self)@.wf() ==> final(self)@.wf(),
    {
        proof {
            lemma_one_collision_per_frame(self@, now, magnitudes@);
        }
        let mut events: Vec<GameEvent> = Vec::new();
        let mut index: usize = 0;
        let ghost start = self@;
        assert(magnitudes@.skip(0) =~= magnitudes@);
        assert(events@ + start.contacts_events(now, magnitudes@) =~= start.contacts_events(
            now,
            magnitudes@,
        ));
        while index < magnitudes.len()
            invariant
                index <= magnitudes@.len(),
                start.contacts(now, magnitudes@) == self@.contacts(
                    now,
                    magnitudes@.skip(index as int),
                ),
                start.contacts_events(now, magnitudes@) == events@ + self@.contacts_events(
                    now,
                    magnitudes@.skip(index as int),
                ),
            decreases magnitudes.len() - index,
        {
            let ghost before = self@;
            let ghost rest = magnitudes@.skip(index as int);
            assert(rest.drop_first() =~= magnitudes@.skip(index + 1));
            assert(rest[0] == magnitudes@[index as int]);
            if self.state == AppState::InGame {
                match self.player_collision.detect(now, magnitudes[index]) {
                    Some(collision) => {
                        events.push(GameEvent::PlayerCollided(collision.gap, collision.magnitude));
                        assert(events@ + before.contact(now).contacts_events(
                            now,
                            rest.drop_first(),
                        ) =~= events@.drop_last() + before.contacts_events(now, rest));
                    },
                    None => {},
                }
            }
            index = index + 1;
        }
        assert(magnitudes@.skip(index as int) =~= Seq::<u64>::empty());
        assert(events@ + Seq::<GameEvent>::empty() =~= events@);
        events
    }

    /// Runs the countdown of the level for `dt` nanoseconds. When it
    /// reaches zero the game is over; until then a tick is raised whenever
    /// the whole seconds left have changed.
    pub fn update_game_over_countdown(&mut self, dt: u64) -> (event: Option<GameEvent>)
        ensures
            final(self)@ == old(self)@.counted_down(dt as nat),
            event == old(self)@.countdown_event(dt as nat),
            old(self)@.wf() ==> final(self)@.wf(),
    {
        proof {
            if self@.wf() {
                lemma_steps_keep_wf(self@, MenuEvent::EnterMenu, Seq::empty(), dt as nat, 0, false, false);
            }
        }
        if self.state != AppState::InGame {
            return None;
        }
        match &mut self.game_level {
            Some(level) => {
                let time_remaining: u32 = timer_to_secs_remaining(&level.countdown());
                level.tick_countdown(dt);
                let countdown: Countdown = level.countdown();
                let next_time_remaining: u32 = timer_to_secs_remaining(&countdown);
                if countdown.finished() {
                    self.state = AppState::GameOver;
                    self.game_over_screen = Countdown::from_secs(
                        GAME_OVER_SCREEN_SHOW_DURATION_SECONDS,
                    );
                    Some(GameEvent::GameOver)
                } else if next_time_remaining != time_remaining {
                    Some(GameEvent::CountdownTick(next_time_remaining))
                } else {
                    None
                }
            },
            None => None,
        }
    }

    /// Runs the game over screen for `dt` nanoseconds. When its time is up
    /// the session enters the menu and says so.
    pub fn gameover_screen_update(&mut self, dt: u64) -> (event: Option<MenuEvent>)
        ensures
            final(self)@ == old(self)@.game_over_shown(dt as nat),
            event == final(self)@.menu_entered(old(self)@),
            old(self)@.wf() ==> final(self)@.wf(),
    {
        if self.state == AppState::GameOver {
            self.game_over_screen.tick(dt);
            if self.game_over_screen.finished() {
                self.state = AppState::InMenu;
                Some(MenuEvent::EnterMenu)
            } else {
                None
            }
        } else {
            None
        }
    }

    /// Takes the "return to menu" signal. While the game is played it ends
    /// the game: the session enters the menu and says so.
    pub fn app_controls(&mut self, should_go_to_menu: bool) -> (event: Option<MenuEvent>)
        ensures
            final(self)@ == old(self)@.returned_to_menu(should_go_to_menu),
            event == final(self)@.menu_entered(old(self)@),
            old(self)@.wf() ==> final(self)@.wf(),
    {
        if self.state == AppState::InGame && should_go_to_menu {
            self.state = AppState::InMenu;
            Some(MenuEvent::EnterMenu)
        } else {
            None
        }
    }
}

} // verus!
