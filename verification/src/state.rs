//! The game as a whole: its three modes and what one tick does in each.

use vstd::prelude::*;
use crate::obstacle::{
    after_check, gap_size_for, hits, spawned, valid_gap_center, valid_obstacle, Obstacle,
    ObstacleModel,
};
use crate::player::{after_frame, Player, PlayerModel};
use crate::units::{
    FLAP_VEL, FRAME_DURATION, PLAYER_START_X, PLAYER_START_Y, SCREEN_HEIGHT, SCREEN_WIDTH,
    TERMINAL_VEL,
};

verus! {

/// What the game is doing.
#[derive(Clone, Copy, Debug, PartialEq, Eq, Structural)]
pub enum GameMode {
    /// Waiting for the first game to start.
    Menu,
    /// A game is running.
    Playing,
    /// The last game has ended.
    GameOver,
}

/// A key that was pressed since the last tick.
#[derive(Clone, Copy, Debug, PartialEq, Eq, Structural)]
pub enum KeyEvent {
    /// Starts a game, or makes the player climb.
    Flap,
    /// Ends the program.
    Quit,
}

/// What the caller of a tick has to do after it.
#[derive(Clone, Copy, Debug, PartialEq, Eq, Structural)]
pub enum Action {
    /// Nothing but to draw the state.
    Continue,
    /// A new game has started: whatever the last one left on screen goes.
    Restart,
    /// The program is to end.
    Quit,
}

/// The whole game.
#[derive(Clone, Copy, Debug, PartialEq, Eq)]
pub struct State {
    player: Player,
    obstacle: Obstacle,
    mode: GameMode,
    frame_time: u64,
    score: u32,
}

/// What a `State` stands for.
pub struct StateModel {
    pub player: PlayerModel,
    /// The one obstacle on screen.
    pub obstacle: ObstacleModel,
    pub mode: GameMode,
    /// Microseconds gathered towards the next logical frame.
    pub frame_time: int,
    /// Obstacles passed in this game.
    pub score: int,
}

impl View for State {
    type V = StateModel;

    closed spec fn view(&self) -> StateModel {
        StateModel {
            player: self.player@,
            obstacle: self.obstacle@,
            mode: self.mode,
            frame_time: self.frame_time as int,
            score: self.score as int,
        }
    }
}

/// What holds of every state that a game can reach.
pub open spec fn valid_state(s: StateModel) -> bool {
    &&& s.player.x == PLAYER_START_X
    &&& 0 <= s.player.y
    &&& s.mode == GameMode::Playing ==> s.player.y <= SCREEN_HEIGHT
    &&& FLAP_VEL <= s.player.velocity <= TERMINAL_VEL
    &&& valid_obstacle(s.obstacle)
    &&& s.obstacle.score == s.score
    &&& 0 < s.obstacle.x <= SCREEN_WIDTH
    &&& s.obstacle.collided ==> s.mode == GameMode::GameOver
    &&& 0 <= s.frame_time <= FRAME_DURATION
}

/// The score after one more obstacle. The counter stops at the largest `u32`.
pub open spec fn next_score(score: int) -> int {
    if score < u32::MAX {
        score + 1
    } else {
        score
    }
}

/// The first state of a game whose first gap is around `gap_y`.
pub open spec fn reset_model(gap_y: int) -> StateModel {
    StateModel {
        player: PlayerModel { x: PLAYER_START_X as int, y: PLAYER_START_Y as int, velocity: 0 },
        obstacle: spawned(SCREEN_WIDTH as int, 0, gap_y),
        mode: GameMode::Playing,
        frame_time: 0,
        score: 0,
    }
}

/// The state before any game: as `reset_model`, but in the menu.
pub open spec fn initial_model(gap_y: int) -> StateModel {
    StateModel { mode: GameMode::Menu, ..reset_model(gap_y) }
}

/// One logical frame of a running game. Gravity acts on the player, the
/// player moves, then the obstacle moves or hits. The game ends where the
/// player is under the screen or was hit. An obstacle that has reached the
/// left edge counts one point and gives way to a new one, made at the new
/// score with its gap around `gap_y`.
pub open spec fn step_model(s: StateModel, gap_y: int) -> StateModel {
    let player = after_frame(s.player);
    let obstacle = after_check(s.obstacle, player);
    let mode = if player.y > SCREEN_HEIGHT || obstacle.collided {
        GameMode::GameOver
    } else {
        s.mode
    };
    if obstacle.x <= 0 {
        let score = next_score(s.score);
        StateModel {
            player,
            obstacle: spawned(SCREEN_WIDTH as int, score, gap_y),
            mode,
            frame_time: 0,
            score,
        }
    } else {
        StateModel { player, obstacle, mode, frame_time: 0, score: s.score }
    }
}

/// The player of `s` flaps where the key is `Flap`.
pub open spec fn with_flap(s: StateModel, key: Option<KeyEvent>) -> StateModel {
    if key == Some(KeyEvent::Flap) {
        StateModel { player: PlayerModel { velocity: FLAP_VEL as int, ..s.player }, ..s }
    } else {
        s
    }
}

/// One tick of a running game: `elapsed` microseconds are gathered, and once
/// more than `FRAME_DURATION` have come together one logical frame is played,
/// however many would fit. A flap acts after that, in the same tick.
pub open spec fn playing_model(
    s: StateModel,
    elapsed: int,
    key: Option<KeyEvent>,
    gap_y: int,
) -> StateModel {
    if s.frame_time + elapsed > FRAME_DURATION {
        with_flap(step_model(s, gap_y), key)
    } else {
        with_flap(StateModel { frame_time: s.frame_time + elapsed, ..s }, key)
    }
}

/// One tick in the menu or after a game: a flap starts a new game, and
/// nothing else changes anything.
pub open spec fn idle_model(s: StateModel, key: Option<KeyEvent>, gap_y: int) -> StateModel {
    if key == Some(KeyEvent::Flap) {
        reset_model(gap_y)
    } else {
        s
    }
}

/// One tick. `gap_y` is the row around which the gap of an obstacle made in
/// this tick lies; where none is made it plays no part.
pub open spec fn tick_model(
    s: StateModel,
    elapsed: int,
    key: Option<KeyEvent>,
    gap_y: int,
) -> StateModel {
    match s.mode {
        GameMode::Playing => playing_model(s, elapsed, key, gap_y),
        _ => idle_model(s, key, gap_y),
    }
}

/// Whether a tick makes an obstacle: in a running game where a logical frame
/// is played and takes the obstacle to the left edge, elsewhere where a flap
/// starts a game.
pub open spec fn makes_obstacle(s: StateModel, elapsed: int, key: Option<KeyEvent>) -> bool {
    match s.mode {
        GameMode::Playing => s.frame_time + elapsed > FRAME_DURATION && after_check(
            s.obstacle,
            after_frame(s.player),
        ).x <= 0,
        _ => key == Some(KeyEvent::Flap),
    }
}

/// What a tick asks of its caller.
pub open spec fn tick_action(s: StateModel, key: Option<KeyEvent>) -> Action {
    match s.mode {
        GameMode::Playing => Action::Continue,
        _ => match key {
            Some(KeyEvent::Flap) => Action::Restart,
            Some(KeyEvent::Quit) => Action::Quit,
            None => Action::Continue,
        },
    }
}

/// The state after `ticks` ticks with the same time, key and gap row in each.
pub open spec fn after_ticks(
    s: StateModel,
    elapsed: int,
    key: Option<KeyEvent>,
    gap_y: int,
    ticks: nat,
) -> StateModel
    decreases ticks,
{
    if ticks == 0 {
        s
    } else {
        tick_model(after_ticks(s, elapsed, key, gap_y, (ticks - 1) as nat), elapsed, key, gap_y)
    }
}

/// The state before any game and the first state of every game are states
/// that a game can reach.
pub proof fn start_is_valid(gap_y: int)
    requires
        valid_gap_center(gap_y),
    ensures
        valid_state(initial_model(gap_y)),
        valid_state(reset_model(gap_y)),
{
}

/// A tick takes a state that a game can reach to another one. So in every
/// state the player is not above the top of the screen and falls no faster
/// than terminal velocity, the gap is at least `MIN_GAP` high, and a running
/// game has its player on screen.
pub proof fn tick_keeps_valid(s: StateModel, elapsed: int, key: Option<KeyEvent>, gap_y: int)
    requires
        valid_state(s),
        0 <= elapsed,
        valid_gap_center(gap_y),
    ensures
        valid_state(tick_model(s, elapsed, key, gap_y)),
{
}

/// A tick in which an obstacle is made gives that obstacle the gap row, and
/// a tick in which none is made does not depend on the gap row.
pub proof fn gap_row_goes_to_new_obstacle(
    s: StateModel,
    elapsed: int,
    key: Option<KeyEvent>,
    gap_y: int,
    other_gap_y: int,
)
    ensures
        makes_obstacle(s, elapsed, key) ==> tick_model(s, elapsed, key, gap_y).obstacle == spawned(
            SCREEN_WIDTH as int,
            tick_model(s, elapsed, key, gap_y).score,
            gap_y,
        ),
        !makes_obstacle(s, elapsed, key) ==> tick_model(s, elapsed, key, gap_y) == tick_model(
            s,
            elapsed,
            key,
            other_gap_y,
        ),
{
}

/// In a running game, a logical frame in which the obstacle reaches the left
/// edge without hitting the player counts one point, and the next obstacle
/// starts at the right edge with the gap that the new score gives.
pub proof fn passed_obstacle_scores(s: StateModel, elapsed: int, key: Option<KeyEvent>, gap_y: int)
    requires
        valid_state(s),
        s.mode == GameMode::Playing,
        s.frame_time + elapsed > FRAME_DURATION,
        after_check(s.obstacle, after_frame(s.player)).x <= 0,
    ensures
        tick_model(s, elapsed, key, gap_y).score == next_score(s.score),
        tick_model(s, elapsed, key, gap_y).obstacle == spawned(
            SCREEN_WIDTH as int,
            next_score(s.score),
            gap_y,
        ),
        tick_model(s, elapsed, key, gap_y).obstacle.size == gap_size_for(next_score(s.score)),
        !hits(s.obstacle, after_frame(s.player)),
{
}

/// In a running game, a logical frame that takes the player under the bottom
/// of the screen ends the game in that same tick.
pub proof fn falling_out_ends_game(s: StateModel, elapsed: int, key: Option<KeyEvent>, gap_y: int)
    requires
        s.mode == GameMode::Playing,
        s.frame_time + elapsed > FRAME_DURATION,
        after_frame(s.player).y > SCREEN_HEIGHT,
    ensures
        tick_model(s, elapsed, key, gap_y).mode == GameMode::GameOver,
{
}

/// In a running game, a logical frame in which the obstacle hits the player
/// ends the game in that same tick.
pub proof fn collision_ends_game(s: StateModel, elapsed: int, key: Option<KeyEvent>, gap_y: int)
    requires
        valid_state(s),
        s.mode == GameMode::Playing,
        s.frame_time + elapsed > FRAME_DURATION,
        hits(s.obstacle, after_frame(s.player)),
    ensures
        tick_model(s, elapsed, key, gap_y).mode == GameMode::GameOver,
        tick_model(s, elapsed, key, gap_y).obstacle == (ObstacleModel {
            collided: true,
            ..s.obstacle
        }),
        tick_model(s, elapsed, key, gap_y).score == s.score,
{
}

/// In a running game a tick plays no logical frame until more than
/// `FRAME_DURATION` microseconds have come together, and never more than one.
pub proof fn frame_takes_its_time(s: StateModel, elapsed: int, gap_y: int)
    requires
        s.mode == GameMode::Playing,
        0 <= elapsed,
    ensures
        s.frame_time + elapsed <= FRAME_DURATION ==> tick_model(s, elapsed, None, gap_y) == (
        StateModel { frame_time: s.frame_time + elapsed, ..s }),
        s.frame_time + elapsed > FRAME_DURATION ==> tick_model(s, elapsed, None, gap_y)
            == step_model(s, gap_y),
{
}

/// A flap in the menu or after a game starts a new game: it is running, the
/// score is 0, the player is at rest at its starting place, and the obstacle
/// is new, made at score 0 at the right edge.
pub proof fn flap_starts_game(s: StateModel, elapsed: int, gap_y: int)
    requires
        s.mode != GameMode::Playing,
    ensures
        tick_action(s, Some(KeyEvent::Flap)) == Action::Restart,
        tick_model(s, elapsed, Some(KeyEvent::Flap), gap_y) == reset_model(gap_y),
        reset_model(gap_y).mode == GameMode::Playing,
        reset_model(gap_y).score == 0,
        reset_model(gap_y).frame_time == 0,
        reset_model(gap_y).player == (PlayerModel {
            x: PLAYER_START_X as int,
            y: PLAYER_START_Y as int,
            velocity: 0,
        }),
        reset_model(gap_y).obstacle == spawned(SCREEN_WIDTH as int, 0, gap_y),
        reset_model(gap_y).obstacle.score == 0,
{
}

/// In the menu and after a game, a tick without a flap changes nothing.
pub proof fn idle_without_flap(s: StateModel, elapsed: int, key: Option<KeyEvent>, gap_y: int)
    requires
        s.mode != GameMode::Playing,
        key != Some(KeyEvent::Flap),
    ensures
        tick_model(s, elapsed, key, gap_y) == s,
{
}

/// In the menu and after a game, `Quit` asks for the end of the program and
/// changes nothing, however often it comes.
pub proof fn quit_changes_nothing(s: StateModel, elapsed: int, gap_y: int, ticks: nat)
    requires
        s.mode != GameMode::Playing,
    ensures
        after_ticks(s, elapsed, Some(KeyEvent::Quit), gap_y, ticks) == s,
        tick_action(after_ticks(s, elapsed, Some(KeyEvent::Quit), gap_y, ticks), Some(KeyEvent::Quit))
            == Action::Quit,
    decreases ticks,
{
    if ticks > 0 {
        quit_changes_nothing(s, elapsed, gap_y, (ticks - 1) as nat);
    }
}

/// In a running game no key ends the program or starts a new game.
pub proof fn running_game_continues(s: StateModel, key: Option<KeyEvent>)
    requires
        s.mode == GameMode::Playing,
    ensures
        tick_action(s, key) == Action::Continue,
{
}

impl State {
    /// The state is one that a game can reach.
    pub open spec fn wf(&self) -> bool {
        valid_state(self@)
    }

    /// The state before any game, in the menu.
    pub fn new() -> (state: State)
        ensures
            state@ == initial_model(state@.obstacle.gap_y),
            state.wf(),
    {
        State {
            mode: GameMode::Menu,
            frame_time: 0,
            obstacle: Obstacle::new(SCREEN_WIDTH, 0),
            player: Player::new(PLAYER_START_X, PLAYER_START_Y),
            score: 0,
        }
    }

    /// The player.
    pub fn player(&self) -> (player: &Player)
        ensures
            player@ == self@.player,
    {
        &self.player
    }

    /// The obstacle on screen.
    pub fn obstacle(&self) -> (obstacle: &Obstacle)
        ensures
            obstacle@ == self@.obstacle,
    {
        &self.obstacle
    }

    /// The mode.
    pub fn mode(&self) -> (mode: GameMode)
        ensures
            mode == self@.mode,
    {
        self.mode
    }

    /// Microseconds gathered towards the next logical frame.
    pub fn frame_time(&self) -> (frame_time: u64)
        ensures
            frame_time == self@.frame_time,
    {
        self.frame_time
    }

    /// Obstacles passed in this game.
    pub fn score(&self) -> (score: u32)
        ensures
            score == self@.score,
    {
        self.score
    }

    /// Starts a new game. The gap of its first obstacle lies around
    /// `gap_center`, or around a row drawn at random where none is given.
    fn reset(&mut self, gap_center: Option<i64>)
        requires
            gap_center matches Some(g) ==> valid_gap_center(g as int),
        ensures
            final(self)@ == reset_model(final(self)@.obstacle.gap_y),
            gap_center matches Some(g) ==> final(self)@ == reset_model(g as int),
            final(self).wf(),
    {
        self.player = Player::new(PLAYER_START_X, PLAYER_START_Y);
        self.obstacle = Obstacle::spawn(SCREEN_WIDTH, 0, gap_center);
        self.frame_time = 0;
        self.score = 0;
        self.mode = GameMode::Playing;
    }

    /// One tick in the menu.
    fn main_menu_loop(&mut self, key: Option<KeyEvent>, gap_center: Option<i64>) -> (action:
        Action)
        requires
            old(self).wf(),
            old(self)@.mode == GameMode::Menu,
            gap_center matches Some(g) ==> valid_gap_center(g as int),
        ensures
            final(self)@ == idle_model(old(self)@, key, final(self)@.obstacle.gap_y),
            gap_center matches Some(g) ==> final(self)@ == idle_model(old(self)@, key, g as int),
            action == tick_action(old(self)@, key),
            final(self).wf(),
    {
        match key {
            Some(KeyEvent::Flap) => {
                self.reset(gap_center);
                Action::Restart
            },
            Some(KeyEvent::Quit) => Action::Quit,
            None => Action::Continue,
        }
    }

    /// One tick of a running game.
    fn playing_loop(&mut self, elapsed: u64, key: Option<KeyEvent>, gap_center: Option<i64>)
        requires
            old(self).wf(),
            old(self)@.mode == GameMode::Playing,
            gap_center matches Some(g) ==> valid_gap_center(g as int),
        ensures
            final(self)@ == playing_model(
                old(self)@,
                elapsed as int,
                key,
                final(self)@.obstacle.gap_y,
            ),
            gap_center matches Some(g) ==> final(self)@ == playing_model(
                old(self)@,
                elapsed as int,
                key,
                g as int,
            ),
            final(self).wf(),
    {
        if elapsed > FRAME_DURATION - self.frame_time {
            self.player.apply_gravity();
            self.player.move_velocity();
            self.obstacle.check_collision_and_move(&self.player);

            if self.player.y() > SCREEN_HEIGHT || self.obstacle.collided() {
                self.mode = GameMode::GameOver;
            }
            if self.obstacle.x() <= 0 {
                if self.score < u32::MAX {
                    self.score = self.score + 1;
                }
                self.obstacle = Obstacle::spawn(SCREEN_WIDTH, self.score, gap_center);
            }
            self.frame_time = 0;
        } else {
            self.frame_time = self.frame_time + elapsed;
        }

        match key {
            Some(KeyEvent::Flap) => {
                self.player.apply_flap();
            },
            _ => {},
        }
    }

    /// One tick after a game.
    fn game_over_loop(&mut self, key: Option<KeyEvent>, gap_center: Option<i64>) -> (action:
        Action)
        requires
            old(self).wf(),
            old(self)@.mode == GameMode::GameOver,
            gap_center matches Some(g) ==> valid_gap_center(g as int),
        ensures
            final(self)@ == idle_model(old(self)@, key, final(self)@.obstacle.gap_y),
            gap_center matches Some(g) ==> final(self)@ == idle_model(old(self)@, key, g as int),
            action == tick_action(old(self)@, key),
            final(self).wf(),
    {
        match key {
            Some(KeyEvent::Flap) => {
                self.reset(gap_center);
                Action::Restart
            },
            Some(KeyEvent::Quit) => Action::Quit,
            None => Action::Continue,
        }
    }

    /// One tick in whatever mode the game is in.
    fn run_tick(&mut self, elapsed: u64, key: Option<KeyEvent>, gap_center: Option<i64>) -> (action:
        Action)
        requires
            old(self).wf(),
            gap_center matches Some(g) ==> valid_gap_center(g as int),
        ensures
            final(self)@ == tick_model(
                old(self)@,
                elapsed as int,
                key,
                final(self)@.obstacle.gap_y,
            ),
            gap_center matches Some(g) ==> final(self)@ == tick_model(
                old(self)@,
                elapsed as int,
                key,
                g as int,
            ),
            action == tick_action(old(self)@, key),
            final(self).wf(),
    {
        match self.mode {
            GameMode::Menu => self.main_menu_loop(key, gap_center),
            GameMode::Playing => {
                self.playing_loop(elapsed, key, gap_center);
                Action::Continue
            },
            GameMode::GameOver => self.game_over_loop(key, gap_center),
        }
    }

    /// One tick: `elapsed` microseconds have passed since the last one, and
    /// `key` was pressed in between. An obstacle made in this tick has its gap
    /// around a row drawn at random, which is the one thing left open: the new
    /// state is that of `tick_model` for the row that its obstacle has.
    pub fn tick(&mut self, elapsed: u64, key: Option<KeyEvent>) -> (action: Action)
        requires
            old(self).wf(),
        ensures
            final(self)@ == tick_model(
                old(self)@,
                elapsed as int,
                key,
                final(self)@.obstacle.gap_y,
            ),
            action == tick_action(old(self)@, key),
            final(self).wf(),
    {
        self.run_tick(elapsed, key, None)
    }

    /// One tick in which an obstacle, if one is made, has its gap around row
    /// `gap_center`.
    pub fn tick_with_gap(&mut self, elapsed: u64, key: Option<KeyEvent>, gap_center: i64) -> (action:
        Action)
        requires
            old(self).wf(),
            valid_gap_center(gap_center as int),
        ensures
            final(self)@ == tick_model(old(self)@, elapsed as int, key, gap_center as int),
            action == tick_action(old(self)@, key),
            final(self).wf(),
    {
        self.run_tick(elapsed, key, Some(gap_center))
    }
}

} // verus!
