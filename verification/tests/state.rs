use flappy::obstacle::Obstacle;
use flappy::player::Player;
use flappy::state::{Action, GameMode, KeyEvent, State};
use flappy::units::{FRAME_DURATION, SCREEN_HEIGHT, SCREEN_WIDTH};

/// More than one logical frame's worth of microseconds.
const FRAME: u64 = 20001;

/// A game that has just started, with the first gap around `gap_center`.
fn started(gap_center: i64) -> State {
    let mut state = State::new();
    assert_eq!(state.tick_with_gap(0, Some(KeyEvent::Flap), gap_center), Action::Restart);
    state
}

/// Plays `frames` logical frames, with a flap in frame `first_flap` and in
/// every 19th frame after it.
fn fly(state: &mut State, frames: u32, first_flap: u32, gap_center: i64) {
    for frame in 0..frames {
        let key = if frame >= first_flap && (frame - first_flap) % 19 == 0 {
            Some(KeyEvent::Flap)
        } else {
            None
        };
        assert_eq!(state.tick_with_gap(FRAME, key, gap_center), Action::Continue);
    }
}

#[test]
fn screen_constants() {
    assert_eq!(SCREEN_WIDTH, 8000);
    assert_eq!(SCREEN_HEIGHT, 5000);
    assert_eq!(FRAME_DURATION, 20000);
}

#[test]
fn new_state_waits_in_menu() {
    let state = State::new();
    assert_eq!(state.mode(), GameMode::Menu);
    assert_eq!(state.score(), 0);
    assert_eq!(state.frame_time(), 0);
    assert_eq!(*state.player(), Player::new(500, 2500));
    assert_eq!(state.obstacle().x(), 8000);
    assert_eq!(state.obstacle().score(), 0);
    assert_eq!(state.obstacle().size(), 2000);
    assert!(!state.obstacle().collided());
    assert!(state.obstacle().gap_center() >= 1000 && state.obstacle().gap_center() < 4000);
}

#[test]
fn flap_in_menu_starts_game() {
    let mut state = State::new();
    let action = state.tick_with_gap(12345, Some(KeyEvent::Flap), 3141);
    assert_eq!(action, Action::Restart);
    assert_eq!(state.mode(), GameMode::Playing);
    assert_eq!(state.score(), 0);
    assert_eq!(state.frame_time(), 0);
    assert_eq!(*state.player(), Player::new(500, 2500));
    assert_eq!(*state.obstacle(), Obstacle::with_gap(8000, 0, 3141));
}

#[test]
fn flap_in_menu_with_random_gap_starts_game() {
    let mut state = State::new();
    let action = state.tick(0, Some(KeyEvent::Flap));
    assert_eq!(action, Action::Restart);
    assert_eq!(state.mode(), GameMode::Playing);
    assert_eq!(state.score(), 0);
    assert_eq!(*state.player(), Player::new(500, 2500));
    let gap_center = state.obstacle().gap_center();
    assert!(gap_center >= 1000 && gap_center < 4000);
    assert_eq!(*state.obstacle(), Obstacle::with_gap(8000, 0, gap_center));
}

#[test]
fn no_key_in_menu_changes_nothing() {
    let mut state = State::new();
    let before = state;
    for elapsed in [0, 1, 20000, 20001, u64::MAX] {
        assert_eq!(state.tick(elapsed, None), Action::Continue);
        assert_eq!(state, before);
    }
}

#[test]
fn quit_in_menu_asks_for_the_end_every_time() {
    let mut state = State::new();
    let before = state;
    for _ in 0..10 {
        assert_eq!(state.tick(FRAME, Some(KeyEvent::Quit)), Action::Quit);
        assert_eq!(state, before);
    }
    assert_eq!(state.mode(), GameMode::Menu);
}

#[test]
fn quit_after_game_over_asks_for_the_end_every_time() {
    let mut state = started(2500);
    fly(&mut state, 18, 1000, 2500);
    assert_eq!(state.mode(), GameMode::GameOver);
    let before = state;
    for _ in 0..10 {
        assert_eq!(state.tick_with_gap(FRAME, Some(KeyEvent::Quit), 2000), Action::Quit);
        assert_eq!(state, before);
    }
}

#[test]
fn quit_key_is_ignored_while_playing() {
    let mut state = started(2500);
    let mut other = state;
    assert_eq!(state.tick_with_gap(FRAME, Some(KeyEvent::Quit), 2500), Action::Continue);
    assert_eq!(other.tick_with_gap(FRAME, None, 2500), Action::Continue);
    assert_eq!(state, other);
    assert_eq!(state.mode(), GameMode::Playing);
}

#[test]
fn first_frame_of_a_game() {
    let mut state = started(2500);
    state.tick_with_gap(FRAME, None, 2500);
    assert_eq!(state.player().velocity(), 20);
    assert_eq!(state.player().y(), 2520);
    assert_eq!(state.player().x(), 500);
    assert_eq!(state.obstacle().x(), 7900);
    assert_eq!(state.frame_time(), 0);
    assert_eq!(state.score(), 0);
    assert_eq!(state.mode(), GameMode::Playing);
}

#[test]
fn frame_waits_until_more_than_its_duration_has_passed() {
    let mut state = started(2500);
    let fresh = state;
    state.tick_with_gap(20000, None, 2500);
    assert_eq!(state.frame_time(), 20000);
    assert_eq!(state.player(), fresh.player());
    assert_eq!(state.obstacle(), fresh.obstacle());
    state.tick_with_gap(0, None, 2500);
    assert_eq!(state.frame_time(), 20000);
    assert_eq!(state.player(), fresh.player());
    state.tick_with_gap(1, None, 2500);
    assert_eq!(state.frame_time(), 0);
    assert_eq!(state.player().y(), 2520);
    assert_eq!(state.obstacle().x(), 7900);
}

#[test]
fn short_ticks_add_up_to_a_frame() {
    let mut state = started(2500);
    for tick in 1..=4 {
        state.tick_with_gap(5000, None, 2500);
        assert_eq!(state.frame_time(), 5000 * tick);
        assert_eq!(state.player().y(), 2500);
    }
    state.tick_with_gap(5000, None, 2500);
    assert_eq!(state.frame_time(), 0);
    assert_eq!(state.player().y(), 2520);
    assert_eq!(state.player().velocity(), 20);
}

#[test]
fn long_pause_plays_one_frame_only() {
    let mut state = started(2500);
    state.tick_with_gap(1_000_000, None, 2500);
    assert_eq!(state.player().y(), 2520);
    assert_eq!(state.obstacle().x(), 7900);
    assert_eq!(state.frame_time(), 0);
    state.tick_with_gap(u64::MAX, None, 2500);
    assert_eq!(state.player().y(), 2560);
    assert_eq!(state.obstacle().x(), 7800);
    assert_eq!(state.frame_time(), 0);
}

#[test]
fn flap_acts_at_once_without_a_frame() {
    let mut state = started(2500);
    state.tick_with_gap(0, Some(KeyEvent::Flap), 2500);
    assert_eq!(state.player().velocity(), -200);
    assert_eq!(state.player().y(), 2500);
    assert_eq!(state.obstacle().x(), 8000);
    assert_eq!(state.frame_time(), 0);
}

#[test]
fn flap_in_a_frame_acts_after_the_move() {
    let mut state = started(2500);
    state.tick_with_gap(FRAME, Some(KeyEvent::Flap), 2500);
    assert_eq!(state.player().y(), 2520);
    assert_eq!(state.player().velocity(), -200);
    state.tick_with_gap(FRAME, None, 2500);
    assert_eq!(state.player().velocity(), -180);
    assert_eq!(state.player().y(), 2340);
}

#[test]
fn top_of_screen_stops_player_but_not_its_velocity() {
    let mut state = started(3000);
    for _ in 0..13 {
        state.tick_with_gap(FRAME, Some(KeyEvent::Flap), 3000);
    }
    assert_eq!(state.player().y(), 360);
    state.tick_with_gap(FRAME, Some(KeyEvent::Flap), 3000);
    assert_eq!(state.player().y(), 180);
    state.tick_with_gap(FRAME, None, 3000);
    assert_eq!(state.player().y(), 0);
    assert_eq!(state.player().velocity(), -180);
    state.tick_with_gap(FRAME, None, 3000);
    assert_eq!(state.player().y(), 0);
    assert_eq!(state.player().velocity(), -160);
    assert_eq!(state.mode(), GameMode::Playing);
    assert_eq!(state.obstacle().x(), 6400);
}

#[test]
fn free_fall_ends_the_game_under_the_screen() {
    let mut state = started(2500);
    fly(&mut state, 17, 1000, 2500);
    assert_eq!(state.player().y(), 5000);
    assert_eq!(state.mode(), GameMode::Playing);
    state.tick_with_gap(FRAME, None, 2500);
    assert_eq!(state.player().y(), 5200);
    assert_eq!(state.player().velocity(), 200);
    assert_eq!(state.mode(), GameMode::GameOver);
    assert_eq!(state.obstacle().x(), 6200);
    assert!(!state.obstacle().collided());
    assert_eq!(state.score(), 0);
}

#[test]
fn falling_from_row_49_ends_the_game_in_that_tick() {
    let mut state = started(2500);
    for frame in 0..34 {
        let key = if frame == 3 { Some(KeyEvent::Flap) } else { None };
        state.tick_with_gap(FRAME, key, 2500);
    }
    assert_eq!(state.player().y(), 4900);
    assert_eq!(state.player().velocity(), 200);
    assert_eq!(state.mode(), GameMode::Playing);
    assert_eq!(state.tick_with_gap(FRAME, None, 2500), Action::Continue);
    assert_eq!(state.player().y(), 5100);
    assert_eq!(state.mode(), GameMode::GameOver);
}

#[test]
fn passed_obstacle_scores_and_next_one_comes() {
    let mut state = started(2500);
    fly(&mut state, 79, 3, 2500);
    assert_eq!(state.mode(), GameMode::Playing);
    assert_eq!(state.score(), 0);
    assert_eq!(state.obstacle().x(), 100);
    assert!(!state.obstacle().collided());
    assert_eq!(state.player().y(), 2520);
    assert_eq!(state.tick_with_gap(FRAME, Some(KeyEvent::Flap), 1079), Action::Continue);
    assert_eq!(state.mode(), GameMode::Playing);
    assert_eq!(state.score(), 1);
    assert_eq!(*state.obstacle(), Obstacle::with_gap(8000, 1, 1079));
    assert_eq!(state.obstacle().x(), 8000);
    assert_eq!(state.obstacle().size(), 1900);
    assert_eq!(state.obstacle().score(), 1);
    assert_eq!(state.player().y(), 2700);
    assert_eq!(state.player().velocity(), -200);
}

#[test]
fn next_obstacle_is_faster() {
    let mut state = started(2500);
    fly(&mut state, 80, 3, 2500);
    assert_eq!(state.score(), 1);
    assert_eq!(state.obstacle().vel(), -125);
    state.tick_with_gap(FRAME, None, 1234);
    assert_eq!(state.obstacle().x(), 7875);
    assert_eq!(state.obstacle().gap_center(), 2500);
    assert_eq!(state.player().y(), 2520);
    assert_eq!(state.player().velocity(), -180);
}

#[test]
fn next_obstacle_with_random_gap() {
    let mut state = started(2500);
    fly(&mut state, 79, 3, 2500);
    assert_eq!(state.tick(FRAME, Some(KeyEvent::Flap)), Action::Continue);
    assert_eq!(state.score(), 1);
    let gap_center = state.obstacle().gap_center();
    assert!(gap_center >= 1000 && gap_center < 4000);
    assert_eq!(*state.obstacle(), Obstacle::with_gap(8000, 1, gap_center));
}

#[test]
fn hitting_the_wall_ends_the_game_and_stops_the_obstacle() {
    let mut state = started(2500);
    fly(&mut state, 74, 13, 2500);
    assert_eq!(state.mode(), GameMode::Playing);
    assert_eq!(state.obstacle().x(), 600);
    state.tick_with_gap(FRAME, None, 2500);
    assert_eq!(state.mode(), GameMode::GameOver);
    assert!(state.obstacle().collided());
    assert_eq!(state.obstacle().x(), 600);
    assert_eq!(state.player().y(), 3800);
    assert_eq!(state.player().velocity(), -120);
    assert_eq!(state.score(), 0);
}

#[test]
fn ended_game_stands_still() {
    let mut state = started(2500);
    fly(&mut state, 18, 1000, 2500);
    assert_eq!(state.mode(), GameMode::GameOver);
    let before = state;
    for elapsed in [0, 1, FRAME, u64::MAX] {
        assert_eq!(state.tick_with_gap(elapsed, None, 2500), Action::Continue);
        assert_eq!(state, before);
    }
}

#[test]
fn flap_after_game_over_starts_a_new_game() {
    let mut state = started(2500);
    fly(&mut state, 80, 3, 2500);
    assert_eq!(state.score(), 1);
    let mut frames = 0;
    while state.mode() == GameMode::Playing {
        state.tick_with_gap(FRAME, None, 1234);
        frames += 1;
    }
    assert_eq!(frames, 31);
    assert_eq!(state.mode(), GameMode::GameOver);
    assert_eq!(state.player().y(), 5100);
    assert_eq!(state.obstacle().x(), 4125);
    assert_eq!(state.score(), 1);
    assert_eq!(state.tick_with_gap(5, Some(KeyEvent::Flap), 3999), Action::Restart);
    assert_eq!(state.mode(), GameMode::Playing);
    assert_eq!(state.score(), 0);
    assert_eq!(state.frame_time(), 0);
    assert_eq!(*state.player(), Player::new(500, 2500));
    assert_eq!(*state.obstacle(), Obstacle::with_gap(8000, 0, 3999));
}

#[test]
fn restart_forgets_gathered_time() {
    let mut state = started(2500);
    state.tick_with_gap(15000, None, 2500);
    assert_eq!(state.frame_time(), 15000);
    fly(&mut state, 18, 1000, 2500);
    assert_eq!(state.mode(), GameMode::GameOver);
    state.tick_with_gap(0, Some(KeyEvent::Flap), 2500);
    assert_eq!(state.frame_time(), 0);
    state.tick_with_gap(15000, None, 2500);
    assert_eq!(state.frame_time(), 15000);
    assert_eq!(state.player().y(), 2500);
}

#[test]
fn player_stays_on_screen_and_under_terminal_velocity() {
    let mut state = started(2000);
    for frame in 0..2000u32 {
        let key = if frame % 7 == 0 || frame % 11 == 0 { Some(KeyEvent::Flap) } else { None };
        state.tick(FRAME, key);
        assert!(state.player().y() >= 0);
        assert!(state.player().velocity() <= 200);
        assert!(state.player().velocity() >= -200);
        assert_eq!(state.player().x(), 500);
        assert!(state.obstacle().size() >= 200);
        assert!(state.obstacle().x() > 0 && state.obstacle().x() <= 8000);
        assert_eq!(state.obstacle().score(), state.score());
        assert!(state.frame_time() <= 20000);
        if state.mode() == GameMode::Playing {
            assert!(state.player().y() <= 5000);
            assert!(!state.obstacle().collided());
        } else {
            state.tick(0, Some(KeyEvent::Flap));
        }
    }
}
