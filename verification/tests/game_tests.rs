use flappy_core::bird::{BIRD_START_Y, JUMP_SPEED};
use flappy_core::game::{Game, GameState, InputEvent, RESTART_COOLDOWN, RING_CAPACITY};
use flappy_core::pipe::{FIRST_PIPE_X, PIPE_DISTANCE};
use flappy_core::SCREEN_HEIGHT;

#[test]
fn a_new_game_waits_in_starting() {
    let g = Game::new(14);
    assert_eq!(g.state, GameState::Starting);
    assert_eq!(g.bird.y, BIRD_START_Y);
    assert_eq!(g.pipes.len(), RING_CAPACITY);
}

#[test]
fn nothing_moves_while_starting() {
    let mut g = Game::new(14);
    g.update(1000);
    g.update(1000);
    assert_eq!(g.state, GameState::Starting);
    assert_eq!(g.bird.y, BIRD_START_Y);
    assert_eq!(g.bird.vel, 0);
    assert_eq!(g.pipes.pipes[0].up.x, FIRST_PIPE_X);
}

#[test]
fn primary_action_starts_the_round() {
    let mut g = Game::new(14);
    let quit = g.handle_input(InputEvent::PrimaryAction);
    assert!(!quit);
    assert_eq!(g.state, GameState::Running);
}

#[test]
fn primary_action_while_running_jumps() {
    let mut g = Game::new(14);
    g.handle_input(InputEvent::PrimaryAction);
    g.handle_input(InputEvent::PrimaryAction);
    assert_eq!(g.state, GameState::Running);
    assert_eq!(g.bird.vel, JUMP_SPEED);
}

#[test]
fn quit_asks_to_terminate_and_changes_nothing() {
    let mut g = Game::new(14);
    let quit = g.handle_input(InputEvent::Quit);
    assert!(quit);
    assert_eq!(g.state, GameState::Starting);
    assert_eq!(g.bird.y, BIRD_START_Y);
}

#[test]
fn running_updates_advance_bird_and_pipes_together() {
    let mut g = Game::new(14);
    g.handle_input(InputEvent::PrimaryAction);
    g.update(100);
    // bird fell: velocity decayed below zero, position moved by old velocity (0)
    assert_eq!(g.bird.y, BIRD_START_Y);
    assert_eq!(g.bird.vel, -2_100);
    assert_eq!(g.pipes.pipes[0].up.x, FIRST_PIPE_X - 300_000);
    assert_eq!(g.state, GameState::Running);
}

#[test]
fn leaving_the_screen_ends_the_round_in_the_same_frame() {
    let mut g = Game::new(14);
    g.handle_input(InputEvent::PrimaryAction);
    g.bird.y = SCREEN_HEIGHT + 1;
    g.update(1);
    assert_eq!(g.state, GameState::GameOver { cooldown: RESTART_COOLDOWN });
}

#[test]
fn game_over_freezes_physics_and_counts_the_cooldown_down() {
    let mut g = Game::new(14);
    g.handle_input(InputEvent::PrimaryAction);
    g.bird.y = SCREEN_HEIGHT + 1;
    g.update(1);
    let bird_y = g.bird.y;
    let pipe_x = g.pipes.pipes[0].up.x;
    g.update(400);
    assert_eq!(g.state, GameState::GameOver { cooldown: RESTART_COOLDOWN - 400 });
    assert_eq!(g.bird.y, bird_y);
    assert_eq!(g.pipes.pipes[0].up.x, pipe_x);
    g.update(10_000);
    assert_eq!(g.state, GameState::GameOver { cooldown: 0 });
    assert_eq!(g.pipes.pipes[0].up.x, pipe_x);
}

#[test]
fn restart_is_ignored_while_the_cooldown_runs() {
    let mut g = Game::new(14);
    g.handle_input(InputEvent::PrimaryAction);
    g.bird.y = SCREEN_HEIGHT + 1;
    g.update(1);
    assert_eq!(g.state, GameState::GameOver { cooldown: RESTART_COOLDOWN });
    g.handle_input(InputEvent::PrimaryAction);
    assert_eq!(g.state, GameState::GameOver { cooldown: RESTART_COOLDOWN });
}

#[test]
fn restart_after_the_cooldown_rebuilds_bird_and_ring() {
    let mut g = Game::new(14);
    g.handle_input(InputEvent::PrimaryAction);
    for _ in 0..600u32 {
        g.update(20);
    }
    g.bird.y = SCREEN_HEIGHT + 1;
    g.update(1);
    assert!(matches!(g.state, GameState::GameOver { .. }));
    g.update(RESTART_COOLDOWN);
    g.handle_input(InputEvent::PrimaryAction);
    assert_eq!(g.state, GameState::Running);
    assert_eq!(g.bird.y, BIRD_START_Y);
    assert_eq!(g.bird.vel, 0);
    assert_eq!(g.pipes.head, 0);
    for j in 0..RING_CAPACITY {
        assert_eq!(g.pipes.pipes[j].up.x, FIRST_PIPE_X + (j as i64) * PIPE_DISTANCE);
    }
}

#[test]
fn identical_seeds_inputs_and_frame_times_replay_identically() {
    let mut a = Game::new(20260101);
    let mut b = Game::new(20260101);
    a.handle_input(InputEvent::PrimaryAction);
    b.handle_input(InputEvent::PrimaryAction);
    for step in 0..2000u64 {
        if step % 37 == 0 {
            a.handle_input(InputEvent::PrimaryAction);
            b.handle_input(InputEvent::PrimaryAction);
        }
        let dt = 16 + step % 5;
        a.update(dt);
        b.update(dt);
        assert_eq!(a, b);
    }
}

#[test]
fn explicit_jump_and_restart_entry_points() {
    let mut g = Game::new(77);
    g.jump();
    assert_eq!(g.bird.vel, JUMP_SPEED);
    g.restart();
    assert_eq!(g.state, GameState::Running);
    assert_eq!(g.bird.y, BIRD_START_Y);
    assert_eq!(g.bird.vel, 0);
    assert!(g.is_not_colliding());
}
