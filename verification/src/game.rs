//! The game state machine: it sequences the bird and the pipe ring, gates
//! whether per-frame physics runs at all, and handles the discrete primary
//! action. Transitions return a whole new tagged state value each frame;
//! nothing is mutated through pattern-matched references.
use vstd::prelude::*;

use crate::bird::{
    bird_jumped, bird_on_screen, bird_rect, bird_spawned, bird_stepped, bird_wf, Bird, BirdV,
};
use crate::pipe::{pipes_collide, pipes_respawned_all, pipes_stepped, pipes_wf, Pipes, PipesV};
use crate::rng::seeded_rng;
use crate::DT_MAX;

verus! {

/// Milliseconds the game-over screen ignores the primary action before a
/// restart is accepted.
pub const RESTART_COOLDOWN: u64 = 1_000;

/// How many pairs the ring holds: enough that, with the pipe width,
/// inter-pipe distance and screen width fixed here, at least one pair is
/// always on screen or approaching.
pub const RING_CAPACITY: usize = 4;

/// The phase of a round. `Starting` is only ever the initial state; a
/// restart leads straight back to `Running`.
#[derive(Clone, Copy, Debug, PartialEq, Eq, Structural)]
pub enum GameState {
    Starting,
    Running,
    GameOver { cooldown: u64 },
}

/// A discrete, already-debounced input event, delivered at most once per
/// physical key press.
#[derive(Clone, Copy, Debug, PartialEq, Eq, Structural)]
pub enum InputEvent {
    PrimaryAction,
    Quit,
}

/// Mathematical state of a game.
pub ghost struct GameV {
    pub state: GameState,
    pub bird: BirdV,
    pub pipes: PipesV,
}

/// The whole game: phase, bird and pipe ring, exclusively owned and mutated
/// only by the per-frame tick and the discrete input handler.
#[derive(Debug, PartialEq, Eq)]
pub struct Game {
    pub state: GameState,
    pub bird: Bird,
    pub pipes: Pipes,
}

impl View for Game {
    type V = GameV;

    open spec fn view(&self) -> GameV {
        GameV { state: self.state, bird: self.bird@, pipes: self.pipes@ }
    }
}

/// Both subsystems are well formed.
pub open spec fn game_wf(g: GameV) -> bool {
    &&& bird_wf(g.bird)
    &&& pipes_wf(g.pipes)
}

/// The bird is fully on screen and clear of every pipe.
pub open spec fn game_alive(g: GameV) -> bool {
    bird_on_screen(g.bird) && !pipes_collide(g.pipes, bird_rect(g.bird))
}

/// One frame of the game. In `Running`, both subsystems advance and the
/// survival condition is evaluated in the same frame: a violation moves to
/// `GameOver` immediately, with the restart cooldown armed. In `GameOver`
/// physics is frozen and only the cooldown counts down. In `Starting`
/// nothing moves.
pub open spec fn game_stepped(g: GameV, dt: int) -> GameV {
    match g.state {
        GameState::Starting => g,
        GameState::Running => {
            let g2 = GameV {
                state: GameState::Running,
                bird: bird_stepped(g.bird, dt),
                pipes: pipes_stepped(g.pipes, dt),
            };
            if game_alive(g2) {
                g2
            } else {
                GameV { state: GameState::GameOver { cooldown: RESTART_COOLDOWN }, ..g2 }
            }
        },
        GameState::GameOver { cooldown } => GameV {
            state: GameState::GameOver {
                cooldown: if dt <= cooldown {
                    (cooldown - dt) as u64
                } else {
                    0
                },
            },
            ..g
        },
    }
}

/// A restart: a fresh bird at the spawn point and every pair respawned from
/// the ring's current generator stream, then straight into `Running`.
pub open spec fn game_restarted(g: GameV) -> GameV {
    GameV {
        state: GameState::Running,
        bird: bird_spawned(),
        pipes: pipes_respawned_all(g.pipes.rng, g.pipes.pairs.len()),
    }
}

/// What the primary action does: it starts the round from `Starting`, makes
/// the bird jump while `Running`, and restarts from `GameOver` — but only
/// once the cooldown has run out; before that it is a no-op.
pub open spec fn game_after_primary(g: GameV) -> GameV {
    match g.state {
        GameState::Starting => GameV { state: GameState::Running, ..g },
        GameState::Running => GameV { bird: bird_jumped(g.bird), ..g },
        GameState::GameOver { cooldown } => if cooldown == 0 {
            game_restarted(g)
        } else {
            g
        },
    }
}

impl Game {
    /// A new game: idle in `Starting`, a bird at the spawn point, and a
    /// ring of `RING_CAPACITY` pairs built from `seed`. The caller chooses
    /// the seed policy — a fixed seed for reproducible runs, entropy for
    /// varied ones; the core never reads entropy itself.
    pub fn new(seed: u64) -> (g: Game)
        ensures
            g@.state == GameState::Starting,
            g@.bird == bird_spawned(),
            g@.pipes == pipes_respawned_all(seeded_rng(seed), RING_CAPACITY as nat),
            game_wf(g@),
    {
        Game {
            state: GameState::Starting,
            bird: Bird::new(),
            pipes: Pipes::new(seed, RING_CAPACITY),
        }
    }

    /// Makes the bird jump, whatever the phase.
    pub fn jump(&mut self)
        ensures
            final(self)@ == (GameV { bird: bird_jumped(old(self)@.bird), ..old(self)@ }),
    {
        self.bird.jump();
    }

    /// Restarts the round: fresh bird, every pair respawned from the
    /// current generator stream, straight into `Running`.
    pub fn restart(&mut self)
        requires
            game_wf(old(self)@),
        ensures
            final(self)@ == game_restarted(old(self)@),
            game_wf(final(self)@),
    {
        self.state = GameState::Running;
        self.bird = Bird::new();
        self.pipes.clear();
    }

    /// Whether the bird is clear of every pipe. Pure query.
    pub fn is_not_colliding(&self) -> (r: bool)
        requires
            game_wf(self@),
        ensures
            r == !pipes_collide(self@.pipes, bird_rect(self@.bird)),
    {
        let rect = self.bird.position();
        !self.pipes.is_colliding(&rect)
    }

    /// Handles one discrete input event. The primary action drives the
    /// state machine as `game_after_primary` says; quit asks the caller to
    /// terminate and changes nothing.
    pub fn handle_input(&mut self, event: InputEvent) -> (quit: bool)
        requires
            game_wf(old(self)@),
        ensures
            event == InputEvent::PrimaryAction ==> final(self)@ == game_after_primary(old(self)@)
                && !quit,
            event == InputEvent::Quit ==> final(self)@ == old(self)@ && quit,
            game_wf(final(self)@),
    {
        match event {
            InputEvent::Quit => true,
            InputEvent::PrimaryAction => {
                match self.state {
                    GameState::Starting => {
                        self.state = GameState::Running;
                    },
                    GameState::Running => {
                        self.bird.jump();
                    },
                    GameState::GameOver { cooldown } => {
                        if cooldown == 0 {
                            self.restart();
                        }
                    },
                }
                false
            },
        }
    }

    /// One tick: advances physics as `game_stepped` says, for the elapsed
    /// frame time `dt` in milliseconds.
    pub fn update(&mut self, dt: u64)
        requires
            game_wf(old(self)@),
            dt <= DT_MAX,
        ensures
            final(self)@ == game_stepped(old(self)@, dt as int),
            game_wf(final(self)@),
    {
        match self.state {
            GameState::Starting => {},
            GameState::Running => {
                self.bird.update(dt);
                self.pipes.update(dt);
                let rect = self.bird.position();
                let alive = self.bird.is_on_screen() && !self.pipes.is_colliding(&rect);
                if !alive {
                    self.state = GameState::GameOver { cooldown: RESTART_COOLDOWN };
                }
            },
            GameState::GameOver { cooldown } => {
                let c: u64 = if dt <= cooldown {
                    cooldown - dt
                } else {
                    0
                };
                self.state = GameState::GameOver { cooldown: c };
            },
        }
    }
}

} // verus!
