//! The game state: the snake, the food, the random generator, the game-over
//! flag, and the score counters. One call to `tick` is one discrete
//! simulation step; input events only set the snake's pending direction.

use vstd::prelude::*;
use crate::{GRID_HEIGHT, GRID_WIDTH};
use crate::grid::{Direction, GridPosition, InputKey};
use crate::rng::{entropy_seed, rand32_new};
use crate::snake::{Ate, ColorTag, Food, Snake};

verus! {

/// The whole game session. The game-over flag is monotonic: once true it
/// never resets short of `reset`; the high score never decreases.
pub struct GameState {
    pub snake: Snake,
    pub food: Food,
    pub gameover: bool,
    pub rng: oorandom::Rand32,
    pub score: u32,
    pub high_score: u32,
}

impl GameState {
    /// Snake and food lie on the grid, and the high score has kept up with
    /// the score.
    pub open spec fn wf(self) -> bool {
        &&& self.snake.wf(GRID_WIDTH as int, GRID_HEIGHT as int)
        &&& self.food.pos.in_bounds(GRID_WIDTH as int, GRID_HEIGHT as int)
        &&& self.score <= self.high_score
    }

    /// Body length is one more than the number of food items eaten since the
    /// start, as long as the game is running: one starting segment, plus the
    /// tail kept on each feed. The last, overlapping tick of a lost game
    /// leaves one extra segment behind.
    pub open spec fn score_tracks_length(self) -> bool {
        !self.gameover ==> self.snake.body@.len() == self.score + 1
    }

    /// The configured start of every game: the snake a quarter of the way
    /// across, halfway down, heading right.
    pub open spec fn start_position() -> GridPosition {
        GridPosition { x: (GRID_WIDTH as int / 4) as i16, y: (GRID_HEIGHT as int / 2) as i16 }
    }

    /// Whether a freshly initialized game hangs off `self`: initial snake,
    /// food somewhere on the grid, not over, score zero.
    pub open spec fn is_initial(self) -> bool {
        &&& self.snake.head.pos == GameState::start_position()
        &&& self.snake.dir == Direction::Right
        &&& self.snake.last_update_dir == Direction::Right
        &&& self.snake.next_dir is None
        &&& self.snake.ate is None
        &&& self.snake.body@.len() == 1
        &&& self.snake.body@[0].pos == (GridPosition {
            x: (GameState::start_position().x - 1) as i16,
            y: GameState::start_position().y,
        })
        &&& self.food.pos.in_bounds(GRID_WIDTH as int, GRID_HEIGHT as int)
        &&& !self.gameover
        &&& self.score == 0
    }

    /// A new game from the given seed: the snake at the configured start,
    /// the food drawn from the freshly seeded generator, score and high
    /// score zero.
    pub fn new(seed: u64) -> (g: GameState)
        ensures
            g.wf(),
            g.is_initial(),
            g.high_score == 0,
            g.score_tracks_length(),
    {
        let snake_pos = GridPosition::new(GRID_WIDTH / 4, GRID_HEIGHT / 2);
        let mut rng = rand32_new(seed);
        let food_pos = GridPosition::random(&mut rng, GRID_WIDTH, GRID_HEIGHT);
        GameState {
            snake: Snake::new(snake_pos),
            food: Food::new(food_pos),
            gameover: false,
            rng,
            score: 0,
            high_score: 0,
        }
    }

    /// A new game seeded from the operating system's entropy. `None` exactly
    /// when the entropy source failed, which is fatal to starting a game:
    /// nothing can be placed without a seed.
    pub fn new_from_entropy() -> (r: Option<GameState>)
        ensures
            r matches Some(g) ==> g.wf() && g.is_initial() && g.high_score == 0
                && g.score_tracks_length(),
    {
        match entropy_seed() {
            Some(seed) => Some(GameState::new(seed)),
            None => None,
        }
    }

    /// One simulation step. A no-op once the game is over; otherwise the
    /// snake advances, and eating food relocates it and scores a point,
    /// while eating itself ends the game. The high score keeps up with the
    /// score either way, and the score never decreases.
    pub fn tick(&mut self)
        requires
            old(self).wf(),
            old(self).score < u32::MAX,
        ensures
            final(self).wf(),
            old(self).gameover ==> *final(self) == *old(self),
            final(self).score >= old(self).score,
            final(self).high_score >= old(self).high_score,
            old(self).gameover ==> final(self).gameover,
            !old(self).gameover ==> final(self).snake.ate == old(self).snake.spec_outcome(
                old(self).food.pos, GRID_WIDTH as int, GRID_HEIGHT as int),
            !old(self).gameover ==> final(self).snake.body@ == old(self).snake.spec_body_after(
                old(self).food.pos, GRID_WIDTH as int, GRID_HEIGHT as int),
            !old(self).gameover ==> final(self).gameover == (final(self).snake.ate == Some(
                Ate::Itself)),
            !old(self).gameover && final(self).snake.ate == Some(Ate::Food) ==> final(
                self).score == old(self).score + 1,
            !old(self).gameover && final(self).snake.ate == Some(Ate::Food) ==> final(
                self).high_score == (if old(self).score + 1 > old(self).high_score {
                (old(self).score + 1) as u32
            } else {
                old(self).high_score
            }),
            !old(self).gameover && final(self).snake.ate != Some(Ate::Food) ==> final(
                self).score == old(self).score,
            !old(self).gameover && final(self).snake.ate != Some(Ate::Food) ==> final(
                self).high_score == old(self).high_score,
            !old(self).gameover && final(self).snake.ate != Some(Ate::Food) ==> final(
                self).food == old(self).food,
            old(self).score_tracks_length() ==> final(self).score_tracks_length(),
            !old(self).gameover && !final(self).gameover ==> !final(self).snake.spec_eats_self(),
    {
        if self.gameover {
            return ;
        }
        self.snake.update(&self.food, GRID_WIDTH, GRID_HEIGHT);
        match self.snake.ate {
            Some(Ate::Food) => {
                self.food.relocate(&mut self.rng, GRID_WIDTH, GRID_HEIGHT);
                self.score = self.score + 1;
                if self.score > self.high_score {
                    self.high_score = self.score;
                }
            },
            Some(Ate::Itself) => {
                self.gameover = true;
                if self.score > self.high_score {
                    self.high_score = self.score;
                }
            },
            None => {},
        }
    }

    /// One input event: maps the key to a direction and forwards it to the
    /// snake's pending-direction rule; a no-op for unmapped keys. Nothing
    /// else of the state moves.
    pub fn handle_input(&mut self, key: InputKey)
        ensures
            final(self).food == old(self).food,
            final(self).gameover == old(self).gameover,
            final(self).score == old(self).score,
            final(self).high_score == old(self).high_score,
            final(self).rng == old(self).rng,
            (match Direction::spec_from_keycode(key) {
                Some(d) => final(self).snake == old(self).snake.after_input(d),
                None => final(self).snake == old(self).snake,
            }),
            old(self).wf() ==> final(self).wf(),
            old(self).score_tracks_length() ==> final(self).score_tracks_length(),
    {
        if let Some(dir) = Direction::from_keycode(key) {
            self.snake.set_pending_direction(dir);
        }
    }

    /// Reinitializes snake, food, game-over flag, and score to their initial
    /// conditions, preserving the high score and continuing with the same
    /// random generator.
    pub fn reset(&mut self)
        ensures
            final(self).wf(),
            final(self).is_initial(),
            final(self).high_score == old(self).high_score,
            final(self).score_tracks_length(),
    {
        self.snake = Snake::new(GridPosition::new(GRID_WIDTH / 4, GRID_HEIGHT / 2));
        let food_pos = GridPosition::random(&mut self.rng, GRID_WIDTH, GRID_HEIGHT);
        self.food = Food::new(food_pos);
        self.gameover = false;
        self.score = 0;
    }

    /// The fixed color identity of every cell nothing sits on.
    pub fn background_color(&self) -> (r: ColorTag)
        ensures
            r == ColorTag::Background,
    {
        ColorTag::Background
    }

    pub fn score(&self) -> (r: u32)
        ensures
            r == self.score,
    {
        self.score
    }

    pub fn high_score(&self) -> (r: u32)
        ensures
            r == self.high_score,
    {
        self.high_score
    }

    pub fn is_game_over(&self) -> (r: bool)
        ensures
            r == self.gameover,
    {
        self.gameover
    }
}

} // verus!
