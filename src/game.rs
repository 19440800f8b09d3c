use crate::apple::{roomy, Apple};
use crate::grid::in_grid;
use crate::random::rand_point2;
use crate::snake::{opposite, shifted, step, Heading, Snake};
use vstd::prelude::*;

verus! {

/// Why a game cannot be set up.
#[derive(Clone, Copy, Debug, PartialEq, Eq, Structural)]
pub enum ConfigError {
    /// The grid lacks room for a snake's head and an apple beside it.
    InvalidGrid,
}

/// A discrete input event.
#[derive(Clone, Copy, Debug, PartialEq, Eq, Structural)]
pub enum Input {
    /// Turn the snake towards a heading.
    Turn(Heading),
    /// Start a new game once the current one is over.
    Restart,
    /// Leave once the current game is over.
    Quit,
}

/// A running game: the snake, the apple, the grid's size, and whether the
/// game is over.
pub struct MainState {
    pub snake: Snake,
    pub apple: Apple,
    pub is_over: bool,
    pub grid_width: i32,
    pub grid_height: i32,
}

/// `a` and `b` hold the same game.
pub open spec fn same_game(a: MainState, b: MainState) -> bool {
    &&& a.snake.heading == b.snake.heading
    &&& a.snake.pos_head == b.snake.pos_head
    &&& a.snake.pos_body@ == b.snake.pos_body@
    &&& a.snake.pos_prev == b.snake.pos_prev
    &&& a.apple == b.apple
    &&& a.is_over == b.is_over
    &&& a.grid_width == b.grid_width
    &&& a.grid_height == b.grid_height
}

/// A game that is over stays the same game across any run of ticks: if each
/// of two ticks in a row leaves the game it was given, the second one ends
/// where the first began, still over.
pub proof fn lemma_over_stays_frozen(before: MainState, mid: MainState, after: MainState)
    requires
        before.is_over,
        same_game(mid, before),
        same_game(after, mid),
    ensures
        same_game(after, before),
        after.is_over,
{
}

impl MainState {
    /// The grid has room for a head and an apple, every cell of the snake and
    /// the apple lie on it, and while the game goes on the head is not on the
    /// apple.
    pub open spec fn wf(&self) -> bool {
        &&& roomy(self.grid_width as int, self.grid_height as int)
        &&& in_grid(self.snake.pos_head, self.grid_width as int, self.grid_height as int)
        &&& in_grid(self.snake.pos_prev, self.grid_width as int, self.grid_height as int)
        &&& forall|i: int|
            0 <= i < self.snake.pos_body@.len() ==> in_grid(
                #[trigger] self.snake.pos_body@[i],
                self.grid_width as int,
                self.grid_height as int,
            )
        &&& in_grid(self.apple.pos, self.grid_width as int, self.grid_height as int)
        &&& !self.is_over ==> self.apple.pos != self.snake.pos_head
    }

    /// A game that has just begun: a bodiless snake heading left, and an apple
    /// elsewhere.
    pub open spec fn is_fresh(&self) -> bool {
        &&& self.wf()
        &&& !self.is_over
        &&& self.snake.heading == Heading::Left
        &&& self.snake.pos_body@.len() == 0
    }

    /// A game that has just begun, with the snake's head and the apple on
    /// random cells apart.
    fn fresh(grid_width: i32, grid_height: i32) -> (r: MainState)
        requires
            roomy(grid_width as int, grid_height as int),
        ensures
            r.is_fresh(),
            r.grid_width == grid_width,
            r.grid_height == grid_height,
    {
        let pos_snake_head = rand_point2(grid_width, grid_height);
        let apple = Apple::spawn(grid_width, grid_height, pos_snake_head);
        MainState {
            snake: Snake::new(pos_snake_head),
            apple,
            is_over: false,
            grid_width,
            grid_height,
        }
    }

    /// A new game on a `grid_width` by `grid_height` grid; refused when the
    /// grid has no room for an apple beside the snake's head.
    pub fn new(grid_width: i32, grid_height: i32) -> (r: Result<MainState, ConfigError>)
        ensures
            match r {
                Ok(s) => {
                    &&& roomy(grid_width as int, grid_height as int)
                    &&& s.is_fresh()
                    &&& s.grid_width == grid_width
                    &&& s.grid_height == grid_height
                },
                Err(e) => {
                    &&& !roomy(grid_width as int, grid_height as int)
                    &&& e == ConfigError::InvalidGrid
                },
            },
    {
        if grid_width <= 0 || grid_height <= 0 {
            return Err(ConfigError::InvalidGrid);
        }
        let wi = grid_width as i64;
        let hi = grid_height as i64;
        assert(0 < wi * hi <= 0x7fff_ffff * 0x7fff_ffff) by (nonlinear_arith)
            requires
                0 < wi <= 0x7fff_ffff,
                0 < hi <= 0x7fff_ffff,
        ;
        if wi * hi < 2 {
            return Err(ConfigError::InvalidGrid);
        }
        Ok(MainState::fresh(grid_width, grid_height))
    }

    /// Starts the game over on the same grid.
    pub fn restart(&mut self)
        requires
            old(self).wf(),
        ensures
            final(self).is_fresh(),
            final(self).grid_width == old(self).grid_width,
            final(self).grid_height == old(self).grid_height,
    {
        let pos_snake_head = rand_point2(self.grid_width, self.grid_height);
        self.snake = Snake::new(pos_snake_head);
        self.apple = Apple::spawn(self.grid_width, self.grid_height, pos_snake_head);
        self.is_over = false;
    }

    /// One tick. A game that is over stays as it is. Otherwise the snake
    /// moves; if its head then overlaps its body the game is over, and else, if
    /// the head is on the apple, the snake grows and the apple moves to a
    /// random cell other than the head's.
    pub fn update(&mut self)
        requires
            old(self).wf(),
        ensures
            final(self).wf(),
            old(self).is_over ==> same_game(*final(self), *old(self)),
            !old(self).is_over ==> ({
                let w = old(self).grid_width as int;
                let h = old(self).grid_height as int;
                let head = step(old(self).snake.pos_head, old(self).snake.heading, w, h);
                let body = shifted(old(self).snake.pos_body@, old(self).snake.pos_head);
                let dead = body.contains(head);
                let eats = !dead && head == old(self).apple.pos;
                &&& final(self).snake.pos_head == head
                &&& final(self).snake.pos_prev == old(self).snake.pos_head
                &&& final(self).snake.heading == old(self).snake.heading
                &&& final(self).is_over == dead
                &&& final(self).snake.pos_body@ == (if eats {
                    body.push(old(self).snake.pos_head)
                } else {
                    body
                })
                &&& !eats ==> final(self).apple == old(self).apple
                &&& final(self).grid_width == old(self).grid_width
                &&& final(self).grid_height == old(self).grid_height
            }),
    {
        if self.is_over {
            return;
        }
        self.snake.update_pos(self.grid_width, self.grid_height);
        if self.snake.is_dead() {
            self.is_over = true;
        } else if self.snake.can_eat(&self.apple) {
            self.apple.reposition(self.grid_width, self.grid_height, self.snake.pos_head);
            self.snake.grow();
        }
    }

    /// Applies an input event; returns whether the player asked to leave a
    /// game that is over. A turn is taken at any time, unless it reverses the
    /// heading; a restart or a quit counts only once the game is over.
    pub fn handle_input(&mut self, input: Input) -> (quit: bool)
        requires
            old(self).wf(),
        ensures
            final(self).wf(),
            match input {
                Input::Turn(requested) => {
                    &&& !quit
                    &&& final(self).snake.heading == (if requested == opposite(
                        old(self).snake.heading,
                    ) {
                        old(self).snake.heading
                    } else {
                        requested
                    })
                    &&& final(self).snake.pos_head == old(self).snake.pos_head
                    &&& final(self).snake.pos_body@ == old(self).snake.pos_body@
                    &&& final(self).snake.pos_prev == old(self).snake.pos_prev
                    &&& final(self).apple == old(self).apple
                    &&& final(self).is_over == old(self).is_over
                    &&& final(self).grid_width == old(self).grid_width
                    &&& final(self).grid_height == old(self).grid_height
                },
                Input::Restart => {
                    &&& !quit
                    &&& old(self).is_over ==> {
                        &&& final(self).is_fresh()
                        &&& final(self).grid_width == old(self).grid_width
                        &&& final(self).grid_height == old(self).grid_height
                    }
                    &&& !old(self).is_over ==> same_game(*final(self), *old(self))
                },
                Input::Quit => {
                    &&& quit == old(self).is_over
                    &&& same_game(*final(self), *old(self))
                },
            },
    {
        match input {
            Input::Turn(requested) => {
                self.snake.set_heading(requested);
                false
            },
            Input::Restart => {
                if self.is_over {
                    self.restart();
                }
                false
            },
            Input::Quit => self.is_over,
        }
    }
}

} // verus!
