use vstd::prelude::*;
use crate::encode::{all_in_grid, lemma_index_in_range, observation, observation_grid, occupancy, occupancy_grid};
use crate::food::{new_food_location, prefix_contains};
use crate::geometry::{
    delta, in_grid, lemma_step_fits, reverse, sum, Direction, Point, CELLS,
};

verus! {

/// Milliseconds between two ticks of the game.
pub const UPDATE_RATE_MS: u64 = 100;

/// Column of the first segment of a fresh snake: the centre of the grid.
pub const START_X: i16 = 15;

/// Row of the first segment of a fresh snake: the centre of the grid.
pub const START_Y: i16 = 15;

/// What ends an episode. Either way the episode ends before the head would
/// leave the grid, and before the snake would grow past the number of cells.
#[derive(Clone, Copy, Debug, PartialEq, Eq, Structural)]
pub enum TerminalRule {
    /// The head would leave the grid.
    LeaveGrid,
    /// The head would leave the grid or run into the body.
    LeaveGridOrSelf,
}

/// The whole mutable world of one game. The head of the snake is `snake[0]`.
/// Times are milliseconds on a clock of the host's choosing.
pub struct Game {
    pub snake: Vec<Point>,
    pub direction: Direction,
    pub food: Point,
    pub game_over: bool,
    pub score: u32,
    pub update_rate_ms: u64,
    pub last_update_ms: u64,
    pub rule: TerminalRule,
}

/// The direction that an action index stands for.
pub open spec fn action_direction(action: int) -> Direction {
    if action == 0 {
        Direction::Up
    } else if action == 1 {
        Direction::Down
    } else if action == 2 {
        Direction::Left
    } else {
        Direction::Right
    }
}

/// The head that a move of `g` would produce.
pub open spec fn next_head(g: Game) -> Point {
    sum(g.snake@[0], delta(g.direction))
}

/// Whether moving the head of `snake` to `head` ends the episode under `rule`.
/// The tail is about to move away unless the snake eats, and then `head` is
/// the food, which is off the body, so the body that counts is all but the tail.
pub open spec fn ends_episode(rule: TerminalRule, snake: Seq<Point>, food: Point, head: Point) -> bool {
    ||| !in_grid(head)
    ||| (rule == TerminalRule::LeaveGridOrSelf && snake.take(snake.len() - 1).contains(head))
    ||| (head == food && snake.len() >= CELLS)
}

/// Whether tick time has come: `rate` or more has passed since `last`.
pub open spec fn tick_due(last: u64, now: u64, rate: u64) -> bool {
    now >= last && now - last >= rate
}

/// The grid is covered by `snake`.
pub open spec fn covers_grid(snake: Seq<Point>) -> bool {
    forall|p: Point| in_grid(p) ==> snake.contains(p)
}

/// `post` is `pre` after one move of the snake in `pre.direction`.
pub open spec fn stepped(pre: Game, post: Game) -> bool {
    let head = next_head(pre);
    &&& post.direction == pre.direction
    &&& post.rule == pre.rule
    &&& post.update_rate_ms == pre.update_rate_ms
    &&& post.last_update_ms == pre.last_update_ms
    &&& if ends_episode(pre.rule, pre.snake@, pre.food, head) {
        &&& post.game_over
        &&& post.snake@ == pre.snake@
        &&& post.food == pre.food
        &&& post.score == pre.score
    } else if head == pre.food {
        &&& post.snake@ == seq![head] + pre.snake@
        &&& post.score == pre.score + 1
        &&& post.game_over == covers_grid(post.snake@)
        &&& !post.game_over ==> in_grid(post.food) && !post.snake@.contains(post.food)
    } else {
        &&& !post.game_over
        &&& post.snake@ == seq![head] + pre.snake@.drop_last()
        &&& post.food == pre.food
        &&& post.score == pre.score
    }
}

/// The observation is a function of the snake and the food alone: two games
/// that agree on them, in particular one game encoded twice, give the same grid.
pub proof fn lemma_encoding_deterministic(a: Game, b: Game)
    requires
        a.snake@ == b.snake@,
        a.food == b.food,
        in_grid(a.food),
    ensures
        observation(a.snake@, a.food) == observation(b.snake@, b.food),
        observation(a.snake@, a.food).len() == CELLS,
{
    lemma_index_in_range(a.food);
}

/// A move that does not end the episode grows the snake and the score by one
/// exactly when the new head lands on the food, and leaves both unchanged
/// otherwise.
pub proof fn lemma_growth(pre: Game, post: Game)
    requires
        pre.wf(),
        !pre.game_over,
        stepped(pre, post),
        !ends_episode(pre.rule, pre.snake@, pre.food, next_head(pre)),
    ensures
        next_head(pre) == pre.food ==> post.snake@.len() == pre.snake@.len() + 1 && post.score
            == pre.score + 1,
        next_head(pre) != pre.food ==> post.snake@.len() == pre.snake@.len() && post.score
            == pre.score,
{
}

/// Food placed anew after the snake eats lies on the grid and off the snake.
pub proof fn lemma_food_respawn(pre: Game, post: Game)
    requires
        pre.wf(),
        !pre.game_over,
        stepped(pre, post),
        !ends_episode(pre.rule, pre.snake@, pre.food, next_head(pre)),
        next_head(pre) == pre.food,
        !post.game_over,
    ensures
        in_grid(post.food),
        !post.snake@.contains(post.food),
{
}

/// Once a tick has run at `last`, a later call at `now` is due exactly when
/// the interval has passed: calls closer than the interval change nothing,
/// and the first one at or after it runs a tick.
pub proof fn lemma_tick_gating(last: u64, now: u64, rate: u64)
    requires
        last <= now,
    ensures
        now - last < rate ==> !tick_due(last, now, rate),
        now - last >= rate ==> tick_due(last, now, rate),
{
}

impl Game {
    /// The state invariant: a snake of at least one segment on the grid,
    /// food on the grid and, while the episode runs, off the snake; the score
    /// counts the growths, which the length bounds.
    pub open spec fn wf(&self) -> bool {
        &&& 1 <= self.snake@.len() <= CELLS
        &&& all_in_grid(self.snake@)
        &&& in_grid(self.food)
        &&& self.score < self.snake@.len()
        &&& !self.game_over ==> !self.snake@.contains(self.food)
    }

    /// A fresh game: a one-cell snake at the centre heading up, and food on a
    /// free cell drawn at random.
    pub fn new(now_ms: u64, rule: TerminalRule) -> (r: Game)
        ensures
            r.wf(),
            r.snake@ == seq![Point(START_X, START_Y)],
            r.direction == Direction::Up,
            !r.game_over,
            r.score == 0,
            r.update_rate_ms == UPDATE_RATE_MS,
            r.last_update_ms == now_ms,
            r.rule == rule,
    {
        let snake = vec![Point(START_X, START_Y)];
        let placed = new_food_location(&snake);
        let food = match placed {
            Some(p) => p,
            None => {
                proof {
                    let corner = Point(0, 0);
                    assert(in_grid(corner));
                    assert(snake@.contains(corner));
                    let k = choose|k: int| 0 <= k < snake@.len() && snake@[k] == corner;
                    assert(false);
                }
                Point(0, 0)
            },
        };
        Game::with_food(food, now_ms, rule)
    }

    /// A fresh game as `new` makes it, with the food on the given cell.
    pub fn with_food(food: Point, now_ms: u64, rule: TerminalRule) -> (r: Game)
        requires
            in_grid(food),
            food != Point(START_X, START_Y),
        ensures
            r.wf(),
            r.snake@ == seq![Point(START_X, START_Y)],
            r.food == food,
            r.direction == Direction::Up,
            !r.game_over,
            r.score == 0,
            r.update_rate_ms == UPDATE_RATE_MS,
            r.last_update_ms == now_ms,
            r.rule == rule,
    {
        let snake = vec![Point(START_X, START_Y)];
        let g = Game {
            snake,
            direction: Direction::Up,
            food,
            game_over: false,
            score: 0,
            update_rate_ms: UPDATE_RATE_MS,
            last_update_ms: now_ms,
            rule,
        };
        proof {
            if g.snake@.contains(food) {
                let k = choose|k: int| 0 <= k < g.snake@.len() && g.snake@[k] == food;
                assert(k == 0);
            }
        }
        g
    }

    /// The observation of the game: the flattened `GRID_H x GRID_W` grid in
    /// row-major order, 1 under the snake, 2 on the food, 0 elsewhere.
    pub fn get_state_as_tensor(&self) -> (r: Vec<u8>)
        requires
            all_in_grid(self.snake@),
            in_grid(self.food),
        ensures
            r@ == observation(self.snake@, self.food),
            r@.len() == CELLS,
    {
        observation_grid(&self.snake, self.food)
    }

    /// The training target of a finished game: 1 under the snake, 0 elsewhere.
    pub fn get_target_tensor_from_game_over(&self) -> (r: Vec<u8>)
        requires
            all_in_grid(self.snake@),
        ensures
            r@ == occupancy(self.snake@),
            r@.len() == CELLS,
    {
        occupancy_grid(&self.snake)
    }

    /// The direction of an action index: 0 up, 1 down, 2 left, 3 right.
    pub fn action_to_direction(&self, action: i64) -> (r: Direction)
        requires
            0 <= action < 4,
        ensures
            r == action_direction(action as int),
            action == 0 ==> r == Direction::Up,
            action == 1 ==> r == Direction::Down,
            action == 2 ==> r == Direction::Left,
            action == 3 ==> r == Direction::Right,
    {
        match action {
            0 => Direction::Up,
            1 => Direction::Down,
            2 => Direction::Left,
            _ => Direction::Right,
        }
    }

    /// Whether moving the head to `head` ends the episode.
    fn ends_with(&self, head: Point) -> (r: bool)
        requires
            self.wf(),
        ensures
            r == ends_episode(self.rule, self.snake@, self.food, head),
    {
        if !head.is_in_grid() {
            return true;
        }
        let len = self.snake.len();
        if self.rule == TerminalRule::LeaveGridOrSelf && prefix_contains(&self.snake, len - 1, head) {
            return true;
        }
        head == self.food && len >= CELLS
    }

    /// Moves the snake one cell in its direction: the new head is pushed at
    /// the front; on the food the snake grows, the score rises and food is
    /// placed anew off the snake, otherwise the tail is dropped. A move that
    /// the terminal rule forbids ends the episode and leaves the snake still.
    pub fn update_snake_position(&mut self)
        requires
            old(self).wf(),
            !old(self).game_over,
        ensures
            final(self).wf(),
            stepped(*old(self), *final(self)),
    {
        let ghost pre = *self;
        proof {
            lemma_step_fits(self.snake@[0], self.direction);
        }
        let new_head = self.direction.to_point_delta().add(self.snake[0]);
        assert(new_head == next_head(pre));
        if self.ends_with(new_head) {
            self.game_over = true;
            return;
        }
        self.snake.insert(0, new_head);
        proof {
            assert(self.snake@ =~= seq![new_head] + pre.snake@);
        }
        if new_head != self.food {
            let ghost grown = self.snake@;
            self.snake.pop();
            proof {
                assert(self.snake@ =~= seq![new_head] + pre.snake@.drop_last());
                assert forall|p: Point| self.snake@.contains(p) implies pre.snake@.contains(p) || p == new_head by {
                    let k = choose|k: int| 0 <= k < self.snake@.len() && self.snake@[k] == p;
                    if k > 0 {
                        assert(pre.snake@[k - 1] == p);
                    }
                }
                assert(all_in_grid(self.snake@));
            }
        } else {
            self.score = self.score + 1;
            proof {
                assert forall|p: Point| self.snake@.contains(p) implies pre.snake@.contains(p) || p == new_head by {
                    let k = choose|k: int| 0 <= k < self.snake@.len() && self.snake@[k] == p;
                    if k > 0 {
                        assert(pre.snake@[k - 1] == p);
                    }
                }
                assert(all_in_grid(self.snake@));
            }
            match new_food_location(&self.snake) {
                Some(p) => {
                    self.food = p;
                },
                None => {
                    self.game_over = true;
                },
            }
        }
    }

    /// Opens a tick at time `now_ms`. While the episode runs and the update
    /// interval has passed since the last tick, records `now_ms` as the tick
    /// time and returns the observation for the policy; otherwise does
    /// nothing and returns `None`.
    pub fn start_tick(&mut self, now_ms: u64) -> (r: Option<Vec<u8>>)
        requires
            old(self).wf(),
        ensures
            final(self).wf(),
            if !old(self).game_over && tick_due(old(self).last_update_ms, now_ms, old(self).update_rate_ms) {
                &&& *final(self) == (Game { last_update_ms: now_ms, ..*old(self) })
                &&& r matches Some(obs) && obs@ == observation(old(self).snake@, old(self).food)
            } else {
                &&& *final(self) == *old(self)
                &&& r.is_none()
            },
    {
        if self.game_over {
            return None;
        }
        if now_ms >= self.last_update_ms && now_ms - self.last_update_ms >= self.update_rate_ms {
            self.last_update_ms = now_ms;
            Some(self.get_state_as_tensor())
        } else {
            None
        }
    }

    /// Closes a tick with the policy's action: the snake turns to the action's
    /// direction, whatever it was heading, and moves. When the move ends the
    /// episode, returns the training target of the final state.
    pub fn finish_tick(&mut self, action: i64) -> (r: Option<Vec<u8>>)
        requires
            old(self).wf(),
            !old(self).game_over,
            0 <= action < 4,
        ensures
            final(self).wf(),
            stepped((Game { direction: action_direction(action as int), ..*old(self) }), *final(self)),
            r.is_some() == final(self).game_over,
            r matches Some(target) ==> target@ == occupancy(final(self).snake@),
    {
        self.direction = self.action_to_direction(action);
        self.update_snake_position();
        if self.game_over {
            Some(self.get_target_tensor_from_game_over())
        } else {
            None
        }
    }

    /// A direction asked for from outside the policy: taken while the episode
    /// runs, unless it is the reverse of the current direction.
    pub fn request_direction(&mut self, requested: Direction)
        ensures
            final(self).direction == if !old(self).game_over && requested != reverse(old(self).direction) {
                requested
            } else {
                old(self).direction
            },
            *final(self) == (Game { direction: final(self).direction, ..*old(self) }),
    {
        if self.game_over {
            return;
        }
        if requested != self.direction.opposite() {
            self.direction = requested;
        }
    }
}

} // verus!
