//! The standard mode: the fixed map, the ball's collision rules, and the
//! tick that runs a match.
use crate::gamemode::{clamp, dir_ok, merged, pos_after, score_after, wrap_step, GameState, Gamemode};
use crate::player::{input_of, IoFailure, NewPlayer, Player, PlayerError};
use crate::random::random_in;
use vstd::prelude::*;

verus! {

/// Width of the standard map.
pub const MAP_WIDTH: u8 = 80;

/// Height of the standard map.
pub const MAP_HEIGHT: u8 = 30;

/// Half-length of a paddle on the standard map.
pub const PADDLE_SIZE: u8 = 4;

/// The rule that a ball step applies, in order of precedence.
#[derive(Debug, Clone, Copy, PartialEq, Eq, Structural)]
pub enum Collision {
    /// On a wall row and in a paddle column at once.
    Corner,
    /// In a paddle column, within that player's paddle span.
    Paddle,
    /// On the top or bottom row.
    Wall,
    /// Nothing to bounce off.
    Clear,
}

/// `y` lies in the paddle span `pos - size ..= pos + size`.
pub open spec fn in_span(pos: u8, size: u8, y: u8) -> bool {
    pos - size <= y <= pos + size
}

/// Lowest vertical direction that a paddle hit may send the ball in: a ball
/// coming from the right goes level or down, one going right goes level or
/// up, a level one anywhere.
pub open spec fn paddle_dy_low(dx: i8) -> int {
    if dx == -1 {
        0
    } else if dx == 0 || dx == 1 {
        -1
    } else {
        0
    }
}

/// Highest vertical direction that a paddle hit may send the ball in.
pub open spec fn paddle_dy_high(dx: i8) -> int {
    if dx == -1 || dx == 0 {
        1
    } else {
        0
    }
}

impl<C> GameState<C> {
    /// Which rule applies to a ball at `(x, y)`, tested before it moves.
    pub open spec fn collision_at(&self, x: u8, y: u8) -> Collision {
        let wall_row = y == 0 || y == self.map_height - 1;
        let paddle_column = x == 2 || x == self.map_width - 3;
        let at_paddle = (x == 2 && in_span(self.player_1.player_pos, self.paddle_size, y)) || (x
            == self.map_width - 3 && in_span(self.player_2.player_pos, self.paddle_size, y));
        if wall_row && paddle_column {
            Collision::Corner
        } else if at_paddle {
            Collision::Paddle
        } else if wall_row {
            Collision::Wall
        } else {
            Collision::Clear
        }
    }

    /// The random draw that the rule at `(x, y)` may use: the corner factor
    /// is -1 or 0; the paddle's new vertical direction lies between the
    /// bounds its horizontal direction sets; the other rules draw nothing.
    pub open spec fn draw_ok(&self, x: u8, y: u8, dx: i8, draw: i8) -> bool {
        match self.collision_at(x, y) {
            Collision::Corner => -1 <= draw <= 0,
            Collision::Paddle => paddle_dy_low(dx) <= draw <= paddle_dy_high(dx),
            _ => draw == 0,
        }
    }

    /// Horizontal direction after the rule at `(x, y)`.
    pub open spec fn next_dx(&self, x: u8, y: u8, dx: i8) -> i8 {
        match self.collision_at(x, y) {
            Collision::Corner | Collision::Paddle => -dx as i8,
            _ => dx,
        }
    }

    /// Vertical direction after the rule at `(x, y)`.
    pub open spec fn next_dy(&self, x: u8, y: u8, dy: i8, draw: i8) -> i8 {
        match self.collision_at(x, y) {
            Collision::Corner => (draw * dy) as i8,
            Collision::Paddle => draw,
            Collision::Wall => -dy as i8,
            Collision::Clear => dy,
        }
    }

    /// This state's ball is where a ball at `(x, y)` heading `(dx, dy)`
    /// lands after one step with the given draw: the rule changes the
    /// direction first, and the ball then moves by the new direction.
    pub open spec fn lands(&self, x: u8, y: u8, dx: i8, dy: i8, draw: i8) -> bool {
        &&& self.ball_dx == self.next_dx(x, y, dx)
        &&& self.ball_dy == self.next_dy(x, y, dy, draw)
        &&& self.ball_pos_x == wrap_step(x, self.ball_dx)
        &&& self.ball_pos_y == wrap_step(y, self.ball_dy)
    }

    /// The player that a ball in this position scores for: 2 at column 1,
    /// 1 at the column of player 2's paddle, else nobody (0).
    pub open spec fn scorer(&self) -> u8 {
        if self.ball_pos_x == 1 {
            2
        } else if self.ball_pos_x == self.map_width - 3 {
            1
        } else {
            0
        }
    }

    /// The two states agree on everything but the paddle positions.
    pub open spec fn same_but_paddles(&self, other: &Self) -> bool {
        &&& self.player_1.stream == other.player_1.stream
        &&& self.player_2.stream == other.player_2.stream
        &&& self.ball_pos_x == other.ball_pos_x
        &&& self.ball_pos_y == other.ball_pos_y
        &&& self.ball_dx == other.ball_dx
        &&& self.ball_dy == other.ball_dy
        &&& self.map_width == other.map_width
        &&& self.map_height == other.map_height
        &&& self.paddle_size == other.paddle_size
        &&& self.player_1_score == other.player_1_score
        &&& self.player_2_score == other.player_2_score
    }

    /// Executable form of `collision_at` on the ball's own position.
    pub fn collision(&self) -> (r: Collision)
        ensures
            r == self.collision_at(self.ball_pos_x, self.ball_pos_y),
    {
        let x = self.ball_pos_x;
        let y = self.ball_pos_y;
        let wall_row = y == 0 || y as u16 + 1 == self.map_height as u16;
        let right_column = x as u16 + 3 == self.map_width as u16;
        let paddle_column = x == 2 || right_column;
        let at_paddle = (x == 2 && in_paddle_span(self.player_1.player_pos, self.paddle_size, y))
            || (right_column && in_paddle_span(self.player_2.player_pos, self.paddle_size, y));
        if wall_row && paddle_column {
            Collision::Corner
        } else if at_paddle {
            Collision::Paddle
        } else if wall_row {
            Collision::Wall
        } else {
            Collision::Clear
        }
    }
}

/// Executable form of `in_span`.
pub fn in_paddle_span(pos: u8, size: u8, y: u8) -> (r: bool)
    ensures
        r == in_span(pos, size, y),
{
    y as u16 + size as u16 >= pos as u16 && y as u16 <= pos as u16 + size as u16
}

/// The standard game mode. Its one piece of state is the stepping flag,
/// which lets the ball move on every other tick only.
#[derive(Debug)]
pub struct StandardGame {
    pub stepping: bool,
}

impl Gamemode for StandardGame {
    /// The standard mode starts with the stepping flag off, so the ball
    /// first moves on the second tick.
    fn setup_game<C>(player_1: NewPlayer<C>, player_2: NewPlayer<C>) -> (r: (
        Self,
        GameState<C>,
    ))
        ensures
            !r.0.stepping,
    {
        let mut player_1 = Player::from_new_player(player_1);
        let mut player_2 = Player::from_new_player(player_2);
        player_1.player_pos = MAP_HEIGHT / 2;
        player_2.player_pos = MAP_HEIGHT / 2;
        let gamemode_logic = StandardGame { stepping: false };
        let initial_game_state = GameState {
            player_1,
            player_2,
            ball_pos_x: MAP_WIDTH / 2,
            ball_pos_y: MAP_HEIGHT / 2,
            ball_dy: 0,
            ball_dx: 1,
            map_width: MAP_WIDTH,
            map_height: MAP_HEIGHT,
            paddle_size: PADDLE_SIZE,
            player_1_score: 0,
            player_2_score: 0,
        };
        (gamemode_logic, initial_game_state)
    }

    /// Draws what the rule that applies leaves open, then steps.
    fn step_ball<C>(&self, gamestate: &mut GameState<C>)
    {
        let (lo, hi) = match gamestate.collision() {
            Collision::Corner => (-1i8, 0i8),
            Collision::Paddle => paddle_dy_bounds(gamestate.ball_dx),
            _ => (0i8, 0i8),
        };
        let draw = if lo < hi {
            random_in(lo, hi)
        } else {
            lo
        };
        self.step_ball_with(gamestate, draw);
    }
}

impl StandardGame {
    /// One ball step with the random draw given: the rule that applies at
    /// the ball's current cell sets the new direction, and the ball moves
    /// by it.
    pub fn step_ball_with<C>(&self, gamestate: &mut GameState<C>, draw: i8)
        requires
            dir_ok(old(gamestate).ball_dx),
            dir_ok(old(gamestate).ball_dy),
            old(gamestate).draw_ok(
                old(gamestate).ball_pos_x,
                old(gamestate).ball_pos_y,
                old(gamestate).ball_dx,
                draw,
            ),
        ensures
            final(gamestate).same_but_ball(old(gamestate)),
            final(gamestate).lands(
                old(gamestate).ball_pos_x,
                old(gamestate).ball_pos_y,
                old(gamestate).ball_dx,
                old(gamestate).ball_dy,
                draw,
            ),
    {
        match gamestate.collision() {
            Collision::Corner => {
                let dy = gamestate.ball_dy;
                assert(-1 <= draw * dy <= 1) by (nonlinear_arith)
                    requires
                        -1 <= draw <= 0,
                        -1 <= dy <= 1,
                ;
                gamestate.ball_dx = gamestate.ball_dx * -1;
                gamestate.ball_dy = draw * dy;
            },
            Collision::Paddle => {
                gamestate.ball_dy = draw;
                gamestate.ball_dx = gamestate.ball_dx * -1;
            },
            Collision::Wall => {
                gamestate.ball_dy = gamestate.ball_dy * -1;
            },
            Collision::Clear => {},
        }
        let (new_x, new_y) = self.new_ball_pos(gamestate);
        gamestate.ball_pos_x = new_x;
        gamestate.ball_pos_y = new_y;
    }
}

impl StandardGame {
    /// One tick of a running match, after the update packets went out:
    /// apply both players' reads; if neither ends the session, run the
    /// scoring check, then step the ball on every other tick.
    pub fn tick<C>(
        &mut self,
        gamestate: &mut GameState<C>,
        read_1: Result<usize, IoFailure>,
        buff_1: &[u8],
        read_2: Result<usize, IoFailure>,
        buff_2: &[u8],
    ) -> (r: Result<(), PlayerError>)
        requires
            old(gamestate).inv(),
            buff_1@.len() >= 2,
            buff_2@.len() >= 2,
        ensures
            final(gamestate).inv(),
            r == merged(input_of(read_1, buff_1@), input_of(read_2, buff_2@)),
            read_1 == Ok::<usize, IoFailure>(0) || read_2 == Ok::<usize, IoFailure>(0) ==> r is Err,
            final(gamestate).player_1.stream == old(gamestate).player_1.stream,
            final(gamestate).player_2.stream == old(gamestate).player_2.stream,
            final(gamestate).player_1.player_pos == clamp(
                pos_after(old(gamestate).player_1.player_pos, input_of(read_1, buff_1@)),
                old(gamestate).paddle_low(),
                old(gamestate).paddle_high(),
            ),
            final(gamestate).player_2.player_pos == clamp(
                pos_after(old(gamestate).player_2.player_pos, input_of(read_2, buff_2@)),
                old(gamestate).paddle_low(),
                old(gamestate).paddle_high(),
            ),
            final(gamestate).map_width == old(gamestate).map_width,
            final(gamestate).map_height == old(gamestate).map_height,
            final(gamestate).paddle_size == old(gamestate).paddle_size,
            r is Err ==> final(self).stepping == old(self).stepping,
            r is Err ==> final(gamestate).same_but_paddles(old(gamestate)),
            r is Ok ==> final(self).stepping == !old(self).stepping,
            r is Ok ==> final(gamestate).player_1_score == if old(gamestate).scorer() == 1 {
                score_after(old(gamestate).player_1_score)
            } else {
                old(gamestate).player_1_score
            },
            r is Ok ==> final(gamestate).player_2_score == if old(gamestate).scorer() == 2 {
                score_after(old(gamestate).player_2_score)
            } else {
                old(gamestate).player_2_score
            },
            r is Ok && old(gamestate).scorer() == 0 && !old(self).stepping ==> {
                &&& final(gamestate).ball_pos_x == old(gamestate).ball_pos_x
                &&& final(gamestate).ball_pos_y == old(gamestate).ball_pos_y
                &&& final(gamestate).ball_dx == old(gamestate).ball_dx
                &&& final(gamestate).ball_dy == old(gamestate).ball_dy
            },
            r is Ok && old(gamestate).scorer() != 0 && !old(self).stepping ==> {
                &&& final(gamestate).ball_centred()
                &&& final(gamestate).ball_dx == 1 || final(gamestate).ball_dx == -1
            },
            r is Ok && old(gamestate).scorer() == 0 && old(self).stepping ==> exists|draw: i8|
                final(gamestate).draw_ok(
                    old(gamestate).ball_pos_x,
                    old(gamestate).ball_pos_y,
                    old(gamestate).ball_dx,
                    draw,
                ) && #[trigger] final(gamestate).lands(
                    old(gamestate).ball_pos_x,
                    old(gamestate).ball_pos_y,
                    old(gamestate).ball_dx,
                    old(gamestate).ball_dy,
                    draw,
                ),
            r is Ok && old(gamestate).scorer() != 0 && old(self).stepping ==> exists|
                dx: i8,
                dy: i8,
                draw: i8,
            |
                (dx == 1 || dx == -1) && dir_ok(dy) && final(gamestate).draw_ok(
                    old(gamestate).map_width / 2,
                    old(gamestate).map_height / 2,
                    dx,
                    draw,
                ) && #[trigger] final(gamestate).lands(
                    old(gamestate).map_width / 2,
                    old(gamestate).map_height / 2,
                    dx,
                    dy,
                    draw,
                ),
    {
        let update_result = self.update_player_location(
            gamestate,
            read_1,
            buff_1,
            read_2,
            buff_2,
        );
        match update_result {
            Ok(_) => {
                self.calculate_next_frame(gamestate);
                let ghost pre = *gamestate;
                proof {
                    assert(pre.inv());
                    assert(pre.scorer() == 0);
                }
                if self.stepping {
                    self.step_ball(gamestate);
                    self.stepping = false;
                    proof {
                        let draw = choose|draw: i8|
                            pre.draw_ok(pre.ball_pos_x, pre.ball_pos_y, pre.ball_dx, draw)
                                && #[trigger] gamestate.lands(
                                pre.ball_pos_x,
                                pre.ball_pos_y,
                                pre.ball_dx,
                                pre.ball_dy,
                                draw,
                            );
                        lemma_step_keeps_inv(&pre, &*gamestate, draw);
                    }
                } else {
                    self.stepping = true;
                }
                Ok(())
            },
            Err(e) => Err(e),
        }
    }
}

/// A ball step from a state in which nobody scores keeps the match's
/// invariant.
proof fn lemma_step_keeps_inv<C>(pre: &GameState<C>, post: &GameState<C>, draw: i8)
    requires
        pre.inv(),
        pre.scorer() == 0,
        post.same_but_ball(pre),
        pre.draw_ok(pre.ball_pos_x, pre.ball_pos_y, pre.ball_dx, draw),
        post.lands(pre.ball_pos_x, pre.ball_pos_y, pre.ball_dx, pre.ball_dy, draw),
    ensures
        post.inv(),
{
    assert(pre.collision_at(pre.ball_pos_x, pre.ball_pos_y) == post.collision_at(
        pre.ball_pos_x,
        pre.ball_pos_y,
    ));
    if pre.collision_at(pre.ball_pos_x, pre.ball_pos_y) == Collision::Corner {
        if draw == 0 {
            assert(draw * pre.ball_dy == 0);
        } else {
            assert(draw == -1);
            assert(draw * pre.ball_dy == -pre.ball_dy);
        }
    }
}

/// A ball on a wall row and in a paddle column takes the corner rule,
/// whether or not a paddle covers it: it turns back horizontally and its
/// vertical direction is scaled by the draw, never merely reflected by the
/// wall nor sent off by the paddle rule.
pub proof fn lemma_corner_precedence<C>(
    state: &GameState<C>,
    x: u8,
    y: u8,
    dx: i8,
    dy: i8,
    draw: i8,
)
    requires
        y == 0 || y == state.map_height - 1,
        x == 2 || x == state.map_width - 3,
        dir_ok(dx),
        dir_ok(dy),
        -1 <= draw <= 0,
    ensures
        state.collision_at(x, y) == Collision::Corner,
        state.next_dx(x, y, dx) == -dx,
        state.next_dy(x, y, dy, draw) == draw * dy,
{
    assert(-1 <= draw * dy <= 1) by (nonlinear_arith)
        requires
            -1 <= draw <= 0,
            -1 <= dy <= 1,
    ;
}

/// The bounds of a paddle hit's new vertical direction.
fn paddle_dy_bounds(dx: i8) -> (r: (i8, i8))
    ensures
        r.0 == paddle_dy_low(dx),
        r.1 == paddle_dy_high(dx),
{
    if dx == -1 {
        (0, 1)
    } else if dx == 0 || dx == 1 {
        (-1, if dx == 0 { 1 } else { 0 })
    } else {
        (0, 0)
    }
}

} // verus!
