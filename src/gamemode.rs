//! The authoritative state of one match, its wire encoding, and the
//! `Gamemode` trait with the rules that every mode shares: reading the
//! players' inputs, the scoring check and recentring.
use crate::player::{input_of, IoFailure, NewPlayer, Player, PlayerError};
use crate::standard::{MAP_HEIGHT, MAP_WIDTH, PADDLE_SIZE};
use crate::random::random_in;
use vstd::prelude::*;

verus! {

/// Which rule set a match is played by.
#[derive(Debug, Clone, Copy, PartialEq, Eq, Structural)]
pub enum Gamemodes {
    Standard,
}

/// A direction component: one of -1, 0, 1.
pub open spec fn dir_ok(d: i8) -> bool {
    -1 <= d <= 1
}

/// `pos + d` on a byte, wrapping around at both ends.
pub open spec fn wrap_step(pos: u8, d: i8) -> u8 {
    let v = pos + d;
    if v < 0 {
        (v + 256) as u8
    } else if v > 255 {
        (v - 256) as u8
    } else {
        v as u8
    }
}

/// `v` forced into `lo..=hi`.
pub open spec fn clamp(v: u8, lo: int, hi: int) -> u8 {
    if v < lo {
        lo as u8
    } else if v > hi {
        hi as u8
    } else {
        v
    }
}

/// A score one higher, wrapping to zero after 255.
pub open spec fn score_after(s: u8) -> u8 {
    if s == 255 {
        0
    } else {
        (s + 1) as u8
    }
}

/// The single source of truth for one match. `C` is the connection handle
/// that each player carries.
#[derive(Debug)]
pub struct GameState<C> {
    pub player_1: Player<C>,
    pub player_2: Player<C>,
    pub ball_pos_x: u8,
    pub ball_pos_y: u8,
    pub ball_dy: i8,
    pub ball_dx: i8,
    pub map_width: u8,
    pub map_height: u8,
    pub paddle_size: u8,
    pub player_1_score: u8,
    pub player_2_score: u8,
}

impl<C> GameState<C> {
    /// The map is wide enough for both paddle columns and a centre between
    /// them, and tall enough for a whole paddle between the walls.
    pub open spec fn geometry_ok(&self) -> bool {
        &&& 8 <= self.map_width
        &&& 3 <= self.map_height
        &&& 2 * self.paddle_size + 1 <= self.map_height
    }

    /// Lowest paddle centre that keeps the paddle on the map.
    pub open spec fn paddle_low(&self) -> int {
        self.paddle_size as int
    }

    /// Highest paddle centre that keeps the paddle on the map.
    pub open spec fn paddle_high(&self) -> int {
        self.map_height - 1 - self.paddle_size
    }

    /// The paddle centre is within bounds.
    pub open spec fn paddle_ok(&self, pos: u8) -> bool {
        self.paddle_low() <= pos <= self.paddle_high()
    }

    /// The state a match is in after every tick: directions in {-1, 0, 1},
    /// the ball between the scoring columns and on the map's rows, never
    /// heading out through the wall row it lies on, and both paddles on the
    /// map.
    pub open spec fn inv(&self) -> bool {
        &&& self.geometry_ok()
        &&& dir_ok(self.ball_dx)
        &&& dir_ok(self.ball_dy)
        &&& 1 <= self.ball_pos_x <= self.map_width - 3
        &&& self.ball_pos_y <= self.map_height - 1
        &&& self.ball_pos_y == 0 ==> self.ball_dy <= 0
        &&& self.ball_pos_y == self.map_height - 1 ==> self.ball_dy >= 0
        &&& self.paddle_ok(self.player_1.player_pos)
        &&& self.paddle_ok(self.player_2.player_pos)
    }

    /// The two states agree on everything but the ball's position and
    /// direction.
    pub open spec fn same_but_ball(&self, other: &Self) -> bool {
        &&& self.player_1 == other.player_1
        &&& self.player_2 == other.player_2
        &&& self.map_width == other.map_width
        &&& self.map_height == other.map_height
        &&& self.paddle_size == other.paddle_size
        &&& self.player_1_score == other.player_1_score
        &&& self.player_2_score == other.player_2_score
    }

    /// The ball sits in the middle of the map.
    pub open spec fn ball_centred(&self) -> bool {
        self.ball_pos_x == self.map_width / 2 && self.ball_pos_y == self.map_height / 2
    }

    /// Puts the ball back in the middle with a fresh random direction:
    /// left or right at random, and any vertical direction.
    pub fn reset_ball_to_center(&mut self)
        ensures
            final(self).same_but_ball(old(self)),
            final(self).ball_centred(),
            final(self).ball_dx == 1 || final(self).ball_dx == -1,
            dir_ok(final(self).ball_dy),
    {
        self.ball_pos_x = self.map_width / 2;
        self.ball_pos_y = self.map_height / 2;
        self.ball_dx = if random_in(0, 1) == 1 {
            1
        } else {
            -1
        };
        self.ball_dy = random_in(-1, 1);
    }

    /// Adds a point, wrapping, to player 1 or 2; any other index changes
    /// nothing.
    pub fn increment_score(&mut self, player_idx: u8)
        ensures
            final(self).same_but_scores(old(self)),
            final(self).player_1_score == if player_idx == 1 {
                score_after(old(self).player_1_score)
            } else {
                old(self).player_1_score
            },
            final(self).player_2_score == if player_idx == 2 {
                score_after(old(self).player_2_score)
            } else {
                old(self).player_2_score
            },
    {
        if player_idx == 1 {
            self.player_1_score = self.player_1_score.wrapping_add(1);
        } else if player_idx == 2 {
            self.player_2_score = self.player_2_score.wrapping_add(1);
        }
    }

    /// This state follows `before` by a point for player `who`: the score
    /// goes up by one, wrapping, and the ball restarts from the middle,
    /// heading left or right.
    pub open spec fn after_point(&self, before: &Self, who: u8) -> bool {
        &&& self.player_1 == before.player_1
        &&& self.player_2 == before.player_2
        &&& self.map_width == before.map_width
        &&& self.map_height == before.map_height
        &&& self.paddle_size == before.paddle_size
        &&& self.player_1_score == if who == 1 {
            score_after(before.player_1_score)
        } else {
            before.player_1_score
        }
        &&& self.player_2_score == if who == 2 {
            score_after(before.player_2_score)
        } else {
            before.player_2_score
        }
        &&& self.ball_centred()
        &&& self.ball_dx == 1 || self.ball_dx == -1
        &&& dir_ok(self.ball_dy)
    }

    /// The two states agree on everything but the scores.
    pub open spec fn same_but_scores(&self, other: &Self) -> bool {
        &&& self.player_1 == other.player_1
        &&& self.player_2 == other.player_2
        &&& self.map_width == other.map_width
        &&& self.map_height == other.map_height
        &&& self.paddle_size == other.paddle_size
        &&& self.ball_pos_x == other.ball_pos_x
        &&& self.ball_pos_y == other.ball_pos_y
        &&& self.ball_dx == other.ball_dx
        &&& self.ball_dy == other.ball_dy
    }

    /// Horizontal ball coordinate as a recipient sees it: player 2 sees the
    /// map mirrored, so that each client has its own paddle on the left.
    pub open spec fn ball_x_for(&self, recipient: u8) -> u8 {
        if recipient == 2 {
            (self.map_width - self.ball_pos_x - 1) as u8
        } else {
            self.ball_pos_x
        }
    }

    /// The update packet for a recipient: tag 1, recipient, both paddles,
    /// the ball.
    pub open spec fn update_bytes(&self, recipient: u8) -> Seq<u8> {
        seq![
            1u8,
            recipient,
            self.player_1.player_pos,
            self.player_2.player_pos,
            self.ball_x_for(recipient),
            self.ball_pos_y,
        ]
    }

    /// The snapshot packet for a recipient: tag 0, recipient, both paddles,
    /// the ball, then the map geometry and the paddle half-length.
    pub open spec fn snapshot_bytes(&self, recipient: u8) -> Seq<u8> {
        seq![
            0u8,
            recipient,
            self.player_1.player_pos,
            self.player_2.player_pos,
            self.ball_pos_x,
            self.ball_pos_y,
            self.map_width,
            self.map_height,
            self.paddle_size,
        ]
    }

    /// Encodes the update packet that one of the two players receives.
    pub fn encode_update(&self, recipient: u8) -> (r: Vec<u8>)
        requires
            recipient == 2 ==> self.ball_pos_x < self.map_width,
        ensures
            r@ == self.update_bytes(recipient),
    {
        let ball_x = if recipient == 2 {
            self.map_width - self.ball_pos_x - 1
        } else {
            self.ball_pos_x
        };
        let mut v_data: Vec<u8> = Vec::new();
        v_data.push(1);
        v_data.push(recipient);
        v_data.push(self.player_1.player_pos);
        v_data.push(self.player_2.player_pos);
        v_data.push(ball_x);
        v_data.push(self.ball_pos_y);
        assert(v_data@ =~= self.update_bytes(recipient));
        v_data
    }

    /// Encodes the snapshot packet that one of the two players receives.
    pub fn encode_snapshot(&self, recipient: u8) -> (r: Vec<u8>)
        ensures
            r@ == self.snapshot_bytes(recipient),
    {
        let mut v_data: Vec<u8> = Vec::new();
        v_data.push(0);
        v_data.push(recipient);
        v_data.push(self.player_1.player_pos);
        v_data.push(self.player_2.player_pos);
        v_data.push(self.ball_pos_x);
        v_data.push(self.ball_pos_y);
        v_data.push(self.map_width);
        v_data.push(self.map_height);
        v_data.push(self.paddle_size);
        assert(v_data@ =~= self.snapshot_bytes(recipient));
        v_data
    }
}

/// The first error of the two reads that ends the session, player 1's
/// first; a read timeout ends nothing.
pub open spec fn merged(
    a: Result<u8, PlayerError>,
    b: Result<u8, PlayerError>,
) -> Result<(), PlayerError> {
    match a {
        Err(e) => if e.is_fatal() {
            Err(e)
        } else {
            fatal_of(b)
        },
        Ok(_) => fatal_of(b),
    }
}

/// The read's error if it ends the session.
pub open spec fn fatal_of(a: Result<u8, PlayerError>) -> Result<(), PlayerError> {
    match a {
        Err(e) => if e.is_fatal() {
            Err(e)
        } else {
            Ok(())
        },
        Ok(_) => Ok(()),
    }
}

/// The paddle position that a read asks for, or the old one.
pub open spec fn pos_after(old: u8, input: Result<u8, PlayerError>) -> u8 {
    match input {
        Ok(p) => p,
        Err(_) => old,
    }
}

/// Executable form of `wrap_step`.
pub(crate) fn wrapped_step(pos: u8, d: i8) -> (r: u8)
    ensures
        r == wrap_step(pos, d),
{
    let v: i16 = pos as i16 + d as i16;
    if v < 0 {
        (v + 256) as u8
    } else if v > 255 {
        (v - 256) as u8
    } else {
        v as u8
    }
}

/// A paddle centre forced into `size ..= height - 1 - size`.
pub(crate) fn clamp_paddle(pos: u8, size: u8, height: u8) -> (r: u8)
    requires
        2 * size + 1 <= height,
    ensures
        r == clamp(pos, size as int, height - 1 - size),
{
    if pos < size {
        size
    } else if pos > height - 1 - size {
        height - 1 - size
    } else {
        pos
    }
}

/// The rules a game mode plays a match by. The scoring check, the input
/// handling and the packets are shared; a mode says how a match is set up
/// and how the ball steps.
pub trait Gamemode: Sized {
    /// Builds a match for two waiting players on the fixed map: paddles and
    /// ball centred, the ball heading right, scores at zero.
    fn setup_game<C>(player_1: NewPlayer<C>, player_2: NewPlayer<C>) -> (r: (
        Self,
        GameState<C>,
    ))
        ensures
            r.1.inv(),
            r.1.player_1.stream == player_1.tcp_stream,
            r.1.player_2.stream == player_2.tcp_stream,
            r.1.player_1.player_pos == MAP_HEIGHT / 2,
            r.1.player_2.player_pos == MAP_HEIGHT / 2,
            r.1.ball_pos_x == MAP_WIDTH / 2,
            r.1.ball_pos_y == MAP_HEIGHT / 2,
            r.1.ball_dx == 1,
            r.1.ball_dy == 0,
            r.1.map_width == MAP_WIDTH,
            r.1.map_height == MAP_HEIGHT,
            r.1.paddle_size == PADDLE_SIZE,
            r.1.player_1_score == 0,
            r.1.player_2_score == 0,
    ;

    /// One ball step, drawing at random what the rule that applies leaves
    /// open.
    fn step_ball<C>(&self, gamestate: &mut GameState<C>)
        requires
            dir_ok(old(gamestate).ball_dx),
            dir_ok(old(gamestate).ball_dy),
        ensures
            final(gamestate).same_but_ball(old(gamestate)),
            exists|draw: i8|
                old(gamestate).draw_ok(
                    old(gamestate).ball_pos_x,
                    old(gamestate).ball_pos_y,
                    old(gamestate).ball_dx,
                    draw,
                ) && #[trigger] final(gamestate).lands(
                    old(gamestate).ball_pos_x,
                    old(gamestate).ball_pos_y,
                    old(gamestate).ball_dx,
                    old(gamestate).ball_dy,
                    draw,
                ),
    ;

    /// The snapshot packet as first built, addressed to player 1.
    fn create_snapshot_packet<C>(&self, gamestate: &GameState<C>) -> (r: Vec<u8>)
        ensures
            r@ == gamestate.snapshot_bytes(1),
    {
        gamestate.encode_snapshot(1)
    }

    /// The update packet as first built, with no recipient (0) and the ball
    /// unmirrored.
    fn create_update_packet<C>(&self, gamestate: &GameState<C>) -> (r: Vec<u8>)
        ensures
            r@ == gamestate.update_bytes(0),
    {
        gamestate.encode_update(0)
    }

    /// Puts the ball in the middle of the map, direction unchanged.
    fn reset_ball_pos<C>(&self, gamestate: &mut GameState<C>)
        ensures
            final(gamestate).same_but_ball(old(gamestate)),
            final(gamestate).ball_centred(),
            final(gamestate).ball_dx == old(gamestate).ball_dx,
            final(gamestate).ball_dy == old(gamestate).ball_dy,
    {
        gamestate.ball_pos_x = gamestate.map_width / 2;
        gamestate.ball_pos_y = gamestate.map_height / 2;
    }

    /// Where the ball would be after moving one step in its direction.
    fn new_ball_pos<C>(&self, gamestate: &GameState<C>) -> (r: (u8, u8))
        ensures
            r == (
                wrap_step(gamestate.ball_pos_x, gamestate.ball_dx),
                wrap_step(gamestate.ball_pos_y, gamestate.ball_dy),
            ),
    {
        (
            wrapped_step(gamestate.ball_pos_x, gamestate.ball_dx),
            wrapped_step(gamestate.ball_pos_y, gamestate.ball_dy),
        )
    }

    /// Applies the outcome of this tick's read from each player. A paddle
    /// takes the position asked for, forced into the map; the result is
    /// the first error that ends the session, if any.
    fn update_player_location<C>(
        &self,
        gamestate: &mut GameState<C>,
        read_1: Result<usize, IoFailure>,
        buff_1: &[u8],
        read_2: Result<usize, IoFailure>,
        buff_2: &[u8],
    ) -> (r: Result<(), PlayerError>)
        requires
            old(gamestate).geometry_ok(),
            buff_1@.len() >= 2,
            buff_2@.len() >= 2,
        ensures
            final(gamestate).same_but_paddles(old(gamestate)),
            final(gamestate).player_1.player_pos == clamp(
                pos_after(old(gamestate).player_1.player_pos, input_of(read_1, buff_1@)),
                old(gamestate).paddle_low(),
                old(gamestate).paddle_high(),
            ),
            final(gamestate).player_2.player_pos == clamp(
                pos_after(old(gamestate).player_2.player_pos, input_of(read_2, buff_2@)),
                old(gamestate).paddle_low(),
                old(gamestate).paddle_high(),
            ),
            r == merged(input_of(read_1, buff_1@), input_of(read_2, buff_2@)),
    {
        let player_1_result = gamestate.player_1.updated_position(read_1, buff_1);
        let player_2_result = gamestate.player_2.updated_position(read_2, buff_2);
        gamestate.player_1.player_pos = clamp_paddle(
            gamestate.player_1.player_pos,
            gamestate.paddle_size,
            gamestate.map_height,
        );
        gamestate.player_2.player_pos = clamp_paddle(
            gamestate.player_2.player_pos,
            gamestate.paddle_size,
            gamestate.map_height,
        );
        match player_1_result {
            Err(e) => {
                if e.fatal() {
                    return Err(e);
                }
            },
            Ok(_) => {},
        }
        match player_2_result {
            Err(e) => {
                if e.fatal() {
                    return Err(e);
                }
            },
            Ok(_) => {},
        }
        Ok(())
    }

    /// The scoring check: a ball in column 1 scores for player 2, one in
    /// the column of player 2's paddle scores for player 1, and either
    /// puts the ball back in the middle with a fresh random direction.
    fn calculate_next_frame<C>(&self, gamestate: &mut GameState<C>)
        requires
            old(gamestate).map_width >= 3,
        ensures
            old(gamestate).scorer() == 0 ==> *final(gamestate) == *old(gamestate),
            old(gamestate).scorer() != 0 ==> final(gamestate).after_point(
                old(gamestate),
                old(gamestate).scorer(),
            ),
    {
        if gamestate.ball_pos_x == 1 {
            gamestate.player_2_score = gamestate.player_2_score.wrapping_add(1);
            gamestate.reset_ball_to_center();
        } else if gamestate.ball_pos_x == gamestate.map_width - 3 {
            gamestate.player_1_score = gamestate.player_1_score.wrapping_add(1);
            gamestate.reset_ball_to_center();
        }
    }
}

} // verus!
