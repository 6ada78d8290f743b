//! The client's side of the protocol: decoding the server's update
//! packets, encoding the local paddle position, and the local mirror of
//! the match that the renderer draws.
use crate::game_drawer::Tile;
use crate::gamemode::GameState;
use vstd::arithmetic::div_mod::{lemma_fundamental_div_mod, lemma_fundamental_div_mod_converse};
use vstd::prelude::*;

verus! {

/// An update packet as the client decodes it.
#[derive(Debug, Clone, Copy, PartialEq, Eq, Structural)]
pub struct GameUpdate {
    pub packet_id: u8,
    pub player_id: u8,
    pub player_1_pos: u8,
    pub player_2_pos: u8,
    pub ball_x: u8,
    pub ball_y: u8,
}

/// The update that the first six bytes of a packet stand for.
pub open spec fn update_of(b: Seq<u8>) -> GameUpdate {
    GameUpdate {
        packet_id: b[0],
        player_id: b[1],
        player_1_pos: b[2],
        player_2_pos: b[3],
        ball_x: b[4],
        ball_y: b[5],
    }
}

impl GameUpdate {
    /// Decodes an update packet: tag, recipient, both paddles, the ball.
    pub fn cast_packet(buf: &[u8]) -> (r: Self)
        requires
            buf@.len() >= 6,
        ensures
            r == update_of(buf@),
    {
        Self {
            packet_id: buf[0],
            player_id: buf[1],
            player_1_pos: buf[2],
            player_2_pos: buf[3],
            ball_x: buf[4],
            ball_y: buf[5],
        }
    }
}

/// Kind of a packet that the server sends.
#[derive(Debug, Clone, Copy, PartialEq, Eq, Structural)]
pub enum ServerPacket {
    /// Tag 0, at least 9 bytes: the initial state and map geometry.
    Snapshot,
    /// Tag 1, at least 6 bytes: the state of one tick.
    Update,
}

/// Tells a server packet's kind by its tag byte. An unknown tag, or a
/// packet too short for its kind, is refused with the tag.
pub fn decode_server_packet(buf: &[u8]) -> (r: Result<ServerPacket, u8>)
    requires
        buf@.len() >= 1,
    ensures
        buf@[0] == 0 && buf@.len() >= 9 ==> r == Ok::<ServerPacket, u8>(ServerPacket::Snapshot),
        buf@[0] == 1 && buf@.len() >= 6 ==> r == Ok::<ServerPacket, u8>(ServerPacket::Update),
        !(buf@[0] == 0 && buf@.len() >= 9) && !(buf@[0] == 1 && buf@.len() >= 6) ==> r == Err::<
            ServerPacket,
            u8,
        >(buf@[0]),
{
    if buf[0] == 0 && buf.len() >= 9 {
        Ok(ServerPacket::Snapshot)
    } else if buf[0] == 1 && buf.len() >= 6 {
        Ok(ServerPacket::Update)
    } else {
        Err(buf[0])
    }
}

/// Kind of a packet that the client sends.
#[derive(Debug, Clone, Copy, PartialEq, Eq, Structural)]
pub enum MessageType {
    PlayerPos,
    Shutdown,
}

/// The tag byte of a client packet.
pub open spec fn tag_of(t: MessageType) -> u8 {
    match t {
        MessageType::PlayerPos => 0,
        MessageType::Shutdown => 1,
    }
}

/// A packet from the client to the server.
#[derive(Debug, Clone, Copy, PartialEq, Eq, Structural)]
pub struct PlayerUpdate {
    pub packet_type: MessageType,
    pub data: u8,
}

impl PlayerUpdate {
    /// A position packet carrying the lowest byte of the position.
    pub fn position_update(position_i16: i32) -> (r: Self)
        ensures
            r.packet_type == MessageType::PlayerPos,
            r.data == position_i16 as u8,
            0 <= position_i16 <= 255 ==> r.data == position_i16,
    {
        let data = position_i16 as u8;
        Self { packet_type: MessageType::PlayerPos, data }
    }

    /// The two bytes on the wire: tag, then payload.
    pub fn as_bytes(&self) -> (r: Vec<u8>)
        ensures
            r@ == seq![tag_of(self.packet_type), self.data],
    {
        let tag: u8 = match self.packet_type {
            MessageType::PlayerPos => 0,
            MessageType::Shutdown => 1,
        };
        let mut v_data: Vec<u8> = Vec::new();
        v_data.push(tag);
        v_data.push(self.data);
        assert(v_data@ =~= seq![tag_of(self.packet_type), self.data]);
        v_data
    }
}

/// Decoding an update packet and encoding, for the same recipient, a state
/// that holds what it decoded gives back the packet byte for byte; for
/// player 2 alone the ball's column comes back mirrored.
pub proof fn lemma_update_round_trip<C>(bytes: Seq<u8>, state: GameState<C>)
    requires
        bytes.len() == 6,
        bytes[0] == 1,
        bytes[1] == 1 || bytes[1] == 2,
        state.player_1.player_pos == update_of(bytes).player_1_pos,
        state.player_2.player_pos == update_of(bytes).player_2_pos,
        state.ball_pos_x == update_of(bytes).ball_x,
        state.ball_pos_y == update_of(bytes).ball_y,
    ensures
        update_of(bytes).player_id == 1 ==> state.update_bytes(update_of(bytes).player_id)
            == bytes,
        update_of(bytes).player_id == 2 ==> state.update_bytes(update_of(bytes).player_id)
            == bytes.update(4, (state.map_width - bytes[4] - 1) as u8),
{
    assert(state.update_bytes(1) =~= bytes || bytes[1] == 2);
    assert(state.update_bytes(2) =~= bytes.update(4, (state.map_width - bytes[4] - 1) as u8)
        || bytes[1] == 1);
}

/// A directional input event of the local player.
#[derive(Debug, Clone, Copy, PartialEq, Eq, Structural)]
pub enum Key {
    Up,
    Down,
    /// Leaves the game.
    Backspace,
    /// Any other key, which does nothing.
    Other,
}

/// What the cell at column `x`, row `y` of a fresh grid shows: corners,
/// then paddles (column 2 for player 1, `w - 3` for player 2, each over its
/// span), then the side walls, then the top and bottom walls.
pub open spec fn initial_tile(x: int, y: int, w: int, h: int, p1: int, p2: int, ps: int) -> Tile {
    let side = x == 0 || x == w - 1;
    let end = y == 0 || y == h - 1;
    if side && end {
        Tile::Corner
    } else if (x == 2 && p1 - ps <= y <= p1 + ps) || (x == w - 3 && p2 - ps <= y <= p2 + ps) {
        Tile::Player
    } else if side {
        Tile::VerticalWall
    } else if end {
        Tile::HorizontalWall
    } else {
        Tile::Empty
    }
}

/// A cell's tile after writing `t` at `(x, y)`; `(cx, cy)` is the cell.
pub open spec fn put(old: Tile, cx: int, cy: int, x: int, y: int, t: Tile) -> Tile {
    if cx == x && cy == y {
        t
    } else {
        old
    }
}

/// The client's mirror of the match: what the last packets said, and the
/// grid the renderer draws, row by row (cell `i` is column `i % map_width`,
/// row `i / map_width`). Player 1's paddle is the local one on the left;
/// `player_2_y` tracks the opponent, drawn on the right.
#[derive(Debug)]
pub struct Game {
    pub packet_id: u8,
    pub player_id: u8,
    pub player_1_y: i32,
    pub player_2_y: i32,
    pub ball_pos_x: u8,
    pub ball_pos_y: u8,
    pub paddle_size: i32,
    pub map_width: i32,
    pub map_height: i32,
    pub map: Vec<Tile>,
}

impl Game {
    /// Every size and position fits a byte, and the grid has one tile per
    /// cell.
    pub open spec fn wf(&self) -> bool {
        &&& 0 <= self.map_width <= 255
        &&& 0 <= self.map_height <= 255
        &&& 0 <= self.paddle_size <= 255
        &&& 0 <= self.player_1_y <= 255
        &&& 0 <= self.player_2_y <= 255
        &&& self.map@.len() == self.map_width * self.map_height
    }

    /// The two mirrors agree on everything but the grid and the local
    /// paddle.
    pub open spec fn same_but_local(&self, other: &Self) -> bool {
        &&& self.packet_id == other.packet_id
        &&& self.player_id == other.player_id
        &&& self.player_2_y == other.player_2_y
        &&& self.ball_pos_x == other.ball_pos_x
        &&& self.ball_pos_y == other.ball_pos_y
        &&& self.paddle_size == other.paddle_size
        &&& self.map_width == other.map_width
        &&& self.map_height == other.map_height
    }

    /// An empty mirror, before the snapshot arrives.
    pub fn new() -> (r: Self)
        ensures
            r.wf(),
            r.map@.len() == 0,
            r.packet_id == 0 && r.player_id == 0,
            r.player_1_y == 0 && r.player_2_y == 0,
            r.ball_pos_x == 0 && r.ball_pos_y == 0,
            r.paddle_size == 0 && r.map_width == 0 && r.map_height == 0,
    {
        Self {
            packet_id: 0,
            player_id: 0,
            player_1_y: 0,
            player_2_y: 0,
            ball_pos_x: 0,
            ball_pos_y: 0,
            paddle_size: 0,
            map_width: 0,
            map_height: 0,
            map: Vec::new(),
        }
    }

    /// Sets the tile at `(x, y)`; a cell off the grid is left alone.
    fn set_tile(&mut self, x: i32, y: i32, t: Tile)
        requires
            old(self).wf(),
        ensures
            final(self).wf(),
            final(self).same_but_local(old(self)),
            final(self).player_1_y == old(self).player_1_y,
            final(self).map@.len() == old(self).map@.len(),
            forall|i: int|
                0 <= i < old(self).map@.len() ==> #[trigger] final(self).map@[i] == put(
                    old(self).map@[i],
                    i % old(self).map_width as int,
                    i / old(self).map_width as int,
                    x as int,
                    y as int,
                    t,
                ),
    {
        let ghost w = self.map_width as int;
        let ghost h = self.map_height as int;
        if 0 <= x && x < self.map_width && 0 <= y && y < self.map_height {
            proof {
                lemma_index(x as int, y as int, w, h);
            }
            let k = (y * self.map_width + x) as usize;
            self.map.set(k, t);
            assert forall|i: int| 0 <= i < self.map@.len() implies #[trigger] self.map@[i] == put(
                old(self).map@[i],
                i % w,
                i / w,
                x as int,
                y as int,
                t,
            ) by {
                lemma_cell(i, w, h);
                if i != k {
                    lemma_fundamental_div_mod(i, w);
                    lemma_fundamental_div_mod(k as int, w);
                }
            }
        } else {
            assert forall|i: int| 0 <= i < self.map@.len() implies #[trigger] self.map@[i] == put(
                old(self).map@[i],
                i % w,
                i / w,
                x as int,
                y as int,
                t,
            ) by {
                lemma_cell(i, w, h);
            }
        }
    }
}

/// The opponent's paddle position in an update, as this client sees it.
pub open spec fn opponent_of(player_id: u8, u: GameUpdate) -> u8 {
    if player_id == 1 {
        u.player_2_pos
    } else {
        u.player_1_pos
    }
}

impl Game {
    /// The tile that cell `(cx, cy)`, holding `before`, shows after the
    /// update `u`: the old ball cell is emptied and the new one gets the
    /// ball; of the opponent's column, the cells that the old paddle span
    /// covers and the new one does not are emptied, then the empty cells
    /// of the new span get the paddle.
    pub open spec fn mirror_tile(&self, before: Tile, cx: int, cy: int, u: GameUpdate) -> Tile {
        let w = self.map_width as int;
        let ps = self.paddle_size as int;
        let prev = self.player_2_y as int;
        let next = opponent_of(self.player_id, u) as int;
        let t1 = put(before, cx, cy, self.ball_pos_x as int, self.ball_pos_y as int, Tile::Empty);
        let t2 = put(t1, cx, cy, u.ball_x as int, u.ball_y as int, Tile::Ball);
        let t3 = if cx == w - 3 && prev - ps <= cy <= prev + ps && !(next - ps <= cy <= next + ps) {
            Tile::Empty
        } else {
            t2
        };
        if cx == w - 3 && next - ps <= cy <= next + ps && t3 == Tile::Empty {
            Tile::Player
        } else {
            t3
        }
    }

    /// This mirror follows `before` by a move of the local paddle to `p`
    /// that wrote `t1` at row `y1` and then `t2` at row `y2` of column 2.
    pub open spec fn local_moved(
        &self,
        before: &Self,
        p: int,
        y1: int,
        t1: Tile,
        y2: int,
        t2: Tile,
    ) -> bool {
        &&& self.same_but_local(before)
        &&& self.player_1_y == p
        &&& self.map@.len() == before.map@.len()
        &&& forall|i: int|
            0 <= i < before.map@.len() ==> #[trigger] self.map@[i] == put(
                put(
                    before.map@[i],
                    i % before.map_width as int,
                    i / before.map_width as int,
                    2,
                    y1,
                    t1,
                ),
                i % before.map_width as int,
                i / before.map_width as int,
                2,
                y2,
                t2,
            )
    }

    /// Builds the mirror from a snapshot packet: tag, recipient, both
    /// paddles, the ball, the map's width and height, the paddle
    /// half-length; and lays out the grid.
    pub fn initialize_game(&mut self, buf: &[u8])
        requires
            buf@.len() >= 9,
        ensures
            final(self).wf(),
            final(self).packet_id == buf@[0],
            final(self).player_id == buf@[1],
            final(self).player_1_y == buf@[2],
            final(self).player_2_y == buf@[3],
            final(self).ball_pos_x == buf@[4],
            final(self).ball_pos_y == buf@[5],
            final(self).map_width == buf@[6],
            final(self).map_height == buf@[7],
            final(self).paddle_size == buf@[8],
            forall|i: int|
                0 <= i < final(self).map@.len() ==> #[trigger] final(self).map@[i] == initial_tile(
                    i % buf@[6] as int,
                    i / buf@[6] as int,
                    buf@[6] as int,
                    buf@[7] as int,
                    buf@[2] as int,
                    buf@[3] as int,
                    buf@[8] as int,
                ),
    {
        let player_1: i32 = buf[2] as i32;
        let player_2: i32 = buf[3] as i32;
        let map_width: i32 = buf[6] as i32;
        let map_height: i32 = buf[7] as i32;
        let paddle_size: i32 = buf[8] as i32;
        assert(0 <= map_width * map_height <= 255 * 255) by (nonlinear_arith)
            requires
                0 <= map_width <= 255,
                0 <= map_height <= 255,
        ;
        let n: usize = (map_width * map_height) as usize;
        let mut map: Vec<Tile> = Vec::new();
        let mut i: usize = 0;
        while i < n
            invariant
                0 <= map_width <= 255,
                0 <= map_height <= 255,
                0 <= player_1 <= 255,
                0 <= player_2 <= 255,
                0 <= paddle_size <= 255,
                n == map_width * map_height,
                i <= n,
                map@.len() == i,
                forall|j: int|
                    0 <= j < i ==> #[trigger] map@[j] == initial_tile(
                        j % map_width as int,
                        j / map_width as int,
                        map_width as int,
                        map_height as int,
                        player_1 as int,
                        player_2 as int,
                        paddle_size as int,
                    ),
            decreases n - i,
        {
            proof {
                lemma_cell(i as int, map_width as int, map_height as int);
            }
            let x = (i % (map_width as usize)) as i32;
            let y = (i / (map_width as usize)) as i32;
            map.push(initial_tile_at(x, y, map_width, map_height, player_1, player_2, paddle_size));
            i += 1;
        }
        self.packet_id = buf[0];
        self.player_id = buf[1];
        self.player_1_y = player_1;
        self.player_2_y = player_2;
        self.ball_pos_x = buf[4];
        self.ball_pos_y = buf[5];
        self.map_width = map_width;
        self.map_height = map_height;
        self.paddle_size = paddle_size;
        self.map = map;
    }

    /// Moves the local paddle one row on an arrow key, while it stays off
    /// the walls, redrawing the two cells at its ends. Backspace asks to
    /// leave (`Err`); other keys do nothing.
    pub fn key_stroke_move(&mut self, key: Key) -> (r: Result<(), ()>)
        requires
            old(self).wf(),
        ensures
            final(self).wf(),
            key == Key::Backspace ==> r == Err::<(), ()>(()) && *final(self) == *old(self),
            key == Key::Other ==> r == Ok::<(), ()>(()) && *final(self) == *old(self),
            key == Key::Up ==> r == Ok::<(), ()>(()) && if old(self).player_1_y - old(
                self,
            ).paddle_size - 1 > 0 {
                final(self).local_moved(
                    old(self),
                    old(self).player_1_y - 1,
                    old(self).player_1_y - 1 - old(self).paddle_size,
                    Tile::Player,
                    old(self).player_1_y + old(self).paddle_size,
                    Tile::Empty,
                )
            } else {
                *final(self) == *old(self)
            },
            key == Key::Down ==> r == Ok::<(), ()>(()) && if old(self).player_1_y + old(
                self,
            ).paddle_size + 1 < old(self).map_height - 1 {
                final(self).local_moved(
                    old(self),
                    old(self).player_1_y + 1,
                    old(self).player_1_y - old(self).paddle_size,
                    Tile::Empty,
                    old(self).player_1_y + 1 + old(self).paddle_size,
                    Tile::Player,
                )
            } else {
                *final(self) == *old(self)
            },
    {
        match key {
            Key::Backspace => Err(()),
            Key::Up => {
                if self.player_1_y - self.paddle_size - 1 > 0 {
                    self.player_1_y -= 1;
                    let top = self.player_1_y - self.paddle_size;
                    let below = self.player_1_y + self.paddle_size + 1;
                    self.set_tile(2, top, Tile::Player);
                    self.set_tile(2, below, Tile::Empty);
                }
                Ok(())
            },
            Key::Down => {
                if self.player_1_y + self.paddle_size + 1 < self.map_height - 1 {
                    self.player_1_y += 1;
                    let above = self.player_1_y - self.paddle_size - 1;
                    let bottom = self.player_1_y + self.paddle_size;
                    self.set_tile(2, above, Tile::Empty);
                    self.set_tile(2, bottom, Tile::Player);
                }
                Ok(())
            },
            Key::Other => Ok(()),
        }
    }
}

impl Game {
    /// The tile at `(x, y)`, or `None` off the grid.
    fn tile_at(&self, x: i32, y: i32) -> (r: Option<Tile>)
        requires
            self.wf(),
        ensures
            match r {
                Some(t) => 0 <= x < self.map_width && 0 <= y < self.map_height && t
                    == self.map@[y * self.map_width + x],
                None => !(0 <= x < self.map_width && 0 <= y < self.map_height),
            },
    {
        if 0 <= x && x < self.map_width && 0 <= y && y < self.map_height {
            proof {
                lemma_index(x as int, y as int, self.map_width as int, self.map_height as int);
            }
            Some(self.map[(y * self.map_width + x) as usize])
        } else {
            None
        }
    }

    /// Applies an update packet: the opponent's paddle and the ball move,
    /// and only the cells they leave or enter are redrawn.
    pub fn update_game_state(&mut self, game_update: GameUpdate)
        requires
            old(self).wf(),
        ensures
            final(self).wf(),
            final(self).packet_id == old(self).packet_id,
            final(self).player_id == old(self).player_id,
            final(self).player_1_y == old(self).player_1_y,
            final(self).player_2_y == opponent_of(old(self).player_id, game_update),
            final(self).ball_pos_x == game_update.ball_x,
            final(self).ball_pos_y == game_update.ball_y,
            final(self).paddle_size == old(self).paddle_size,
            final(self).map_width == old(self).map_width,
            final(self).map_height == old(self).map_height,
            final(self).map@.len() == old(self).map@.len(),
            forall|i: int|
                0 <= i < old(self).map@.len() ==> #[trigger] final(self).map@[i] == old(
                    self,
                ).mirror_tile(
                    old(self).map@[i],
                    i % old(self).map_width as int,
                    i / old(self).map_width as int,
                    game_update,
                ),
    {
        let ghost w = self.map_width as int;
        let ghost h = self.map_height as int;
        let opponent_prev_pos = self.player_2_y;
        let opponent_new_pos: i32 = if self.player_id == 1 {
            game_update.player_2_pos as i32
        } else {
            game_update.player_1_pos as i32
        };
        self.player_2_y = opponent_new_pos;
        let old_ball_x = self.ball_pos_x as i32;
        let old_ball_y = self.ball_pos_y as i32;
        self.set_tile(old_ball_x, old_ball_y, Tile::Empty);
        self.ball_pos_x = game_update.ball_x;
        self.ball_pos_y = game_update.ball_y;
        self.set_tile(game_update.ball_x as i32, game_update.ball_y as i32, Tile::Ball);
        let ghost m2 = self.map@;
        let col = self.map_width - 3;
        let ps = self.paddle_size;
        let mut y = opponent_prev_pos - ps;
        while y <= opponent_prev_pos + ps
            invariant
                self.wf(),
                w == self.map_width,
                h == self.map_height,
                ps == self.paddle_size,
                col == w - 3,
                self.player_2_y == opponent_new_pos,
                0 <= opponent_new_pos <= 255,
                0 <= opponent_prev_pos <= 255,
                self.packet_id == old(self).packet_id,
                self.player_id == old(self).player_id,
                self.player_1_y == old(self).player_1_y,
                self.ball_pos_x == game_update.ball_x,
                self.ball_pos_y == game_update.ball_y,
                opponent_prev_pos - ps <= y <= opponent_prev_pos + ps + 1,
                self.map@.len() == m2.len(),
                forall|i: int|
                    0 <= i < m2.len() ==> #[trigger] self.map@[i] == if i % w == w - 3
                        && opponent_prev_pos - ps <= i / w < y && !(opponent_new_pos - ps <= i / w
                        <= opponent_new_pos + ps) {
                        Tile::Empty
                    } else {
                        m2[i]
                    },
            decreases opponent_prev_pos + ps + 1 - y,
        {
            if !(opponent_new_pos - ps <= y && y <= opponent_new_pos + ps) {
                self.set_tile(col, y, Tile::Empty);
            }
            y += 1;
        }
        let ghost m3 = self.map@;
        let mut y = opponent_new_pos - ps;
        while y <= opponent_new_pos + ps
            invariant
                self.wf(),
                w == self.map_width,
                h == self.map_height,
                ps == self.paddle_size,
                col == w - 3,
                self.player_2_y == opponent_new_pos,
                0 <= opponent_new_pos <= 255,
                self.packet_id == old(self).packet_id,
                self.player_id == old(self).player_id,
                self.player_1_y == old(self).player_1_y,
                self.ball_pos_x == game_update.ball_x,
                self.ball_pos_y == game_update.ball_y,
                opponent_new_pos - ps <= y <= opponent_new_pos + ps + 1,
                self.map@.len() == m3.len(),
                forall|i: int|
                    0 <= i < m3.len() ==> #[trigger] self.map@[i] == if i % w == w - 3
                        && opponent_new_pos - ps <= i / w < y && m3[i] == Tile::Empty {
                        Tile::Player
                    } else {
                        m3[i]
                    },
            decreases opponent_new_pos + ps + 1 - y,
        {
            let ghost before = self.map@;
            let is_empty = match self.tile_at(col, y) {
                Some(Tile::Empty) => true,
                _ => false,
            };
            if is_empty {
                self.set_tile(col, y, Tile::Player);
            }
            proof {
                assert forall|i: int| 0 <= i < m3.len() implies #[trigger] self.map@[i] == if i
                    % w == w - 3 && opponent_new_pos - ps <= i / w < y + 1 && m3[i]
                    == Tile::Empty {
                    Tile::Player
                } else {
                    m3[i]
                } by {
                    lemma_cell(i, w, h);
                    assert(before[i] == if i % w == w - 3 && opponent_new_pos - ps <= i / w < y
                        && m3[i] == Tile::Empty {
                        Tile::Player
                    } else {
                        m3[i]
                    });
                    if i % w == col && i / w == y {
                        let (q, r) = (i / w, i % w);
                        assert(i == y * w + col) by (nonlinear_arith)
                            requires
                                i == w * q + r,
                                q == y,
                                r == col,
                        ;
                    }
                }
            }
            y += 1;
        }
    }
}

/// Executable form of `initial_tile`.
fn initial_tile_at(x: i32, y: i32, w: i32, h: i32, p1: i32, p2: i32, ps: i32) -> (r: Tile)
    requires
        0 <= w <= 255,
        0 <= h <= 255,
        0 <= p1 <= 255,
        0 <= p2 <= 255,
        0 <= ps <= 255,
    ensures
        r == initial_tile(x as int, y as int, w as int, h as int, p1 as int, p2 as int, ps as int),
{
    let side = x == 0 || x == w - 1;
    let end = y == 0 || y == h - 1;
    if side && end {
        Tile::Corner
    } else if (x == 2 && p1 - ps <= y && y <= p1 + ps) || (x == w - 3 && p2 - ps <= y && y <= p2
        + ps) {
        Tile::Player
    } else if side {
        Tile::VerticalWall
    } else if end {
        Tile::HorizontalWall
    } else {
        Tile::Empty
    }
}

/// A cell index of a `w` by `h` grid names a column and a row on it.
proof fn lemma_cell(i: int, w: int, h: int)
    requires
        0 <= i < w * h,
        0 <= w,
        0 <= h,
    ensures
        w > 0,
        0 <= i % w < w,
        0 <= i / w < h,
        i == w * (i / w) + i % w,
{
    if w == 0 {
        assert(w * h == 0);
    }
    lemma_fundamental_div_mod(i, w);
    vstd::arithmetic::div_mod::lemma_mod_pos_bound(i, w);
    vstd::arithmetic::div_mod::lemma_div_pos_is_pos(i, w);
    if i / w >= h {
        assert(w * (i / w) >= w * h) by (nonlinear_arith)
            requires
                i / w >= h,
                w > 0,
        ;
    }
}

/// Column `x`, row `y` of a `w` by `h` grid is the cell `y * w + x`.
proof fn lemma_index(x: int, y: int, w: int, h: int)
    requires
        0 <= x < w <= 255,
        0 <= y < h <= 255,
    ensures
        0 <= y * w + x < w * h <= 255 * 255,
        (y * w + x) % w == x,
        (y * w + x) / w == y,
{
    lemma_fundamental_div_mod_converse(y * w + x, w, y, x);
    assert(0 <= y * w + x < w * h <= 255 * 255) by (nonlinear_arith)
        requires
            0 <= x < w <= 255,
            0 <= y < h <= 255,
    ;
}

} // verus!
