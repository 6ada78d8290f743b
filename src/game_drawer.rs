//! The cells of the client's grid and the cursor of the text renderer that
//! draws it.
use vstd::prelude::*;

verus! {

/// What one cell of the client's grid shows.
#[derive(Debug, Clone, Copy, PartialEq, Eq, Structural)]
pub enum Tile {
    Debug,
    Corner,
    HorizontalWall,
    VerticalWall,
    Ball,
    Player,
    Empty,
}

impl Tile {
    /// The glyph that a cell is drawn with.
    pub open spec fn glyph_of(self) -> char {
        match self {
            Tile::Player | Tile::Ball | Tile::Debug => '█',
            Tile::Corner => '+',
            Tile::VerticalWall => '|',
            Tile::HorizontalWall => '-',
            Tile::Empty => ' ',
        }
    }

    /// Executable form of `glyph_of`.
    pub fn glyph(&self) -> (r: char)
        ensures
            r == self.glyph_of(),
    {
        match self {
            Tile::Player | Tile::Ball | Tile::Debug => '█',
            Tile::Corner => '+',
            Tile::VerticalWall => '|',
            Tile::HorizontalWall => '-',
            Tile::Empty => ' ',
        }
    }
}

/// Where the renderer writes next, and the size of the grid it draws.
#[derive(Debug)]
pub struct GameRender {
    pub cursor_y: u16,
    pub cursor_x: i32,
    pub game_width: i32,
    pub game_height: i32,
}

impl GameRender {
    /// A renderer for a grid of the given size, cursor at the origin.
    pub fn setup_renderer(map_height: i32, map_width: i32) -> (r: Self)
        ensures
            r.cursor_y == 0,
            r.cursor_x == 0,
            r.game_width == map_width,
            r.game_height == map_height,
    {
        Self { cursor_y: 0, cursor_x: 0, game_width: map_width, game_height: map_height }
    }

    /// Moves the cursor back to the origin.
    pub fn cursor_reset(&mut self)
        ensures
            final(self).cursor_y == 0,
            final(self).cursor_x == 0,
            final(self).game_width == old(self).game_width,
            final(self).game_height == old(self).game_height,
    {
        self.cursor_y = 0;
        self.cursor_x = 0;
    }

    /// Moves the cursor to the start of the next line.
    pub fn cursor_newline(&mut self)
        requires
            old(self).cursor_y < u16::MAX,
        ensures
            final(self).cursor_y == old(self).cursor_y + 1,
            final(self).cursor_x == old(self).cursor_x,
            final(self).game_width == old(self).game_width,
            final(self).game_height == old(self).game_height,
    {
        self.cursor_y += 1;
    }
}

} // verus!
