use vstd::prelude::*;

use crate::obstacle::{Obstacle, ObstacleV};
use crate::player::Player;
use crate::SCREEN_HEIGHT;

verus! {

/// The palette the game draws with; the host maps each to its surface's
/// own color values.
#[derive(Clone, Copy, PartialEq, Eq, Structural, Debug)]
pub enum Color {
    Yellow,
    Black,
    Red,
    Navy,
}

/// One drawing directive for the host's render surface. The core computes
/// these; carrying them out is the host's work.
#[derive(Debug)]
pub enum RenderCmd {
    /// Clear the whole surface.
    Cls,
    /// Clear the whole surface to the given background color.
    ClsBg { bg: Color },
    /// Put one glyph at a cell.
    Glyph { x: i32, y: i32, fg: Color, bg: Color, glyph: char },
    /// Print text starting at a cell.
    Print { x: i32, y: i32, text: String },
    /// Print text centered on the given row.
    PrintCentered { y: i32, text: String },
}

/// `c` prints `text` centered on row `y`.
pub open spec fn cmd_is_centered(c: RenderCmd, y: int, text: Seq<char>) -> bool {
    &&& c matches RenderCmd::PrintCentered { y: row, text: t }
    &&& row as int == y
    &&& t@ == text
}

/// `c` prints `text` at cell `(x, y)`.
pub open spec fn cmd_is_print(c: RenderCmd, x: int, y: int, text: Seq<char>) -> bool {
    &&& c matches RenderCmd::Print { x: cx, y: cy, text: t }
    &&& cx as int == x
    &&& cy as int == y
    &&& t@ == text
}

/// `c` draws one obstacle cell: a red-on-navy `|` at screen column `sx`,
/// row `row`.
pub open spec fn cmd_is_bar(c: RenderCmd, sx: int, row: int) -> bool {
    &&& c matches RenderCmd::Glyph { x, y, fg, bg, glyph }
    &&& x as int == sx
    &&& y as int == row
    &&& fg == Color::Red
    &&& bg == Color::Navy
    &&& glyph == '|'
}

/// Rows covered by the solid top half of an obstacle: `0 .. gap_y - size/2`.
pub open spec fn top_bar_rows(o: ObstacleV) -> int {
    o.gap_y - o.size / 2
}

/// Rows covered by the solid bottom half: `gap_y + size/2 .. SCREEN_HEIGHT`.
pub open spec fn bottom_bar_rows(o: ObstacleV) -> int {
    SCREEN_HEIGHT as int - (o.gap_y + o.size / 2)
}

/// `s` is exactly the obstacle's drawing: one bar glyph per solid row, top
/// half first, at screen column `o.x - px` (the obstacle's position relative
/// to a player at world column `px`), leaving the gap band clear.
pub open spec fn obstacle_cmds_ok(s: Seq<RenderCmd>, o: ObstacleV, px: int) -> bool {
    let sx = o.x - px;
    let half = o.size / 2;
    &&& s.len() == top_bar_rows(o) + bottom_bar_rows(o)
    &&& forall|i: int| 0 <= i < top_bar_rows(o) ==> cmd_is_bar(#[trigger] s[i], sx, i)
    &&& forall|i: int|
        0 <= i < bottom_bar_rows(o) ==> cmd_is_bar(
            #[trigger] s[top_bar_rows(o) + i],
            sx,
            o.gap_y + half + i,
        )
}

impl Player {
    /// The player's drawing: a single yellow `>` in the leftmost column at
    /// its current row.
    pub fn render(&self) -> (c: RenderCmd)
        ensures
            c == (RenderCmd::Glyph {
                x: 0,
                y: self.y,
                fg: Color::Yellow,
                bg: Color::Black,
                glyph: '>',
            }),
    {
        RenderCmd::Glyph { x: 0, y: self.y, fg: Color::Yellow, bg: Color::Black, glyph: '>' }
    }
}

impl Obstacle {
    /// The obstacle's drawing, relative to a player at world column
    /// `player_x`: a `|` in every row above and below the gap band.
    pub fn render(&self, player_x: i32) -> (v: Vec<RenderCmd>)
        requires
            self@.wf(),
            i32::MIN <= self@.x - player_x as int <= i32::MAX,
        ensures
            obstacle_cmds_ok(v@, self@, player_x as int),
    {
        let screen_x = self.x - player_x;
        let half_size = self.size / 2;
        let mut v: Vec<RenderCmd> = Vec::new();

        let top_end = self.gap_y - half_size;
        let mut y: i32 = 0;
        while y < top_end
            invariant
                self@.wf(),
                top_end as int == top_bar_rows(self@),
                0 <= y as int <= top_bar_rows(self@),
                screen_x as int == self@.x - player_x as int,
                v@.len() == y as int,
                forall|i: int|
                    0 <= i < y as int ==> cmd_is_bar(#[trigger] v@[i], screen_x as int, i),
            decreases top_end - y,
        {
            v.push(RenderCmd::Glyph {
                x: screen_x,
                y,
                fg: Color::Red,
                bg: Color::Navy,
                glyph: '|',
            });
            y = y + 1;
        }

        let bottom_start = self.gap_y + half_size;
        let mut y: i32 = bottom_start;
        while y < SCREEN_HEIGHT
            invariant
                self@.wf(),
                bottom_start as int == self@.gap_y + self@.size / 2,
                bottom_start as int <= y as int <= SCREEN_HEIGHT as int,
                screen_x as int == self@.x - player_x as int,
                v@.len() == top_bar_rows(self@) + (y as int - bottom_start as int),
                forall|i: int|
                    0 <= i < top_bar_rows(self@) ==> cmd_is_bar(
                        #[trigger] v@[i],
                        screen_x as int,
                        i,
                    ),
                forall|i: int|
                    0 <= i < y as int - bottom_start as int ==> cmd_is_bar(
                        #[trigger] v@[top_bar_rows(self@) + i],
                        screen_x as int,
                        bottom_start as int + i,
                    ),
            decreases SCREEN_HEIGHT - y,
        {
            v.push(RenderCmd::Glyph {
                x: screen_x,
                y,
                fg: Color::Red,
                bg: Color::Navy,
                glyph: '|',
            });
            y = y + 1;
        }
        v
    }
}

} // verus!
