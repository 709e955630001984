//! The display surface: the board as three space-padded rows of
//! single-character glyphs, one row per three consecutive cells.

use vstd::prelude::*;
use crate::game_state::{verify_accepts, Cell};

verus! {

/// The single-character rendering of a cell: `.` for an empty cell and one
/// glyph per mark.
pub open spec fn glyph(c: Cell) -> char {
    match c {
        Cell::Empty => '.',
        Cell::MarkA => 'A',
        Cell::MarkB => 'B',
    }
}

/// One cell's rendering, space-padded.
pub open spec fn cell_text(c: Cell) -> Seq<char> {
    seq![' ', glyph(c), ' ']
}

/// One row's rendering: three consecutive cells, then a line break.
pub open spec fn row_text(b: Seq<Cell>, r: int) -> Seq<char> {
    cell_text(b[3 * r]) + cell_text(b[3 * r + 1]) + cell_text(b[3 * r + 2]) + seq!['\n']
}

/// The first `n` rows of the board's rendering.
pub open spec fn rows_text(b: Seq<Cell>, n: int) -> Seq<char>
    decreases n,
{
    if n <= 0 {
        Seq::empty()
    } else {
        rows_text(b, n - 1) + row_text(b, n - 1)
    }
}

/// The whole board's rendering: three rows of three columns.
pub open spec fn board_text(b: Seq<Cell>) -> Seq<char> {
    row_text(b, 0) + row_text(b, 1) + row_text(b, 2)
}

/// One cell's rendering as a string slice.
fn cell_str(c: Cell) -> (s: &'static str)
    ensures
        s@ == cell_text(c),
{
    proof {
        reveal_strlit(" . ");
        reveal_strlit(" A ");
        reveal_strlit(" B ");
    }
    let s: &'static str = match c {
        Cell::Empty => " . ",
        Cell::MarkA => " A ",
        Cell::MarkB => " B ",
    };
    proof {
        assert(s@ =~= cell_text(c));
    }
    s
}

/// Renders a nine-cell board row by row.
pub fn board_string(cells: &Vec<Cell>) -> (s: String)
    requires
        cells@.len() == 9,
    ensures
        s@ == board_text(cells@),
{
    let mut s = String::new();
    let mut k: usize = 0;
    while k < 9
        invariant
            k % 3 == 0,
            k <= 9,
            cells@.len() == 9,
            s@ =~= rows_text(cells@, (k as int) / 3),
        decreases 9 - k,
    {
        s.append(cell_str(cells[k]));
        s.append(cell_str(cells[k + 1]));
        s.append(cell_str(cells[k + 2]));
        s.append("\n");
        proof {
            reveal_strlit("\n");
            assert(s@ =~= rows_text(cells@, (k as int) / 3 + 1));
        }
        k += 3;
    }
    proof {
        reveal_with_fuel(rows_text, 4);
        assert(board_text(cells@) =~= rows_text(cells@, 3));
    }
    s
}

/// Where one cell's glyph stands in the rendered board: each row is ten
/// characters (three padded cells and a line break), and the glyph sits in
/// the middle of its padded cell.
pub open spec fn glyph_index(r: int, c: int) -> int {
    10 * r + 3 * c + 1
}

/// Law: the rendered board shows, at each position's place, exactly the
/// glyph of the cell at that position.
pub proof fn lemma_rendered_cell(b: Seq<Cell>, r: int, c: int)
    requires
        b.len() == 9,
        0 <= r < 3,
        0 <= c < 3,
    ensures
        board_text(b).len() == 30,
        board_text(b)[glyph_index(r, c)] == glyph(b[3 * r + c]),
{
}

/// Law: after a mark is committed at position `i`, the rendered board shows
/// that mark's glyph at that position's place, and a further verification at
/// `i` is rejected.
pub proof fn lemma_commit_visible(b: Seq<Cell>, i: int, m: Cell)
    requires
        b.len() == 9,
        0 <= i < 9,
        m != Cell::Empty,
    ensures
        board_text(b.update(i, m))[glyph_index(i / 3, i % 3)] == glyph(m),
        !verify_accepts(b.update(i, m), i),
{
    assert(3 * (i / 3) + (i % 3) == i) by (nonlinear_arith)
        requires
            0 <= i < 9,
    ;
    lemma_rendered_cell(b.update(i, m), i / 3, i % 3);
}

} // verus!
