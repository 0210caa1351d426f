use vstd::prelude::*;

use crate::board::{Board, Cell, State};

verus! {

/// The text a cell's mark is drawn with.
pub open spec fn glyph_text(s: State) -> Seq<char> {
    match s {
        State::Empty => " "@,
        State::Cross => "x"@,
        State::Nought => "○"@,
    }
}

/// A cell as drawn: its glyph, on a light background when highlighted.
pub open spec fn cell_text(c: Cell) -> Seq<char> {
    if c.highlighted {
        "\x1b[47m"@ + glyph_text(c.state) + "\x1b[0m"@
    } else {
        glyph_text(c.state)
    }
}

/// Row `y` of the board as drawn, framed by vertical bars.
pub open spec fn row_text(b: Board, y: int) -> Seq<char> {
    "│ "@ + cell_text(b.grid[0][y]) + " │ "@ + cell_text(b.grid[1][y]) + " │ "@ + cell_text(
        b.grid[2][y],
    ) + " │\n\r"@
}

/// The whole board as drawn: three rows inside a box.
pub open spec fn board_text(b: Board) -> Seq<char> {
    "┌───┬───┬───┐\n\r"@ + row_text(b, 0) + "├───┼───┼───┤\n\r"@ + row_text(b, 1)
        + "├───┼───┼───┤\n\r"@ + row_text(b, 2) + "└───┴───┴───┘\n\r"@
}

impl State {
    /// The text this mark is drawn with.
    pub fn glyph(&self) -> (r: &'static str)
        ensures
            r@ == glyph_text(*self),
    {
        match self {
            State::Empty => " ",
            State::Cross => "x",
            State::Nought => "○",
        }
    }
}

/// Appends the drawing of cell `c` to `out`.
fn push_cell(out: &mut String, c: Cell)
    ensures
        final(out)@ == old(out)@ + cell_text(c),
{
    if c.highlighted {
        out.append("\x1b[47m");
        out.append(c.state.glyph());
        out.append("\x1b[0m");
        assert(final(out)@ =~= old(out)@ + cell_text(c));
    } else {
        out.append(c.state.glyph());
    }
}

impl Board {
    /// Appends the drawing of row `y` to `out`.
    fn push_row(&self, out: &mut String, y: usize)
        requires
            y < 3,
        ensures
            final(out)@ == old(out)@ + row_text(*self, y as int),
    {
        out.append("│ ");
        push_cell(out, self.grid[0][y]);
        out.append(" │ ");
        push_cell(out, self.grid[1][y]);
        out.append(" │ ");
        push_cell(out, self.grid[2][y]);
        out.append(" │\n\r");
        assert(final(out)@ =~= old(out)@ + row_text(*self, y as int));
    }

    /// The board drawn as text: a box of three rows of three cells, the
    /// highlighted cell on a light background.
    pub fn render(&self) -> (r: String)
        ensures
            r@ == board_text(*self),
    {
        let mut out = String::from_str("┌───┬───┬───┐\n\r");
        self.push_row(&mut out, 0);
        out.append("├───┼───┼───┤\n\r");
        self.push_row(&mut out, 1);
        out.append("├───┼───┼───┤\n\r");
        self.push_row(&mut out, 2);
        out.append("└───┴───┴───┘\n\r");
        assert(out@ =~= board_text(*self));
        out
    }
}

} // verus!
