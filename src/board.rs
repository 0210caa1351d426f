use vstd::prelude::*;

verus! {

/// What a cell of the board holds: nothing yet, or one of the two marks.
#[derive(Debug, Copy, Clone, PartialEq, Eq, Structural)]
pub enum State {
    Empty,
    Cross,
    Nought,
}

/// One square of the grid: its mark, and whether the cursor rests on it.
#[derive(Debug, Copy, Clone, PartialEq, Eq, Structural)]
pub struct Cell {
    pub state: State,
    pub highlighted: bool,
}

/// A direction in which the cursor can be moved.
#[derive(Debug, Copy, Clone, PartialEq, Eq, Structural)]
pub enum Dir {
    Left,
    Right,
    Up,
    Down,
}

/// The 3x3 grid, indexed `grid[x][y]` with `x` the column and `y` the row,
/// and the position of the highlighted cell, if any.
#[derive(Debug, Copy, Clone)]
pub struct Board {
    pub grid: [[Cell; 3]; 3],
    pub highlighted: Option<(usize, usize)>,
}

/// `(x, y)` names a cell of the grid.
pub open spec fn in_grid(x: int, y: int) -> bool {
    0 <= x < 3 && 0 <= y < 3
}

/// The cursor position reached from `p` by one step in direction `d`,
/// wrapping around on each axis.
pub open spec fn moved(p: (usize, usize), d: Dir) -> (usize, usize) {
    match d {
        Dir::Down => (p.0, ((p.1 + 1) % 3) as usize),
        Dir::Up => (p.0, ((p.1 + 2) % 3) as usize),
        Dir::Right => (((p.0 + 1) % 3) as usize, p.1),
        Dir::Left => (((p.0 + 2) % 3) as usize, p.1),
    }
}

/// The `i`-th cell of line `k`: lines `0..3` keep `x` fixed, lines `3..6` keep
/// `y` fixed, line 6 is the main diagonal and line 7 the other one.
pub open spec fn line_pos(k: int, i: int) -> (int, int) {
    if k < 3 {
        (k, i)
    } else if k < 6 {
        (i, k - 3)
    } else if k == 6 {
        (i, i)
    } else {
        (i, 2 - i)
    }
}

/// The cell of line `k` at position `i` along it.
fn line_cell(k: usize, i: usize) -> (r: (usize, usize))
    requires
        k < 8,
        i < 3,
    ensures
        r.0 as int == line_pos(k as int, i as int).0,
        r.1 as int == line_pos(k as int, i as int).1,
{
    if k < 3 {
        (k, i)
    } else if k < 6 {
        (i, k - 3)
    } else if k == 6 {
        (i, i)
    } else {
        (i, 2 - i)
    }
}

impl Board {
    pub open spec fn state_of(&self, x: int, y: int) -> State {
        self.grid[x][y].state
    }

    pub open spec fn lit(&self, x: int, y: int) -> bool {
        self.grid[x][y].highlighted
    }

    /// Exactly the cell under the cursor is highlighted, and the cursor lies
    /// on the grid; with no cursor, no cell is highlighted.
    pub open spec fn wf(&self) -> bool {
        match self.highlighted {
            Some(p) => p.0 < 3 && p.1 < 3 && forall|x: int, y: int|
                #![trigger self.lit(x, y)]
                in_grid(x, y) ==> (self.lit(x, y) <==> (x == p.0 && y == p.1)),
            None => forall|x: int, y: int| #![trigger self.lit(x, y)] in_grid(x, y) ==> !self.lit(x, y),
        }
    }

    /// Both boards hold the same mark in every cell.
    pub open spec fn same_marks(&self, other: &Board) -> bool {
        forall|x: int, y: int|
            #![trigger self.state_of(x, y)]
            #![trigger other.state_of(x, y)]
            in_grid(x, y) ==> self.state_of(x, y) == other.state_of(x, y)
    }

    /// Both boards highlight the same cells.
    pub open spec fn same_lights(&self, other: &Board) -> bool {
        forall|x: int, y: int|
            #![trigger self.lit(x, y)]
            #![trigger other.lit(x, y)]
            in_grid(x, y) ==> self.lit(x, y) == other.lit(x, y)
    }

    /// `self` is `before` with mark `s` written into the empty cell `(x, y)`
    /// and nothing else changed.
    pub open spec fn placed(&self, before: &Board, x: int, y: int, s: State) -> bool {
        &&& in_grid(x, y)
        &&& before.state_of(x, y) == State::Empty
        &&& self.state_of(x, y) == s
        &&& forall|i: int, j: int| #![trigger self.state_of(i, j)]
            in_grid(i, j) && !(i == x && j == y) ==> self.state_of(i, j) == before.state_of(i, j)
        &&& self.highlighted == before.highlighted
        &&& self.same_lights(before)
    }

    /// Every cell that holds a mark in `before` holds the same mark in `self`.
    pub open spec fn keeps_marks(&self, before: &Board) -> bool {
        forall|x: int, y: int| #![trigger self.state_of(x, y)]
            in_grid(x, y) && before.state_of(x, y) != State::Empty ==> self.state_of(x, y)
                == before.state_of(x, y)
    }

    /// Every cell holds a mark.
    pub open spec fn full(&self) -> bool {
        forall|x: int, y: int| #![trigger self.state_of(x, y)]
            in_grid(x, y) ==> self.state_of(x, y) != State::Empty
    }

    /// All three cells of line `k` hold `s`.
    pub open spec fn line_uniform(&self, k: int, s: State) -> bool {
        forall|i: int| #![trigger line_pos(k, i)]
            0 <= i < 3 ==> self.state_of(line_pos(k, i).0, line_pos(k, i).1) == s
    }

    /// One of the eight lines is filled with `s`.
    pub open spec fn has_line(&self, s: State) -> bool {
        exists|k: int| 0 <= k < 8 && #[trigger] self.line_uniform(k, s)
    }

    /// The board a game starts from: every cell empty, cursor on the centre.
    pub fn new() -> (r: Board)
        ensures
            r.wf(),
            r.highlighted == Some((1usize, 1usize)),
            forall|x: int, y: int| #![trigger r.state_of(x, y)]
                in_grid(x, y) ==> r.state_of(x, y) == State::Empty,
    {
        let mut r = Board::default();
        r.highlight(1, 1);
        r
    }

    /// Overwrites the mark of cell `(x, y)`; nothing else changes.
    pub fn modify(&mut self, x: usize, y: usize, set: State)
        requires
            x < 3,
            y < 3,
        ensures
            final(self).highlighted == old(self).highlighted,
            final(self).same_lights(old(self)),
            final(self).state_of(x as int, y as int) == set,
            forall|i: int, j: int| #![trigger final(self).state_of(i, j)]
                in_grid(i, j) && !(i == x && j == y) ==> final(self).state_of(i, j) == old(
                    self,
                ).state_of(i, j),
            old(self).wf() ==> final(self).wf(),
    {
        self.grid[x][y].state = set;
        assert(self.same_lights(old(self)));
    }

    /// Moves the highlight to cell `(x, y)`, clearing the previous one.
    pub fn highlight(&mut self, x: usize, y: usize)
        requires
            old(self).wf(),
            x < 3,
            y < 3,
        ensures
            final(self).wf(),
            final(self).highlighted == Some((x, y)),
            final(self).same_marks(old(self)),
    {
        match self.highlighted {
            Some(p) => {
                self.grid[p.0][p.1].highlighted = false;
            },
            None => {},
        }
        self.grid[x][y].highlighted = true;
        self.highlighted = Some((x, y));
        assert forall|i: int, j: int| in_grid(i, j) implies (self.lit(i, j) <==> (i == x && j
            == y)) by {
            assert(old(self).lit(i, j) ==> old(self).highlighted == Some((i as usize, j as usize)));
        }
    }

    /// Steps the highlight one cell in direction `dir`, wrapping around the
    /// edges; fails when no cell is highlighted.
    pub fn move_highlight(&mut self, dir: Dir) -> (r: Result<(), String>)
        requires
            old(self).wf(),
        ensures
            final(self).wf(),
            final(self).same_marks(old(self)),
            match old(self).highlighted {
                Some(p) => r is Ok && final(self).highlighted == Some(moved(p, dir)),
                None => r matches Err(e) && e@ == "no previous value"@ && *final(self) == *old(
                    self,
                ),
            },
    {
        match self.highlighted {
            None => Err(String::from_str("no previous value")),
            Some(p) => {
                let x = p.0;
                let y = p.1;
                let next = match dir {
                    Dir::Down => (x, (y + 1) % 3),
                    Dir::Up => (x, (y + 2) % 3),
                    Dir::Right => ((x + 1) % 3, y),
                    Dir::Left => ((x + 2) % 3, y),
                };
                self.highlight(next.0, next.1);
                Ok(())
            },
        }
    }

    /// Writes `state` into cell `place` if that cell is empty, and tells
    /// whether it did; an occupied cell is left as it is.
    pub fn do_move(&mut self, place: (usize, usize), state: State) -> (r: bool)
        requires
            place.0 < 3,
            place.1 < 3,
        ensures
            r == (old(self).state_of(place.0 as int, place.1 as int) == State::Empty),
            r ==> final(self).placed(old(self), place.0 as int, place.1 as int, state),
            !r ==> *final(self) == *old(self),
            final(self).keeps_marks(old(self)),
            old(self).wf() ==> final(self).wf(),
    {
        match self.grid[place.0][place.1].state {
            State::Empty => {
                self.modify(place.0, place.1, state);
                true
            },
            _ => false,
        }
    }

    /// Whether every cell holds a mark.
    pub fn is_full(&self) -> (r: bool)
        ensures
            r == self.full(),
    {
        let mut x: usize = 0;
        while x < 3
            invariant
                x <= 3,
                forall|i: int, j: int| #![trigger self.state_of(i, j)]
                    0 <= i < x && 0 <= j < 3 ==> self.state_of(i, j) != State::Empty,
            decreases 3 - x,
        {
            let mut y: usize = 0;
            while y < 3
                invariant
                    x < 3,
                    y <= 3,
                    forall|i: int, j: int| #![trigger self.state_of(i, j)]
                        (0 <= i < x && 0 <= j < 3) || (i == x && 0 <= j < y) ==> self.state_of(
                            i,
                            j,
                        ) != State::Empty,
                decreases 3 - y,
            {
                if let State::Empty = self.grid[x][y].state {
                    assert(self.state_of(x as int, y as int) == State::Empty);
                    return false;
                }
                y += 1;
            }
            x += 1;
        }
        true
    }

    /// Whether one of the eight lines is filled with `state`.
    pub fn did_won(&self, state: State) -> (r: bool)
        ensures
            r == self.has_line(state),
    {
        let mut k: usize = 0;
        while k < 8
            invariant
                k <= 8,
                forall|j: int| 0 <= j < k ==> !#[trigger] self.line_uniform(j, state),
            decreases 8 - k,
        {
            let a = line_cell(k, 0);
            let b = line_cell(k, 1);
            let c = line_cell(k, 2);
            if self.grid[a.0][a.1].state == state && self.grid[b.0][b.1].state == state
                && self.grid[c.0][c.1].state == state {
                assert(self.line_uniform(k as int, state));
                return true;
            }
            k += 1;
        }
        false
    }
}

/// Moving the cursor three times in one direction brings it back to where it
/// started, on either axis; so four moves land where one move does.
pub proof fn lemma_move_period(p: (usize, usize), d: Dir)
    requires
        p.0 < 3,
        p.1 < 3,
    ensures
        moved(moved(moved(p, d), d), d) == p,
        moved(moved(moved(moved(p, d), d), d), d) == moved(p, d),
{
}

impl Default for Board {
    /// An empty board with no cell highlighted.
    fn default() -> (r: Board)
        ensures
            r.wf(),
            r.highlighted.is_none(),
            forall|x: int, y: int| #![trigger r.state_of(x, y)]
                in_grid(x, y) ==> r.state_of(x, y) == State::Empty,
    {
        let c = Cell { state: State::Empty, highlighted: false };
        Board { grid: [[c, c, c], [c, c, c], [c, c, c]], highlighted: None }
    }
}

} // verus!
