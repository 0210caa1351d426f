use vstd::prelude::*;

use crate::board::{in_grid, moved, Board, Dir, State};

verus! {

/// What a key asks of the game: a cursor move, or taking the cell under it.
#[derive(Debug, Copy, Clone, PartialEq, Eq, Structural)]
pub enum Input {
    Move(Dir),
    Confirm,
}

/// How a finished game ended.
#[derive(Debug, Copy, Clone, PartialEq, Eq, Structural)]
pub enum Outcome {
    Draw,
    Won(State),
}

/// What one key did to the game, and so what the screen should show next.
#[derive(Debug, Copy, Clone, PartialEq, Eq, Structural)]
pub enum Step {
    /// The key means nothing here: nothing changed.
    Ignored,
    /// The cursor moved.
    Moved,
    /// The cell under the cursor is taken: the same player picks again.
    Rejected,
    /// The player's mark went down and the turn passed to the other player.
    Placed,
    /// The game is over.
    Over(Outcome),
}

/// `w`, `a`, `s`, `d` move the cursor up, left, down and right; Enter
/// confirms; every other key means nothing.
pub open spec fn key_input(c: char) -> Option<Input> {
    if c == 'w' {
        Some(Input::Move(Dir::Up))
    } else if c == 'a' {
        Some(Input::Move(Dir::Left))
    } else if c == 's' {
        Some(Input::Move(Dir::Down))
    } else if c == 'd' {
        Some(Input::Move(Dir::Right))
    } else if c == '\n' {
        Some(Input::Confirm)
    } else {
        None
    }
}

/// The player whose turn follows `s`'s.
pub open spec fn other(s: State) -> State {
    match s {
        State::Cross => State::Nought,
        State::Nought => State::Cross,
        State::Empty => State::Empty,
    }
}

/// The line printed when a game ends.
pub open spec fn message_text(o: Outcome) -> Seq<char> {
    match o {
        Outcome::Draw => "Draw!"@,
        Outcome::Won(State::Cross) => "Cross won!"@,
        Outcome::Won(State::Nought) => "Nought won!"@,
        Outcome::Won(State::Empty) => "Empty won!"@,
    }
}

/// Reads one key.
pub fn decode_key(c: char) -> (r: Option<Input>)
    ensures
        r == key_input(c),
{
    if c == 'w' {
        Some(Input::Move(Dir::Up))
    } else if c == 'a' {
        Some(Input::Move(Dir::Left))
    } else if c == 's' {
        Some(Input::Move(Dir::Down))
    } else if c == 'd' {
        Some(Input::Move(Dir::Right))
    } else if c == '\n' {
        Some(Input::Confirm)
    } else {
        None
    }
}

impl Outcome {
    /// The line announcing this outcome.
    pub fn message(&self) -> (r: String)
        ensures
            r@ == message_text(*self),
    {
        match self {
            Outcome::Draw => String::from_str("Draw!"),
            Outcome::Won(State::Cross) => String::from_str("Cross won!"),
            Outcome::Won(State::Nought) => String::from_str("Nought won!"),
            Outcome::Won(State::Empty) => String::from_str("Empty won!"),
        }
    }
}

impl Board {
    /// Acts on one input while a player chooses a cell: a move steps the
    /// cursor and gives `None`; a confirmation gives the cursor position.
    pub fn get_place(&mut self, input: Input) -> (r: Result<Option<(usize, usize)>, String>)
        requires
            old(self).wf(),
        ensures
            final(self).wf(),
            final(self).same_marks(old(self)),
            match input {
                Input::Confirm => r == Ok::<Option<(usize, usize)>, String>(old(self).highlighted)
                    && *final(self) == *old(self),
                Input::Move(d) => match old(self).highlighted {
                    Some(p) => r == Ok::<Option<(usize, usize)>, String>(None)
                        && final(self).highlighted == Some(moved(p, d)),
                    None => r is Err && *final(self) == *old(self),
                },
            },
    {
        match input {
            Input::Confirm => Ok(self.highlighted),
            Input::Move(d) => match self.move_highlight(d) {
                Ok(()) => Ok(None),
                Err(e) => Err(e),
            },
        }
    }
}

/// A game in progress: the board, whose turn it is, and how it ended once it
/// has.
#[derive(Debug, Copy, Clone)]
pub struct Game {
    pub board: Board,
    pub player: State,
    pub outcome: Option<Outcome>,
}

impl Game {
    /// The board is well formed with a cursor on it, and the player to move
    /// holds a mark.
    pub open spec fn wf(&self) -> bool {
        &&& self.board.wf()
        &&& self.board.highlighted is Some
        &&& self.player != State::Empty
    }

    /// A fresh game: empty board, cursor on the centre, Cross to move.
    pub fn new() -> (r: Game)
        ensures
            r.wf(),
            r.board.highlighted == Some((1usize, 1usize)),
            forall|x: int, y: int| #![trigger r.board.state_of(x, y)]
                in_grid(x, y) ==> r.board.state_of(x, y) == State::Empty,
            r.player == State::Cross,
            r.outcome is None,
    {
        Game { board: Board::new(), player: State::Cross, outcome: None }
    }

    /// Whether the game has ended.
    pub fn is_over(&self) -> (r: bool)
        ensures
            r == self.outcome is Some,
    {
        self.outcome.is_some()
    }

    /// Handles one key. A move key steps the cursor; Enter puts the current
    /// player's mark on the cell under the cursor if it is empty, then ends
    /// the game in a draw if the board is full, or in a win if the player has
    /// a line, and otherwise passes the turn. An occupied cell is refused and
    /// the same player chooses again. Once the game is over nothing changes.
    pub fn step(&mut self, key: char) -> (r: Result<Step, String>)
        requires
            old(self).wf(),
        ensures
            final(self).wf(),
            r is Ok,
            final(self).board.keeps_marks(&old(self).board),
            old(self).outcome is Some ==> *final(self) == *old(self) && r == Ok::<Step, String>(
                Step::Over(old(self).outcome.unwrap()),
            ),
            old(self).outcome is None ==> match key_input(key) {
                None => r == Ok::<Step, String>(Step::Ignored) && *final(self) == *old(self),
                Some(Input::Move(d)) => r == Ok::<Step, String>(Step::Moved)
                    && final(self).board.highlighted == Some(
                    moved(old(self).board.highlighted.unwrap(), d),
                ) && final(self).board.same_marks(&old(self).board) && final(self).player == old(
                    self,
                ).player && final(self).outcome is None,
                Some(Input::Confirm) => {
                    let p = old(self).board.highlighted.unwrap();
                    if old(self).board.state_of(p.0 as int, p.1 as int) != State::Empty {
                        r == Ok::<Step, String>(Step::Rejected) && *final(self) == *old(self)
                    } else {
                        &&& final(self).board.placed(
                            &old(self).board,
                            p.0 as int,
                            p.1 as int,
                            old(self).player,
                        )
                        &&& if final(self).board.full() {
                            &&& r == Ok::<Step, String>(Step::Over(Outcome::Draw))
                            &&& final(self).outcome == Some(Outcome::Draw)
                            &&& final(self).player == old(self).player
                        } else if final(self).board.has_line(old(self).player) {
                            &&& r == Ok::<Step, String>(
                                Step::Over(Outcome::Won(old(self).player)),
                            )
                            &&& final(self).outcome == Some(Outcome::Won(old(self).player))
                            &&& final(self).player == old(self).player
                        } else {
                            &&& r == Ok::<Step, String>(Step::Placed)
                            &&& final(self).outcome is None
                            &&& final(self).player == other(old(self).player)
                        }
                    }
                },
            },
    {
        if let Some(o) = self.outcome {
            return Ok(Step::Over(o));
        }
        let input = match decode_key(key) {
            Some(i) => i,
            None => {
                return Ok(Step::Ignored);
            },
        };
        let place = match self.board.get_place(input) {
            Ok(Some(p)) => p,
            Ok(None) => {
                return Ok(Step::Moved);
            },
            Err(e) => {
                return Err(e);
            },
        };
        if !self.board.do_move(place, self.player) {
            return Ok(Step::Rejected);
        }
        if self.board.is_full() {
            self.outcome = Some(Outcome::Draw);
            return Ok(Step::Over(Outcome::Draw));
        }
        if self.board.did_won(self.player) {
            self.outcome = Some(Outcome::Won(self.player));
            return Ok(Step::Over(Outcome::Won(self.player)));
        }
        self.player = match self.player {
            State::Cross => State::Nought,
            _ => State::Cross,
        };
        Ok(Step::Placed)
    }
}

} // verus!
