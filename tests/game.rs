use tictactoe::board::{Dir, State};
use tictactoe::game::{decode_key, Game, Input, Outcome, Step};

/// Presses move keys until the cursor is on `(x, y)`, then Enter.
fn pick(g: &mut Game, x: usize, y: usize) -> Step {
    loop {
        let (cx, cy) = g.board.highlighted.unwrap();
        if cx != x {
            assert_eq!(g.step('d'), Ok(Step::Moved));
        } else if cy != y {
            assert_eq!(g.step('s'), Ok(Step::Moved));
        } else {
            return g.step('\n').unwrap();
        }
    }
}

#[test]
fn keys_map_to_inputs() {
    assert_eq!(decode_key('w'), Some(Input::Move(Dir::Up)));
    assert_eq!(decode_key('a'), Some(Input::Move(Dir::Left)));
    assert_eq!(decode_key('s'), Some(Input::Move(Dir::Down)));
    assert_eq!(decode_key('d'), Some(Input::Move(Dir::Right)));
    assert_eq!(decode_key('\n'), Some(Input::Confirm));
    assert_eq!(decode_key('q'), None);
    assert_eq!(decode_key('W'), None);
}

#[test]
fn unknown_key_changes_nothing() {
    let mut g = Game::new();
    assert_eq!(g.step('x'), Ok(Step::Ignored));
    assert_eq!(g.board.highlighted, Some((1, 1)));
    assert_eq!(g.player, State::Cross);
}

#[test]
fn up_left_confirm_marks_the_corner() {
    let mut g = Game::new();
    assert_eq!(g.board.highlighted, Some((1, 1)));
    assert_eq!(g.step('w'), Ok(Step::Moved));
    assert_eq!(g.board.highlighted, Some((1, 0)));
    assert_eq!(g.step('a'), Ok(Step::Moved));
    assert_eq!(g.board.highlighted, Some((0, 0)));
    assert_eq!(g.step('\n'), Ok(Step::Placed));
    assert_eq!(g.board.grid[0][0].state, State::Cross);
    assert_eq!(g.player, State::Nought);
}

#[test]
fn occupied_cell_is_refused_and_the_turn_stays() {
    let mut g = Game::new();
    assert_eq!(g.step('\n'), Ok(Step::Placed));
    assert_eq!(g.player, State::Nought);
    assert_eq!(g.step('\n'), Ok(Step::Rejected));
    assert_eq!(g.board.grid[1][1].state, State::Cross);
    assert_eq!(g.player, State::Nought);
    assert_eq!(g.step('s'), Ok(Step::Moved));
    assert_eq!(g.step('\n'), Ok(Step::Placed));
    assert_eq!(g.board.grid[1][2].state, State::Nought);
    assert_eq!(g.board.grid[1][1].state, State::Cross);
}

#[test]
fn three_in_a_line_wins_for_the_first_player() {
    let mut g = Game::new();
    assert_eq!(pick(&mut g, 0, 0), Step::Placed);
    assert_eq!(pick(&mut g, 1, 0), Step::Placed);
    assert_eq!(pick(&mut g, 0, 1), Step::Placed);
    assert!(!g.board.did_won(State::Cross));
    assert_eq!(pick(&mut g, 1, 1), Step::Placed);
    let last = pick(&mut g, 0, 2);
    assert_eq!(last, Step::Over(Outcome::Won(State::Cross)));
    assert!(g.board.did_won(State::Cross));
    assert!(g.is_over());
    assert_eq!(Outcome::Won(State::Cross).message(), "Cross won!");
}

#[test]
fn diagonal_wins() {
    let mut g = Game::new();
    assert_eq!(pick(&mut g, 0, 0), Step::Placed);
    assert_eq!(pick(&mut g, 1, 0), Step::Placed);
    assert_eq!(pick(&mut g, 1, 1), Step::Placed);
    assert_eq!(pick(&mut g, 2, 0), Step::Placed);
    assert_eq!(pick(&mut g, 2, 2), Step::Over(Outcome::Won(State::Cross)));
    assert!(g.board.did_won(State::Cross));
    assert!(!g.board.did_won(State::Nought));
}

#[test]
fn second_player_can_win() {
    let mut g = Game::new();
    assert_eq!(pick(&mut g, 0, 0), Step::Placed);
    assert_eq!(pick(&mut g, 2, 0), Step::Placed);
    assert_eq!(pick(&mut g, 0, 1), Step::Placed);
    assert_eq!(pick(&mut g, 1, 1), Step::Placed);
    assert_eq!(pick(&mut g, 2, 2), Step::Placed);
    assert_eq!(pick(&mut g, 0, 2), Step::Over(Outcome::Won(State::Nought)));
    assert_eq!(Outcome::Won(State::Nought).message(), "Nought won!");
}

#[test]
fn full_board_without_a_line_is_a_draw() {
    let mut g = Game::new();
    let order = [(0, 0), (1, 0), (2, 0), (1, 1), (0, 1), (2, 1), (1, 2), (0, 2)];
    for (x, y) in order {
        assert_eq!(pick(&mut g, x, y), Step::Placed);
    }
    assert!(!g.board.is_full());
    assert_eq!(pick(&mut g, 2, 2), Step::Over(Outcome::Draw));
    assert!(g.board.is_full());
    assert!(!g.board.did_won(State::Cross));
    assert!(!g.board.did_won(State::Nought));
    assert_eq!(Outcome::Draw.message(), "Draw!");
}

#[test]
fn full_board_is_a_draw_even_with_a_line() {
    let mut g = Game::new();
    let order = [(0, 0), (1, 0), (2, 1), (2, 0), (0, 2), (0, 1), (2, 2), (1, 2)];
    for (x, y) in order {
        assert_eq!(pick(&mut g, x, y), Step::Placed);
    }
    assert_eq!(pick(&mut g, 1, 1), Step::Over(Outcome::Draw));
    assert!(g.board.did_won(State::Cross));
}

#[test]
fn finished_game_ignores_further_keys() {
    let mut g = Game::new();
    for (x, y) in [(0, 0), (1, 0), (1, 1), (2, 0)] {
        assert_eq!(pick(&mut g, x, y), Step::Placed);
    }
    assert_eq!(pick(&mut g, 2, 2), Step::Over(Outcome::Won(State::Cross)));
    let before = g.board.highlighted;
    assert_eq!(g.step('w'), Ok(Step::Over(Outcome::Won(State::Cross))));
    assert_eq!(g.board.highlighted, before);
}
