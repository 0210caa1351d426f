//! Two-player noughts and crosses on a 3x3 grid: the board with its cursor,
//! win and draw detection, the text drawing of the board, and the turn logic
//! that turns key presses into moves.

pub mod board;
pub mod game;
pub mod render;
