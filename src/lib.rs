//! A falling-block puzzle engine together with the integer machinery of an
//! evolutionary search for a placement heuristic.

pub mod ai;
pub mod controls;
pub mod game;
pub mod random;
pub mod tetromino;
