//! A verified Connect-4 board engine.
//!
//! The engine owns the board state and exposes a single state transition,
//! [`game::Game::play_on_column`], together with passive termination queries.
//! Every public operation carries a contract stated over the mathematical
//! model in [`rules`]; the laws that relate several moves are proved in
//! [`laws`]; the four line directions also stand alone as named win
//! conditions in [`win_conditions`], proved to recognise exactly the lines
//! the engine's scan does.

pub mod game;
pub mod laws;
pub mod rules;
pub mod win_conditions;
