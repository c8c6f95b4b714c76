//! A two-agent grid game: a prisoner tries to reach an escape cell on a 7 by 7
//! grid while a guard tries to catch it first, driven through `reset` and `step`.

pub mod env;
pub mod laws;
mod random;
