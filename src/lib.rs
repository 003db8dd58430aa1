//! State machines and input validation for a matrix calculator and a
//! number-theory explorer; the arithmetic itself comes from `glucose`.

pub mod group_theory;
pub mod matrix;
pub mod number_theory;
pub mod text;
pub mod shell;
