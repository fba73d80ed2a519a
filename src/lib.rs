//! The input logic of a button-grid calculator: keystrokes accumulate into a
//! text buffer, and `=` hands that buffer to an arithmetic evaluator.

pub mod calculator;
pub mod evaluate;
pub mod keypad;
pub mod laws;
mod text;
pub mod token;

pub use calculator::CalculatorState;
pub use token::Token;
