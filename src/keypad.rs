use vstd::prelude::*;

use crate::token::Token;

verus! {

/// The number of rows of the keypad.
pub const ROWS: usize = 5;

/// The number of buttons in each row of the keypad.
pub const COLUMNS: usize = 4;

/// The key at a slot of the keypad, counted from the top left; `None` for the
/// one blank slot, which has no key.
pub open spec fn key_at(row: int, col: int) -> Option<Token> {
    if row == 0 {
        if col == 0 { Some(Token::Clear) } else if col == 1 { Some(Token::Backspace) }
        else if col == 2 { Some(Token::Percent) } else { Some(Token::Divide) }
    } else if row == 1 {
        if col == 0 { Some(Token::Digit7) } else if col == 1 { Some(Token::Digit8) }
        else if col == 2 { Some(Token::Digit9) } else { Some(Token::Multiply) }
    } else if row == 2 {
        if col == 0 { Some(Token::Digit4) } else if col == 1 { Some(Token::Digit5) }
        else if col == 2 { Some(Token::Digit6) } else { Some(Token::Subtract) }
    } else if row == 3 {
        if col == 0 { Some(Token::Digit1) } else if col == 1 { Some(Token::Digit2) }
        else if col == 2 { Some(Token::Digit3) } else { Some(Token::Add) }
    } else {
        if col == 0 { None } else if col == 1 { Some(Token::Digit0) }
        else if col == 2 { Some(Token::DecimalSeparator) } else { Some(Token::Equals) }
    }
}

/// The keypad, row by row from the top.
pub fn keypad() -> (r: [[Option<Token>; 4]; 5])
    ensures
        forall|row: int, col: int|
            0 <= row < ROWS && 0 <= col < COLUMNS ==> #[trigger] r[row][col] == key_at(row, col),
{
    let r = [
        [Some(Token::Clear), Some(Token::Backspace), Some(Token::Percent), Some(Token::Divide)],
        [Some(Token::Digit7), Some(Token::Digit8), Some(Token::Digit9), Some(Token::Multiply)],
        [Some(Token::Digit4), Some(Token::Digit5), Some(Token::Digit6), Some(Token::Subtract)],
        [Some(Token::Digit1), Some(Token::Digit2), Some(Token::Digit3), Some(Token::Add)],
        [None, Some(Token::Digit0), Some(Token::DecimalSeparator), Some(Token::Equals)],
    ];
    assert(forall|row: int, col: int|
        0 <= row < ROWS && 0 <= col < COLUMNS ==> #[trigger] r[row][col] == key_at(row, col));
    r
}

} // verus!
