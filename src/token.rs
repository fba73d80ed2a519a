use vstd::prelude::*;

verus! {

/// One press of a calculator button, independent of how the button is labelled.
#[derive(Clone, Copy, Debug, PartialEq, Eq, Structural, Hash)]
pub enum Token {
    Clear,
    Backspace,
    Percent,
    Divide,
    Multiply,
    Subtract,
    Add,
    Equals,
    DecimalSeparator,
    Digit0,
    Digit1,
    Digit2,
    Digit3,
    Digit4,
    Digit5,
    Digit6,
    Digit7,
    Digit8,
    Digit9,
}

impl Token {
    /// The ten digit keys.
    pub open spec fn spec_is_digit(self) -> bool {
        match self {
            Token::Digit0 | Token::Digit1 | Token::Digit2 | Token::Digit3 | Token::Digit4
            | Token::Digit5 | Token::Digit6 | Token::Digit7 | Token::Digit8 | Token::Digit9 => true,
            _ => false,
        }
    }

    /// The character that pressing this key writes into the buffer, for the
    /// keys that write one: every key except Clear, Backspace and Equals.
    pub open spec fn spec_symbol(self) -> Option<char> {
        match self {
            Token::Clear | Token::Backspace | Token::Equals => None,
            Token::Percent => Some('%'),
            Token::Divide => Some('/'),
            Token::Multiply => Some('*'),
            Token::Subtract => Some('-'),
            Token::Add => Some('+'),
            Token::DecimalSeparator => Some('.'),
            Token::Digit0 => Some('0'),
            Token::Digit1 => Some('1'),
            Token::Digit2 => Some('2'),
            Token::Digit3 => Some('3'),
            Token::Digit4 => Some('4'),
            Token::Digit5 => Some('5'),
            Token::Digit6 => Some('6'),
            Token::Digit7 => Some('7'),
            Token::Digit8 => Some('8'),
            Token::Digit9 => Some('9'),
        }
    }

    #[verifier::when_used_as_spec(spec_is_digit)]
    pub fn is_digit(self) -> (r: bool)
        ensures
            r == self.spec_is_digit(),
    {
        match self {
            Token::Digit0 | Token::Digit1 | Token::Digit2 | Token::Digit3 | Token::Digit4
            | Token::Digit5 | Token::Digit6 | Token::Digit7 | Token::Digit8 | Token::Digit9 => true,
            _ => false,
        }
    }

    /// The text on the key's button.
    pub open spec fn spec_label(self) -> Seq<char> {
        match self {
            Token::Clear => seq!['C'],
            Token::Backspace => seq!['\u{2190}'],
            Token::Percent => seq!['%'],
            Token::Divide => seq!['\u{f7}'],
            Token::Multiply => seq!['*'],
            Token::Subtract => seq!['-'],
            Token::Add => seq!['+'],
            Token::Equals => seq!['='],
            Token::DecimalSeparator => seq![','],
            Token::Digit0 => seq!['0'],
            Token::Digit1 => seq!['1'],
            Token::Digit2 => seq!['2'],
            Token::Digit3 => seq!['3'],
            Token::Digit4 => seq!['4'],
            Token::Digit5 => seq!['5'],
            Token::Digit6 => seq!['6'],
            Token::Digit7 => seq!['7'],
            Token::Digit8 => seq!['8'],
            Token::Digit9 => seq!['9'],
        }
    }

    pub fn label(self) -> (r: &'static str)
        ensures
            r@ == self.spec_label(),
    {
        let r = match self {
            Token::Clear => "C",
            Token::Backspace => "\u{2190}",
            Token::Percent => "%",
            Token::Divide => "\u{f7}",
            Token::Multiply => "*",
            Token::Subtract => "-",
            Token::Add => "+",
            Token::Equals => "=",
            Token::DecimalSeparator => ",",
            Token::Digit0 => "0",
            Token::Digit1 => "1",
            Token::Digit2 => "2",
            Token::Digit3 => "3",
            Token::Digit4 => "4",
            Token::Digit5 => "5",
            Token::Digit6 => "6",
            Token::Digit7 => "7",
            Token::Digit8 => "8",
            Token::Digit9 => "9",
        };
        proof {
            reveal_strlit("C");
            reveal_strlit("\u{2190}");
            reveal_strlit("%");
            reveal_strlit("\u{f7}");
            reveal_strlit("*");
            reveal_strlit("-");
            reveal_strlit("+");
            reveal_strlit("=");
            reveal_strlit(",");
            reveal_strlit("0");
            reveal_strlit("1");
            reveal_strlit("2");
            reveal_strlit("3");
            reveal_strlit("4");
            reveal_strlit("5");
            reveal_strlit("6");
            reveal_strlit("7");
            reveal_strlit("8");
            reveal_strlit("9");
        }
        assert(r@ =~= self.spec_label());
        r
    }

    pub fn is_equals(self) -> (r: bool)
        ensures
            r == (self is Equals),
    {
        match self {
            Token::Equals => true,
            _ => false,
        }
    }

    #[verifier::when_used_as_spec(spec_symbol)]
    pub fn symbol(self) -> (r: Option<char>)
        ensures
            r == self.spec_symbol(),
    {
        match self {
            Token::Clear | Token::Backspace | Token::Equals => None,
            Token::Percent => Some('%'),
            Token::Divide => Some('/'),
            Token::Multiply => Some('*'),
            Token::Subtract => Some('-'),
            Token::Add => Some('+'),
            Token::DecimalSeparator => Some('.'),
            Token::Digit0 => Some('0'),
            Token::Digit1 => Some('1'),
            Token::Digit2 => Some('2'),
            Token::Digit3 => Some('3'),
            Token::Digit4 => Some('4'),
            Token::Digit5 => Some('5'),
            Token::Digit6 => Some('6'),
            Token::Digit7 => Some('7'),
            Token::Digit8 => Some('8'),
            Token::Digit9 => Some('9'),
        }
    }
}

} // verus!
