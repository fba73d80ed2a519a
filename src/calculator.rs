use vstd::prelude::*;

use crate::evaluate::{evaluate, evaluation_of};
use crate::token::Token;

verus! {

/// The calculator's state: the text typed so far, and whether that text is
/// the outcome of the last `=` rather than input in progress.
pub struct CalculatorState {
    pub buffer: String,
    pub showing_result: bool,
}

/// A calculator state as plain values.
pub struct StateView {
    pub buffer: Seq<char>,
    pub showing_result: bool,
}

impl View for CalculatorState {
    type V = StateView;

    open spec fn view(&self) -> StateView {
        StateView { buffer: self.buffer@, showing_result: self.showing_result }
    }
}

/// The text shown when the evaluator rejects an expression.
pub open spec fn error_text() -> Seq<char> {
    seq!['E', 'r', 'r', 'o', 'r']
}

/// The characters that the editing keys can write.
pub open spec fn is_input_char(c: char) -> bool {
    ||| '0' <= c <= '9'
    ||| c == '.'
    ||| c == '%'
    ||| c == '/'
    ||| c == '*'
    ||| c == '-'
    ||| c == '+'
}

impl StateView {
    /// Input in progress holds only characters that the keys write; a shown
    /// result holds whatever the evaluator produced, or the error text.
    pub open spec fn well_formed(self) -> bool {
        !self.showing_result ==> forall|i: int|
            0 <= i < self.buffer.len() ==> is_input_char(#[trigger] self.buffer[i])
    }
}

/// The buffer that a key press works on: a shown result is cleared first.
pub open spec fn input_base(s: StateView) -> Seq<char> {
    if s.showing_result {
        Seq::empty()
    } else {
        s.buffer
    }
}

/// What a key other than `=` does to the buffer.
pub open spec fn edited(b: Seq<char>, t: Token) -> Seq<char> {
    match t {
        Token::Clear => Seq::empty(),
        Token::Backspace => if b.len() == 0 {
            b
        } else {
            b.drop_last()
        },
        Token::Digit0 => if b == seq!['0'] {
            b
        } else {
            b.push('0')
        },
        _ => match t.spec_symbol() {
            Some(c) => b.push(c),
            None => b,
        },
    }
}

/// The text shown after `=`, given what the evaluator returned.
pub open spec fn shown_outcome(outcome: Option<Seq<char>>) -> Seq<char> {
    match outcome {
        Some(text) => text,
        None => error_text(),
    }
}

/// The state after one key press.
pub open spec fn step(s: StateView, t: Token) -> StateView {
    let b = input_base(s);
    if t is Equals {
        StateView { buffer: shown_outcome(evaluation_of(b)), showing_result: true }
    } else {
        StateView { buffer: edited(b, t), showing_result: false }
    }
}

/// The text of an optional string.
pub open spec fn text_of(o: Option<String>) -> Option<Seq<char>> {
    match o {
        Some(t) => Some(t@),
        None => None,
    }
}

/// Every key press keeps a state well formed.
pub proof fn lemma_step_well_formed(s: StateView, t: Token)
    requires
        s.well_formed(),
    ensures
        step(s, t).well_formed(),
{
    let b = input_base(s);
    if !(t is Equals) {
        let e = edited(b, t);
        assert forall|i: int| 0 <= i < e.len() implies is_input_char(#[trigger] e[i]) by {
            if i < b.len() {
                assert(e[i] == b[i]);
            }
        }
    }
}

impl CalculatorState {
    /// A calculator with an empty buffer and no result shown.
    pub fn new() -> (r: Self)
        ensures
            r@ == (StateView { buffer: Seq::empty(), showing_result: false }),
            r@.well_formed(),
    {
        CalculatorState { buffer: String::new(), showing_result: false }
    }

    /// Shows what the evaluator returned for the buffer: the value's text, or
    /// the error text where there was none.
    pub fn show_outcome(&mut self, outcome: Option<String>)
        ensures
            final(self)@ == (StateView { buffer: shown_outcome(text_of(outcome)), showing_result: true }),
    {
        self.showing_result = true;
        match outcome {
            Some(text) => {
                self.buffer = text;
            },
            None => {
                let error = "Error".to_string();
                proof {
                    reveal_strlit("Error");
                    assert(error@ =~= error_text());
                }
                self.buffer = error;
            },
        }
    }

    /// Applies a key other than `=` to input in progress.
    fn edit(&mut self, t: Token)
        requires
            !old(self).showing_result,
            !(t is Equals),
        ensures
            final(self)@ == (StateView { buffer: edited(old(self).buffer@, t), showing_result: false }),
    {
        match t {
            Token::Clear => self.buffer.clear(),
            Token::Backspace => {
                self.buffer.pop();
            },
            Token::Digit0 => {
                let zero = "0".to_string();
                proof {
                    reveal_strlit("0");
                    assert(zero@ =~= seq!['0']);
                }
                if !(self.buffer == zero) {
                    self.buffer.push('0');
                }
            },
            _ => {
                if let Some(c) = t.symbol() {
                    self.buffer.push(c);
                }
            },
        }
    }

    /// Applies one key press. After a shown result the buffer is cleared
    /// first; `=` then replaces the buffer with the evaluator's outcome.
    pub fn apply_token(&mut self, t: Token)
        requires
            old(self)@.well_formed(),
        ensures
            final(self)@ == step(old(self)@, t),
            final(self)@.well_formed(),
    {
        if self.showing_result {
            self.buffer.clear();
            self.showing_result = false;
        }
        if t.is_equals() {
            let outcome = evaluate(self.buffer.as_str());
            self.show_outcome(outcome);
        } else {
            self.edit(t);
        }
        proof {
            lemma_step_well_formed(old(self)@, t);
        }
    }
}

impl Default for CalculatorState {
    fn default() -> (r: Self)
        ensures
            r@ == (StateView { buffer: Seq::empty(), showing_result: false }),
    {
        CalculatorState::new()
    }
}

} // verus!
