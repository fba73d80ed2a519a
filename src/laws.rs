use vstd::prelude::*;

use crate::calculator::{step, StateView};
use crate::token::Token;

verus! {

/// The state of input in progress with the given buffer.
pub open spec fn editing(b: Seq<char>) -> StateView {
    StateView { buffer: b, showing_result: false }
}

/// A digit key appends its digit to any buffer other than the empty one and
/// the single `0`.
pub proof fn lemma_digit_appends(b: Seq<char>, d: Token)
    requires
        d.spec_is_digit(),
        b.len() > 0,
        b != seq!['0'],
    ensures
        step(editing(b), d) == editing(b.push(d.spec_symbol()->Some_0)),
{
}

/// Backspace removes the last character of the buffer, and leaves an empty
/// buffer as it is.
pub proof fn lemma_backspace_removes_last(b: Seq<char>)
    ensures
        b.len() == 0 ==> step(editing(b), Token::Backspace) == editing(b),
        b.len() > 0 ==> step(editing(b), Token::Backspace) == editing(b.subrange(0, b.len() - 1)),
{
}

/// Clear empties the buffer, from any state.
pub proof fn lemma_clear_empties(s: StateView)
    ensures
        step(s, Token::Clear) == editing(Seq::empty()),
{
}

/// After a shown result, a key other than `=` acts as it would on an empty
/// buffer of input in progress.
pub proof fn lemma_result_cleared_first(s: StateView, t: Token)
    requires
        s.showing_result,
        !(t is Equals),
    ensures
        step(s, t) == step(editing(Seq::empty()), t),
{
}

/// Clearing twice leaves the buffer as empty as clearing once.
pub proof fn lemma_clear_idempotent(s: StateView)
    ensures
        step(step(s, Token::Clear), Token::Clear) == editing(Seq::empty()),
{
}

} // verus!
