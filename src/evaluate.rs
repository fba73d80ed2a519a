use vstd::prelude::*;

use crate::calculator::is_input_char;

verus! {

/// What the arithmetic evaluator makes of an expression: the standard text of
/// its floating-point value (which may be `inf` or `NaN`, as for `1/0` and
/// `0/0`), or `None` where it cannot evaluate the text.
pub uninterp spec fn evaluation_of(expr: Seq<char>) -> Option<Seq<char>>;

/// Relies on `meval::eval_str`, which parses the expression and evaluates it
/// with meval's built-in constants and functions, and on the standard decimal
/// text of the number it returns. Both depend on the expression alone.
/// meval's tokenizer panics on some texts outside the key characters (one made
/// of whitespace alone), so the expression is limited to those characters.
#[verifier::external_body]
pub(crate) fn evaluate(expr: &str) -> (r: Option<String>)
    requires
        forall|i: int| 0 <= i < expr@.len() ==> is_input_char(#[trigger] expr@[i]),
    ensures
        r is None <==> evaluation_of(expr@) is None,
        r matches Some(t) ==> evaluation_of(expr@) == Some(t@),
{
    match meval::eval_str(expr) {
        Ok(value) => Some(value.to_string()),
        Err(_) => None,
    }
}

} // verus!
