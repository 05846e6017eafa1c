//! Plain text from text styled with ANSI escape sequences.
use vstd::prelude::*;

verus! {

/// The printable content of `text`: what remains once its ANSI escape sequences are
/// removed, as `anstream` computes it.
pub uninterp spec fn ansi_stripped(text: Seq<char>) -> Seq<char>;

/// The text without its ANSI escape sequences (`anstream::adapter::strip_str`); the
/// result is named by `ansi_stripped`, a function of the text alone.
#[verifier::external_body]
pub fn unansi(string: &str) -> (r: String)
    ensures
        r@ == ansi_stripped(string@),
{
    anstream::adapter::strip_str(string).to_string()
}

} // verus!
