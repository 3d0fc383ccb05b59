//! Small helpers on text that the other modules share.

use vstd::prelude::*;

verus! {

/// The text of a string that may be absent.
pub open spec fn option_text(text: Option<String>) -> Option<Seq<char>> {
    match text {
        Some(t) => Some(t@),
        None => None,
    }
}

/// A copy of a string that may be absent.
pub fn clone_option(text: &Option<String>) -> (copy: Option<String>)
    ensures
        option_text(copy) == option_text(*text),
{
    match text {
        Some(t) => Some(t.clone()),
        None => None,
    }
}

/// `String::push`: appends one character to the end of the string.
#[verifier::external_body]
pub(crate) fn push_char(text: &mut String, c: char)
    ensures
        final(text)@ == old(text)@.push(c),
{
    text.push(c);
}

/// Whether a character is kept when quotes are stripped: every character
/// but the double quote is.
pub open spec fn kept(c: char) -> bool {
    c != '"'
}

/// The text without its double quotes.
pub open spec fn unquoted(text: Seq<char>) -> Seq<char> {
    text.filter(|c: char| kept(c))
}

/// Takes every double quote out of a text and leaves the rest as it is.
pub fn strip_quotes(text: &str) -> (stripped: String)
    ensures
        stripped@ == unquoted(text@),
{
    let mut stripped = String::new();
    proof {
        reveal(Seq::filter);
    }
    for c in chars: text.chars()
        invariant
            chars.seq() == text@,
            stripped@ == unquoted(text@.take(chars.index() as int)),
    {
        proof {
            reveal(Seq::filter);
            let i = chars.index() as int;
            assert(text@.take(i + 1).drop_last() == text@.take(i));
            assert(text@.take(i + 1).last() == c);
        }
        if c != '"' {
            push_char(&mut stripped, c);
        }
    }
    proof {
        assert(text@.take(text@.len() as int) == text@);
    }
    stripped
}

} // verus!
