//! Regular expressions over raw bytes: where a pattern matches, and the text
//! with every match replaced.

use crate::error::Error;
use crate::text::{replace_spans, spliced};
use vstd::prelude::*;

verus! {

/// What searching `text` for `pattern` gives: the regions that match, from
/// the left and without overlap, each as the offset of its first byte and of
/// the byte behind its last; or the message with which the pattern is
/// refused.
pub uninterp spec fn regex_find_all(pattern: Seq<char>, text: Seq<u8>) -> Result<
    Seq<(usize, usize)>,
    Seq<char>,
>;

/// Compiles `pattern` with `regex::bytes::Regex::new` and collects the
/// offsets of the matches that `find_iter` yields on `text`. Nothing is
/// claimed of the outcome but that it depends on the pattern and the text
/// alone: a pattern that does not compile gives the error's message.
#[verifier::external_body]
fn find_all(pattern: &str, text: &[u8]) -> (r: Result<Vec<(usize, usize)>, String>)
    ensures
        match r {
            Ok(spans) => regex_find_all(pattern@, text@) == Ok::<Seq<(usize, usize)>, Seq<char>>(
                spans@,
            ),
            Err(message) => regex_find_all(pattern@, text@) == Err::<
                Seq<(usize, usize)>,
                Seq<char>,
            >(message@),
        },
{
    let re = regex::bytes::Regex::new(pattern).map_err(|e| e.to_string())?;
    Ok(re.find_iter(text).map(|m| (m.start(), m.end())).collect())
}

/// The outcome of a substitution, given what the search found: the text
/// with every match replaced, or nothing where the pattern was refused.
pub open spec fn substituted(
    found: Result<Seq<(usize, usize)>, Seq<char>>,
    text: Seq<u8>,
    replacement: Seq<u8>,
) -> Option<Seq<u8>> {
    match found {
        Ok(spans) => Some(spliced(text, spans, replacement)),
        Err(_) => None,
    }
}

/// Replaces every match of `pattern` in `text` by `replacement`, taken
/// literally, and leaves every other byte as it is. A pattern that does not
/// compile is a `Generic` failure that carries the compiler's message.
pub fn substitute(pattern: &str, text: &[u8], replacement: &[u8]) -> (r: Result<Vec<u8>, Error>)
    ensures
        match r {
            Ok(out) => substituted(regex_find_all(pattern@, text@), text@, replacement@) == Some(
                out@,
            ),
            Err(Error::Generic(message)) => regex_find_all(pattern@, text@) == Err::<
                Seq<(usize, usize)>,
                Seq<char>,
            >(message@),
            Err(_) => false,
        },
{
    match find_all(pattern, text) {
        Ok(spans) => Ok(replace_spans(text, &spans, replacement)),
        Err(message) => Err(Error::Generic(message)),
    }
}

} // verus!
