//! Small string helpers shared by the codecs and the state machine.

use vstd::prelude::*;
use vstd::string::StringExecFns;

verus! {

/// `String::push` appends the character to the end of the string.
pub assume_specification[ String::push ](s: &mut String, c: char)
    ensures
        final(s)@ == old(s)@.push(c),
;

/// `String::pop` removes the last character and returns it; on an empty
/// string it returns nothing and leaves the string empty.
pub assume_specification[ String::pop ](s: &mut String) -> (r: Option<char>)
    ensures
        old(s)@.len() == 0 ==> r.is_none() && final(s)@ == old(s)@,
        old(s)@.len() > 0 ==> r == Some(old(s)@.last()) && final(s)@ == old(s)@.drop_last(),
;

/// `String::clear` removes all contents.
pub assume_specification[ String::clear ](s: &mut String)
    ensures
        final(s)@ == Seq::<char>::empty(),
;

/// Whether two string slices hold the same characters.
pub(crate) fn str_eq(a: &str, b: &str) -> (r: bool)
    ensures
        r == (a@ == b@),
{
    a.to_owned() == b.to_owned()
}

/// The text `prefix` followed by `middle` followed by `suffix`.
pub(crate) fn join3(prefix: &str, middle: &str, suffix: &str) -> (r: String)
    ensures
        r@ == prefix@ + middle@ + suffix@,
{
    let mut out = String::from_str(prefix);
    out.append(middle);
    out.append(suffix);
    out
}

/// Removes a leading `prefix` with `str::strip_prefix`.
///
/// Trusted: a result is the rest of `line` behind `prefix`, and there is
/// none exactly when `line` does not start with `prefix`.
#[verifier::external_body]
pub(crate) fn strip_prefix<'a>(line: &'a str, prefix: &str) -> (r: Option<&'a str>)
    ensures
        match r {
            Some(rest) => line@ == prefix@ + rest@,
            None => !prefix@.is_prefix_of(line@),
        },
{
    line.strip_prefix(prefix)
}

} // verus!
