//! What this library believes of code that it does not verify.
//!
//! Every item here stands for a function or a type of the standard library
//! or of another crate. Its contract is taken from the documentation of
//! that function and is not proved.

use vstd::prelude::*;

verus! {

/// A JSON value of `serde_json`. Goals, works and tasks are carried as such
/// values and never looked into.
#[verifier::external_type_specification]
#[verifier::external_body]
pub struct ExValue(serde_json::Value);

/// `String::push` appends one character to the end of the string.
pub assume_specification[ String::push ](s: &mut String, ch: char)
    ensures
        final(s)@ == old(s)@.push(ch),
;

/// `str` equality holds exactly when the two character sequences are equal.
pub assume_specification[ <str as PartialEq>::eq ](a: &str, b: &str) -> (equal: bool)
    ensures
        equal == (a@ == b@),
;

/// What `char::is_alphanumeric` answers for `c`: whether Unicode classes the
/// character as a letter or a number.
pub uninterp spec fn char_is_alphanumeric(c: char) -> bool;

/// `char::is_alphanumeric` depends on the character alone; its answer is
/// named, not spelled out.
pub assume_specification[ char::is_alphanumeric ](c: char) -> (alphanumeric: bool)
    ensures
        alphanumeric == char_is_alphanumeric(c),
;

/// What `std::path::is_separator` answers for `c`: whether the platform
/// that the library is built for separates path components on it.
pub uninterp spec fn is_path_separator(c: char) -> bool;

/// `std::path::is_separator` depends on the character and on the platform
/// that the library is built for, on nothing that changes while it runs.
/// Its answer is named; which characters separate is not claimed.
pub assume_specification[ std::path::is_separator ](c: char) -> (separator: bool)
    ensures
        separator == is_path_separator(c),
;

/// What `Path::join` makes of the path `base` extended by `child`, in the
/// path syntax of the platform.
pub uninterp spec fn path_join(base: Seq<char>, child: Seq<char>) -> Seq<char>;

/// `Path::join` on two paths given as text. Both are valid Unicode, hence
/// so is the joined path, and turning it back into text loses nothing.
#[verifier::external_body]
pub(crate) fn join_path(base: &str, child: &str) -> (joined: String)
    ensures
        joined@ == path_join(base@, child@),
{
    std::path::Path::new(base).join(child).to_string_lossy().into_owned()
}

/// `rand::random::<u64>()`: a number from the thread-local generator. It is
/// random, so nothing is claimed of it.
#[verifier::external_body]
pub(crate) fn random_u64() -> u64 {
    rand::random::<u64>()
}

/// `SystemTime::now()` as whole seconds since the Unix epoch, or `None`
/// where the clock stands before the epoch. It is the time, so nothing is
/// claimed of it.
#[verifier::external_body]
pub(crate) fn seconds_since_epoch() -> Option<u64> {
    std::time::SystemTime::now().duration_since(std::time::UNIX_EPOCH).ok().map(|d| d.as_secs())
}

} // verus!
