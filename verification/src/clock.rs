//! The local wall clock, read through `chrono`.

use vstd::prelude::*;

verus! {

/// The pattern of the time stamp that an entry gets when its line has none:
/// month, day, hour, minute and second.
pub open spec fn entry_stamp_pattern() -> Seq<char> {
    "%m-%d %H:%M:%S"@
}

/// The pattern of the time stamp in the name of a log file: year, month and
/// day, then hour, minute and second.
pub open spec fn file_stamp_pattern() -> Seq<char> {
    "%Y%m%d_%H%M%S"@
}

/// Whether `c` is one of the digits `0` to `9`.
pub open spec fn is_digit(c: char) -> bool {
    '0' <= c <= '9'
}

/// Whether `s` has the form of the time stamp of an entry: month, a hyphen,
/// day, a space, and hour, minute and second with colons between, each of
/// two digits.
pub open spec fn is_entry_stamp(s: Seq<char>) -> bool {
    &&& s.len() == 14
    &&& s[2] == '-'
    &&& s[5] == ' '
    &&& s[8] == ':'
    &&& s[11] == ':'
    &&& forall|i: int| 0 <= i < 14 && i != 2 && i != 5 && i != 8 && i != 11 ==> is_digit(#[trigger] s[i])
}

/// Whether `s` has the form of the time stamp in the name of a log file: the
/// year, which takes four characters or more, then month and day, an
/// underscore, and hour, minute and second, each of two digits.
pub open spec fn is_file_stamp(s: Seq<char>) -> bool {
    &&& s.len() >= 15
    &&& s[s.len() - 7] == '_'
    &&& forall|i: int| s.len() - 11 <= i < s.len() && i != s.len() - 7 ==> is_digit(#[trigger] s[i])
}

/// `chrono::Local::now`, then `DateTime::format` with `pattern`, written out
/// as a string. The result is the local time at the moment of the call;
/// what is claimed of it is the form that the pattern gives to every time:
/// `chrono` writes month, day, hour, minute and second with two digits
/// each, the year with four characters or more, and the characters between
/// the specifiers as they are. Only the two patterns above are admitted:
/// both are made of specifiers that `chrono` knows, and a pattern that it
/// does not know makes the formatting fail.
#[verifier::external_body]
pub(crate) fn local_time(pattern: &str) -> (text: String)
    requires
        pattern@ == entry_stamp_pattern() || pattern@ == file_stamp_pattern(),
    ensures
        pattern@ == entry_stamp_pattern() ==> is_entry_stamp(text@),
        pattern@ == file_stamp_pattern() ==> is_file_stamp(text@),
{
    chrono::Local::now().format(pattern).to_string()
}

/// The local time as it stands in an entry without a time stamp of its own.
pub(crate) fn entry_stamp_now() -> (text: String)
    ensures
        is_entry_stamp(text@),
{
    local_time("%m-%d %H:%M:%S")
}

/// The local time as it stands in the name of a log file.
pub(crate) fn file_stamp_now() -> (text: String)
    ensures
        is_file_stamp(text@),
{
    local_time("%Y%m%d_%H%M%S")
}

} // verus!
