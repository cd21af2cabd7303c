//! The local time, read through `chrono`.

use vstd::prelude::*;

verus! {

pub open spec fn is_digit(c: char) -> bool {
    '0' <= c <= '9'
}

/// The shape of a `YYYY-MM-DD_HH-MM-SS` timestamp: it ends with four year
/// digits, '-', two month digits, '-', two day digits, '_', then hours,
/// minutes and seconds in two digits each, separated by '-' (the year may be
/// longer, with a sign, outside years 0 to 9999).
pub open spec fn timestamp_shape(t: Seq<char>) -> bool {
    let n = t.len() as int;
    &&& n >= 19
    &&& forall|i: int| n - 19 <= i < n - 15 ==> is_digit(#[trigger] t[i])
    &&& t[n - 15] == '-'
    &&& forall|i: int| n - 14 <= i < n - 12 ==> is_digit(#[trigger] t[i])
    &&& t[n - 12] == '-'
    &&& forall|i: int| n - 11 <= i < n - 9 ==> is_digit(#[trigger] t[i])
    &&& t[n - 9] == '_'
    &&& forall|i: int| n - 8 <= i < n - 6 ==> is_digit(#[trigger] t[i])
    &&& t[n - 6] == '-'
    &&& forall|i: int| n - 5 <= i < n - 3 ==> is_digit(#[trigger] t[i])
    &&& t[n - 3] == '-'
    &&& forall|i: int| n - 2 <= i < n ==> is_digit(#[trigger] t[i])
}

/// `chrono::Local::now().format("%Y-%m-%d_%H-%M-%S")`: the current local date
/// and time. Which instant it shows depends on the clock; the format is the
/// one chrono documents for these specifiers.
#[verifier::external_body]
pub(crate) fn local_timestamp() -> (r: String)
    ensures
        timestamp_shape(r@),
{
    chrono::Local::now().format("%Y-%m-%d_%H-%M-%S").to_string()
}

} // verus!
