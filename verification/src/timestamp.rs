//! The time of a record as text, which comes from `chrono`.

use vstd::prelude::*;

verus! {

/// Whether every character of the text is a decimal digit.
pub open spec fn all_digits(text: Seq<char>) -> bool {
    forall|i: int| 0 <= i < text.len() ==> '0' <= #[trigger] text[i] <= '9'
}

/// Whether the text is two decimal digits.
pub open spec fn is_two_digits(text: Seq<char>) -> bool {
    text.len() == 2 && all_digits(text)
}

/// Whether the text is a year: four digits, or a sign and four or more
/// digits.
pub open spec fn is_year(text: Seq<char>) -> bool {
    ||| text.len() == 4 && all_digits(text)
    ||| text.len() >= 5 && (text[0] == '+' || text[0] == '-') && all_digits(text.skip(1))
}

/// Whether the text is a fraction of a second: nothing, or a point and
/// three, six or nine digits.
pub open spec fn is_second_fraction(text: Seq<char>) -> bool {
    ||| text.len() == 0
    ||| (text.len() == 4 || text.len() == 7 || text.len() == 10) && text[0] == '.' && all_digits(
        text.skip(1),
    )
}

/// Whether the text is a date and time in UTC whose year takes the first
/// `year_len` characters: year, month and day parted by `-`, then `T`, then
/// hour, minute and second parted by `:`, a fraction of a second, and the
/// offset `+00:00`.
pub open spec fn is_utc_timestamp_with_year(text: Seq<char>, year_len: int) -> bool {
    &&& 4 <= year_len
    &&& year_len + 21 <= text.len()
    &&& is_year(text.subrange(0, year_len))
    &&& text[year_len] == '-'
    &&& is_two_digits(text.subrange(year_len + 1, year_len + 3))
    &&& text[year_len + 3] == '-'
    &&& is_two_digits(text.subrange(year_len + 4, year_len + 6))
    &&& text[year_len + 6] == 'T'
    &&& is_two_digits(text.subrange(year_len + 7, year_len + 9))
    &&& text[year_len + 9] == ':'
    &&& is_two_digits(text.subrange(year_len + 10, year_len + 12))
    &&& text[year_len + 12] == ':'
    &&& is_two_digits(text.subrange(year_len + 13, year_len + 15))
    &&& is_second_fraction(text.subrange(year_len + 15, text.len() - 6))
    &&& text.subrange(text.len() - 6, text.len() as int) == "+00:00"@
}

/// Whether the text is a date and time in UTC in the form of RFC 3339, such
/// as `2024-01-01T00:00:00.000000000+00:00`.
pub open spec fn is_utc_timestamp(text: Seq<char>) -> bool {
    exists|year_len: int| is_utc_timestamp_with_year(text, year_len)
}

/// `DateTime::<Utc>::from` on the system's clock and `DateTime::to_rfc3339`
/// of `chrono`: the time of the call as text. The text depends on the clock;
/// what holds of every reading is its form, with the offset `+00:00`. The
/// conversion takes a reading before 1970 as well as one after it, as far as
/// the years reach that `chrono` can hold, some 262,000 either way.
#[verifier::external_body]
pub(crate) fn utc_timestamp() -> (timestamp: String)
    ensures
        is_utc_timestamp(timestamp@),
{
    chrono::DateTime::<chrono::Utc>::from(std::time::SystemTime::now()).to_rfc3339()
}

/// A timestamp in UTC has at least 25 characters and ends with the offset
/// `+00:00`.
pub proof fn lemma_utc_timestamp_ends_with_offset(text: Seq<char>)
    requires
        is_utc_timestamp(text),
    ensures
        text.len() >= 25,
        text.subrange(text.len() - 6, text.len() as int) == "+00:00"@,
{
}

} // verus!
