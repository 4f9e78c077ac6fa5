//! Laws on wide strings.
use crate::wide::{
    char_units, lemma_first_nul_unique, lemma_utf16_round_trip, lemma_utf16_split, utf16_lossy,
    utf16_units, WideString,
};
use vstd::prelude::*;

verus! {

/// A wide string is all units before the first zero unit, however many these are and
/// whatever comes after it.
pub proof fn lemma_text_runs_to_first_zero(units: Vec<u16>, n: int, r: Option<WideString>)
    requires
        call_ensures(WideString::new, (units,), r),
        0 <= n < units@.len(),
        units@[n] == 0,
        forall|i: int| 0 <= i < n ==> units@[i] != 0,
    ensures
        r matches Some(s) && s@.len() == n && forall|i: int| 0 <= i < n ==> s@[i] == units@[i],
{
    lemma_first_nul_unique(units@, n);
}

/// Without a zero unit there is no wide string.
pub proof fn lemma_no_text_without_zero(units: Vec<u16>, r: Option<WideString>)
    requires
        call_ensures(WideString::new, (units,), r),
        forall|i: int| 0 <= i < units@.len() ==> units@[i] != 0,
    ensures
        r is None,
{
}

/// The length of a wide string is the number of units before the first zero unit.
pub proof fn lemma_length_counts_units(units: Vec<u16>, n: int, s: WideString, len: usize)
    requires
        call_ensures(WideString::new, (units,), Some(s)),
        call_ensures(WideString::len, (&s,), len),
        0 <= n < units@.len(),
        units@[n] == 0,
        forall|i: int| 0 <= i < n ==> units@[i] != 0,
    ensures
        len == n,
{
    lemma_text_runs_to_first_zero(units, n, Some(s));
}

/// Two wide strings are the same where their units before the first zero are, one by one.
pub proof fn lemma_same_text_by_units(
    a: Vec<u16>,
    b: Vec<u16>,
    m: int,
    n: int,
    s: WideString,
    t: WideString,
    r: bool,
)
    requires
        call_ensures(WideString::new, (a,), Some(s)),
        call_ensures(WideString::new, (b,), Some(t)),
        call_ensures(WideString::same, (&s, &t), r),
        0 <= m < a@.len() && a@[m] == 0 && forall|i: int| 0 <= i < m ==> a@[i] != 0,
        0 <= n < b@.len() && b@[n] == 0 && forall|i: int| 0 <= i < n ==> b@[i] != 0,
    ensures
        r <==> m == n && forall|i: int| 0 <= i < m ==> a@[i] == b@[i],
{
    lemma_text_runs_to_first_zero(a, m, Some(s));
    lemma_text_runs_to_first_zero(b, n, Some(t));
    if m == n && forall|i: int| 0 <= i < m ==> a@[i] == b@[i] {
        assert(s@ =~= t@);
    }
    if s@ == t@ {
        assert forall|i: int| 0 <= i < m implies a@[i] == b@[i] by {
            assert(s@[i] == t@[i]);
        }
    }
}

/// Text without surrogates is read unit by unit: each unit is the number of its character.
pub proof fn lemma_plain_text_reads_unit_by_unit(s: WideString, text: String)
    requires
        call_ensures(WideString::to_string_lossy, (&s,), text),
        forall|i: int| 0 <= i < s@.len() ==> !(0xD800 <= #[trigger] s@[i] <= 0xDFFF),
    ensures
        text@.len() == s@.len(),
        forall|i: int| 0 <= i < s@.len() ==> text@[i] as int == s@[i],
{
    lemma_plain_units(s@);
}

proof fn lemma_plain_units(units: Seq<u16>)
    requires
        forall|i: int| 0 <= i < units.len() ==> !(0xD800 <= #[trigger] units[i] <= 0xDFFF),
    ensures
        utf16_lossy(units).len() == units.len(),
        forall|i: int| 0 <= i < units.len() ==> utf16_lossy(units)[i] as int == units[i],
    decreases units.len(),
{
    if units.len() > 0 {
        let rest = units.skip(1);
        assert forall|i: int| 0 <= i < rest.len() implies !(0xD800 <= #[trigger] rest[i]
            <= 0xDFFF) by {
            assert(rest[i] == units[i + 1]);
        }
        lemma_plain_units(rest);
        assert(!(0xD800 <= units[0] <= 0xDFFF));
        assert forall|i: int| 0 <= i < units.len() implies utf16_lossy(units)[i] as int
            == units[i] by {
            if i > 0 {
                assert(utf16_lossy(units)[i] == utf16_lossy(rest)[i - 1]);
                assert(rest[i - 1] == units[i]);
            }
        }
    }
}

/// A surrogate pair reads as the one character that UTF-16 has it for, and a surrogate by
/// itself as the replacement character.
pub proof fn lemma_surrogates_read(high: u16, low: u16, alone: u16)
    requires
        0xD800 <= high <= 0xDBFF,
        0xDC00 <= low <= 0xDFFF,
        0xD800 <= alone <= 0xDFFF,
    ensures
        utf16_lossy(seq![high, low]).len() == 1,
        utf16_lossy(seq![high, low])[0] as int == 0x10000 + (high - 0xD800) * 0x400 + (low
            - 0xDC00),
        utf16_lossy(seq![alone]).len() == 1,
        utf16_lossy(seq![alone])[0] as int == 0xFFFD,
{
    assert(seq![high, low].skip(2) =~= Seq::<u16>::empty());
    assert(seq![alone].skip(1) =~= Seq::<u16>::empty());
    reveal_with_fuel(utf16_lossy, 2);
}

/// Text may be read in parts, unless that parts a surrogate pair.
pub proof fn lemma_text_reads_in_parts(a: Seq<u16>, b: Seq<u16>)
    requires
        a.len() > 0 && b.len() > 0 ==> !(0xD800 <= a.last() <= 0xDBFF && 0xDC00 <= b[0] <= 0xDFFF),
    ensures
        utf16_lossy(a + b) == utf16_lossy(a) + utf16_lossy(b),
{
    lemma_utf16_split(a, b);
}

/// Within a text, a unit that is no surrogate reads as the character with its number, a
/// surrogate pair as the one character that UTF-16 has it for, and a surrogate without its other
/// half as the replacement character. What comes before and after reads as it does by itself.
pub proof fn lemma_unit_reads_within_text(
    before: (WideString, String),
    after: (WideString, String),
    unit: u16,
    low: u16,
    s: (WideString, String),
)
    requires
        call_ensures(WideString::to_string_lossy, (&before.0,), before.1),
        call_ensures(WideString::to_string_lossy, (&after.0,), after.1),
        call_ensures(WideString::to_string_lossy, (&s.0,), s.1),
    ensures
        s.0@ == before.0@ + seq![unit] + after.0@ && !(0xD800 <= unit <= 0xDFFF) ==> s.1@
            == before.1@ + seq![unit as char] + after.1@,
        s.0@ == before.0@ + seq![unit, low] + after.0@ && 0xD800 <= unit <= 0xDBFF && 0xDC00 <= low
            <= 0xDFFF ==> s.1@ == before.1@ + seq![
            (0x10000 + (unit - 0xD800) * 0x400 + (low - 0xDC00)) as char,
        ] + after.1@,
        s.0@ == before.0@ + seq![unit] + after.0@ && 0xD800 <= unit <= 0xDBFF && !(after.0@.len()
            > 0 && 0xDC00 <= after.0@[0] <= 0xDFFF) ==> s.1@ == before.1@ + seq!['\u{FFFD}']
            + after.1@,
        s.0@ == before.0@ + seq![unit] + after.0@ && 0xDC00 <= unit <= 0xDFFF && !(before.0@.len()
            > 0 && 0xD800 <= before.0@.last() <= 0xDBFF) ==> s.1@ == before.1@ + seq!['\u{FFFD}']
            + after.1@,
{
    let (a, b) = (before.0@, after.0@);
    assert(seq![unit].skip(1) =~= Seq::<u16>::empty());
    assert(seq![unit, low].skip(2) =~= Seq::<u16>::empty());
    reveal_with_fuel(utf16_lossy, 2);
    if 0xD800 <= unit <= 0xDBFF && 0xDC00 <= low <= 0xDFFF {
        lemma_utf16_split(a, seq![unit, low]);
        lemma_utf16_split(a + seq![unit, low], b);
    }
    if !(0xDC00 <= unit <= 0xDFFF && a.len() > 0 && 0xD800 <= a.last() <= 0xDBFF) && !(0xD800
        <= unit <= 0xDBFF && b.len() > 0 && 0xDC00 <= b[0] <= 0xDFFF) {
        lemma_utf16_split(a, seq![unit]);
        lemma_utf16_split(a + seq![unit], b);
    }
}

/// No units, no text.
pub proof fn lemma_empty_text(s: WideString, text: String)
    requires
        call_ensures(WideString::to_string_lossy, (&s,), text),
        s@.len() == 0,
    ensures
        text@.len() == 0,
{
}

/// The units of a text that is written in UTF-16 give the text back, and these units are
/// the character's number, or two surrogates that make it up.
pub proof fn lemma_utf16_text_reads_back(text: Seq<char>, c: char)
    ensures
        utf16_lossy(utf16_units(text)) == text,
        (c as int) < 0x10000 ==> char_units(c).len() == 1 && char_units(c)[0] == c as int,
        c as int >= 0x10000 ==> char_units(c).len() == 2 && 0xD800 <= char_units(c)[0] <= 0xDBFF
            && 0xDC00 <= char_units(c)[1] <= 0xDFFF && c as int == 0x10000 + (char_units(c)[0]
            - 0xD800) * 0x400 + (char_units(c)[1] - 0xDC00),
{
    lemma_utf16_round_trip(text);
}

} // verus!
