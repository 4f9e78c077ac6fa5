//! Wide strings: text in 16-bit units that ends at the first zero unit.
use vstd::prelude::*;

verus! {

/// `n` is the place of the first zero unit.
pub open spec fn is_first_nul(units: Seq<u16>, n: int) -> bool {
    &&& 0 <= n < units.len()
    &&& units[n] == 0
    &&& forall|i: int| 0 <= i < n ==> units[i] != 0
}

/// The units before the first zero unit.
pub open spec fn until_nul(units: Seq<u16>) -> Seq<u16> {
    units.take(choose|n: int| is_first_nul(units, n))
}

/// A unit of the first half of a surrogate pair.
pub open spec fn is_high_surrogate(unit: u16) -> bool {
    0xD800 <= unit <= 0xDBFF
}

/// A unit of the second half of a surrogate pair.
pub open spec fn is_low_surrogate(unit: u16) -> bool {
    0xDC00 <= unit <= 0xDFFF
}

/// The character that a surrogate pair stands for.
pub open spec fn pair_char(high: u16, low: u16) -> char {
    (0x10000 + (high - 0xD800) * 0x400 + (low - 0xDC00)) as char
}

/// The text of UTF-16 units, in which a surrogate without its other half reads as the
/// replacement character.
pub open spec fn utf16_lossy(units: Seq<u16>) -> Seq<char>
    decreases units.len(),
{
    if units.len() == 0 {
        Seq::empty()
    } else if is_high_surrogate(units[0]) && units.len() > 1 && is_low_surrogate(units[1]) {
        seq![pair_char(units[0], units[1])] + utf16_lossy(units.skip(2))
    } else if is_high_surrogate(units[0]) || is_low_surrogate(units[0]) {
        seq!['\u{FFFD}'] + utf16_lossy(units.skip(1))
    } else {
        seq![units[0] as char] + utf16_lossy(units.skip(1))
    }
}

/// The UTF-16 units of one character.
pub open spec fn char_units(c: char) -> Seq<u16> {
    if (c as int) < 0x10000 {
        seq![(c as int) as u16]
    } else {
        seq![
            (0xD800 + (c as int - 0x10000) / 0x400) as u16,
            (0xDC00 + (c as int - 0x10000) % 0x400) as u16,
        ]
    }
}

/// The UTF-16 units of a text.
pub open spec fn utf16_units(text: Seq<char>) -> Seq<u16>
    decreases text.len(),
{
    if text.len() == 0 {
        Seq::empty()
    } else {
        char_units(text[0]) + utf16_units(text.skip(1))
    }
}

/// A character has a number of at most 0x10FFFF that is no surrogate.
proof fn lemma_char_range(c: char)
    ensures
        0 <= c as int <= 0xD7FF || 0xE000 <= c as int <= 0x10FFFF,
{
}

/// Reading the UTF-16 units of a text gives the text back: only units that are no
/// UTF-16 at all are replaced.
pub proof fn lemma_utf16_round_trip(text: Seq<char>)
    ensures
        utf16_lossy(utf16_units(text)) == text,
    decreases text.len(),
{
    if text.len() > 0 {
        let c = text[0];
        let rest = text.skip(1);
        let units = utf16_units(text);
        lemma_utf16_round_trip(rest);
        assert(text =~= seq![c] + rest);
        lemma_char_range(c);
        assert(units == char_units(c) + utf16_units(rest));
        if (c as int) < 0x10000 {
            assert(units[0] == c as int);
            assert(units.skip(1) =~= utf16_units(rest));
        } else {
            let offset = c as int - 0x10000;
            assert(units[0] == 0xD800 + offset / 0x400);
            assert(units[1] == 0xDC00 + offset % 0x400);
            assert(units.skip(2) =~= utf16_units(rest));
            assert((0x10000 + (units[0] - 0xD800) * 0x400 + (units[1] - 0xDC00)) == c as int);
        }
    }
}

/// Units may be read in parts, unless that parts a surrogate pair.
pub(crate) proof fn lemma_utf16_split(a: Seq<u16>, b: Seq<u16>)
    requires
        a.len() > 0 && b.len() > 0 ==> !(0xD800 <= a.last() <= 0xDBFF && 0xDC00 <= b[0] <= 0xDFFF),
    ensures
        utf16_lossy(a + b) == utf16_lossy(a) + utf16_lossy(b),
    decreases a.len(),
{
    let all = a + b;
    if a.len() == 0 {
        assert(all =~= b);
        assert(utf16_lossy(a) + utf16_lossy(b) =~= utf16_lossy(b));
    } else {
        let used: int = if is_high_surrogate(all[0]) && all.len() > 1 && is_low_surrogate(all[1]) {
            2
        } else {
            1
        };
        if a.len() == 1 && b.len() > 0 {
            assert(a.last() == all[0] && b[0] == all[1]);
        }
        assert(used <= a.len());
        lemma_utf16_split(a.skip(used), b);
        assert(all.skip(used) =~= a.skip(used) + b);
        let first = seq![utf16_lossy(all)[0]];
        assert(utf16_lossy(all) =~= first + utf16_lossy(all.skip(used)));
        assert(utf16_lossy(a) =~= first + utf16_lossy(a.skip(used)));
        assert(utf16_lossy(all) =~= utf16_lossy(a) + utf16_lossy(b));
    }
}

/// `std::string::String::push`: puts the character behind the text.
pub assume_specification[ String::push ](s: &mut String, c: char)
    ensures
        final(s)@ == old(s)@.push(c),
;

/// `char::from_u32`: the character with the given number. There is one exactly where
/// the number is at most 0x10FFFF and no surrogate.
pub assume_specification[ char::from_u32 ](i: u32) -> (r: Option<char>)
    ensures
        r is Some <==> (i <= 0xD7FF || 0xE000 <= i <= 0x10FFFF),
        r matches Some(c) ==> c as int == i,
;

/// Text in 16-bit units with a zero unit that ends it. Nothing after the first zero
/// unit is part of it.
#[derive(Debug)]
pub struct WideString {
    units: Vec<u16>,
}

impl View for WideString {
    type V = Seq<u16>;

    /// The units of the text, without the zero that ends it.
    closed spec fn view(&self) -> Seq<u16> {
        until_nul(self.units@)
    }
}

/// Where there is a zero unit, there is a first one.
proof fn lemma_first_nul_exists(units: Seq<u16>, n: int)
    requires
        0 <= n < units.len(),
        units[n] == 0,
    ensures
        exists|m: int| is_first_nul(units, m),
    decreases n,
{
    if exists|i: int| 0 <= i < n && units[i] == 0 {
        let i = choose|i: int| 0 <= i < n && units[i] == 0;
        lemma_first_nul_exists(units, i);
    } else {
        assert(is_first_nul(units, n));
    }
}

/// The first zero unit has only one place.
pub(crate) proof fn lemma_first_nul_unique(units: Seq<u16>, n: int)
    requires
        is_first_nul(units, n),
    ensures
        until_nul(units) == units.take(n),
{
    let m = choose|m: int| is_first_nul(units, m);
    assert(is_first_nul(units, m));
    assert(m == n);
}

impl WideString {
    #[verifier::type_invariant]
    spec fn has_end(self) -> bool {
        self.units@.contains(0)
    }

    /// Takes the units of a text together with the zero that ends it. Without a zero
    /// unit there is no text.
    pub fn new(units: Vec<u16>) -> (r: Option<WideString>)
        ensures
            r is Some <==> units@.contains(0),
            r matches Some(s) ==> s@ == until_nul(units@),
    {
        let mut i: usize = 0;
        while i < units.len()
            invariant
                i <= units.len(),
                forall|j: int| 0 <= j < i ==> units@[j] != 0,
            decreases units.len() - i,
        {
            if units[i] == 0 {
                return Some(WideString { units });
            }
            i = i + 1;
        }
        None
    }

    /// Finds the zero that ends the text.
    fn end(&self) -> (end: usize)
        ensures
            is_first_nul(self.units@, end as int),
            self@ == self.units@.take(end as int),
    {
        proof {
            use_type_invariant(self);
            lemma_first_nul_exists(self.units@, self.units@.index_of(0));
        }
        let total: usize = self.units.len();
        let ghost n = choose|n: int| is_first_nul(self.units@, n);
        let mut end: usize = 0;
        while self.units[end] != 0
            invariant
                total == self.units@.len(),
                is_first_nul(self.units@, n),
                end <= n,
                forall|j: int| 0 <= j < end ==> self.units@[j] != 0,
            decreases n - end,
        {
            end = end + 1;
        }
        proof {
            lemma_first_nul_unique(self.units@, end as int);
        }
        end
    }

    /// Returns the number of units before the zero that ends the text.
    pub fn len(&self) -> (len: usize)
        ensures
            len == self@.len(),
    {
        self.end()
    }

    /// Compares two texts unit by unit, up to and with the zero that ends them.
    pub fn same(&self, other: &WideString) -> (r: bool)
        ensures
            r == (self@ == other@),
    {
        proof {
            use_type_invariant(self);
            use_type_invariant(other);
            lemma_first_nul_exists(self.units@, self.units@.index_of(0));
            lemma_first_nul_exists(other.units@, other.units@.index_of(0));
        }
        let total: usize = self.units.len();
        let ghost n1 = choose|n: int| is_first_nul(self.units@, n);
        let ghost n2 = choose|n: int| is_first_nul(other.units@, n);
        proof {
            lemma_first_nul_unique(self.units@, n1);
            lemma_first_nul_unique(other.units@, n2);
        }
        let mut offset: usize = 0;
        loop
            invariant
                total == self.units@.len(),
                is_first_nul(self.units@, n1),
                is_first_nul(other.units@, n2),
                self@ == self.units@.take(n1),
                other@ == other.units@.take(n2),
                offset <= n1,
                offset <= n2,
                forall|j: int| 0 <= j < offset ==> self.units@[j] == other.units@[j],
            decreases n1 - offset,
        {
            let w1: u16 = self.units[offset];
            let w2: u16 = other.units[offset];
            if w1 == 0 && w2 == 0 {
                assert(self@ =~= other@);
                return true;
            }
            if w1 != w2 {
                proof {
                    if self@ == other@ {
                        assert(n1 == self@.len() && n2 == other@.len());
                        if offset < n1 {
                            assert(self@[offset as int] == w1);
                            assert(other@[offset as int] == w2);
                        }
                    }
                }
                return false;
            }
            offset = offset + 1;
        }
    }

    /// Reads the text as UTF-16. A surrogate without its other half becomes the
    /// replacement character.
    pub fn to_string_lossy(&self) -> (text: String)
        ensures
            text@ == utf16_lossy(self@),
    {
        let len: usize = self.end();
        let ghost units = self@;
        let mut text: String = String::new();
        let mut i: usize = 0;
        assert(units.skip(0) =~= units);
        assert(text@ + utf16_lossy(units) =~= utf16_lossy(units));
        while i < len
            invariant
                i <= len,
                units == self@,
                len == units.len(),
                len < self.units@.len(),
                units == self.units@.take(len as int),
                text@ + utf16_lossy(units.skip(i as int)) == utf16_lossy(units),
            decreases len - i,
        {
            let unit: u16 = self.units[i];
            let ghost before = text@;
            let ghost tail = units.skip(i as int);
            assert(unit == tail[0]);
            let mut code: u32 = unit as u32;
            let mut used: usize = 1;
            if 0xD800 <= unit && unit <= 0xDBFF && len - i > 1 {
                let next: u16 = self.units[i + 1];
                assert(next == tail[1]);
                if 0xDC00 <= next && next <= 0xDFFF {
                    code = 0x10000 + (unit as u32 - 0xD800) * 0x400 + (next as u32 - 0xDC00);
                    used = 2;
                }
            }
            match char::from_u32(code) {
                Some(c) => {
                    text.push(c);
                },
                None => {
                    text.push('\u{FFFD}');
                },
            }
            assert(tail.skip(used as int) =~= units.skip(i + used));
            assert(before.push(text@.last()) + utf16_lossy(units.skip(i + used)) =~= before + (
            seq![text@.last()] + utf16_lossy(tail.skip(used as int))));
            i = i + used;
        }
        assert(text@ + utf16_lossy(units.skip(len as int)) =~= text@);
        text
    }
}

} // verus!
