//! UTF-16 as Windows hands it out, where surrogates may stand alone.
use vstd::prelude::*;

verus! {

/// `char::from_u32` of std: the character with this code, which exists unless
/// the code is a surrogate or too large.
pub assume_specification[ char::from_u32 ](i: u32) -> (r: Option<char>)
    ensures
        r is Some <==> (i < 0xD800 || 0xE000 <= i <= 0x10FFFF),
        r matches Some(c) ==> c as int == i,
;

/// What stands for a unit that has no meaning where it is.
pub const REPLACEMENT: char = '\u{FFFD}';

/// The first unit of a surrogate pair.
pub open spec fn is_high(unit: u16) -> bool {
    0xD800 <= unit < 0xDC00
}

/// The second unit of a surrogate pair.
pub open spec fn is_low(unit: u16) -> bool {
    0xDC00 <= unit < 0xE000
}

/// The code that a surrogate pair stands for.
pub open spec fn pair_code(high: u16, low: u16) -> int {
    0x10000 + (high - 0xD800) * 0x400 + (low - 0xDC00)
}

/// The text that `units` encode. A surrogate without its partner counts as a
/// replacement character.
pub open spec fn utf16_text(units: Seq<u16>) -> Seq<char>
    decreases units.len(),
{
    if units.len() == 0 {
        Seq::empty()
    } else if !is_high(units[0]) && !is_low(units[0]) {
        seq![(units[0] as int) as char] + utf16_text(units.skip(1))
    } else if is_high(units[0]) && units.len() > 1 && is_low(units[1]) {
        seq![pair_code(units[0], units[1]) as char] + utf16_text(units.skip(2))
    } else {
        seq![REPLACEMENT] + utf16_text(units.skip(1))
    }
}

/// The text that the first `len` units of `units` encode.
pub fn decode(units: &Vec<u16>, len: usize) -> (r: String)
    requires
        len <= units@.len(),
    ensures
        r@ == utf16_text(units@.take(len as int)),
{
    let ghost all = units@.take(len as int);
    let mut r = String::new();
    let mut i: usize = 0;
    assert(all.skip(0) =~= all);
    while i < len
        invariant
            i <= len <= units@.len(),
            all == units@.take(len as int),
            r@ + utf16_text(all.skip(i as int)) =~= utf16_text(all),
        decreases len - i,
    {
        let ghost rest = all.skip(i as int);
        let ghost before = r@;
        let unit: u16 = units[i];
        assert(rest[0] == unit);
        assert(rest.skip(1) =~= all.skip(i + 1));
        if unit < 0xD800 || 0xE000 <= unit {
            let c = char::from_u32(unit as u32);
            r.push(c.unwrap());
            assert(utf16_text(rest) =~= seq![r@.last()] + utf16_text(rest.skip(1)));
            i = i + 1;
        } else if unit < 0xDC00 && i + 1 < len && 0xDC00 <= units[i + 1] && units[i + 1] < 0xE000 {
            let low: u16 = units[i + 1];
            assert(rest[1] == low);
            assert(rest.skip(2) =~= all.skip(i + 2));
            let code: u32 = 0x10000 + (unit as u32 - 0xD800) * 0x400 + (low as u32 - 0xDC00);
            let c = char::from_u32(code);
            r.push(c.unwrap());
            assert(utf16_text(rest) =~= seq![r@.last()] + utf16_text(rest.skip(2)));
            i = i + 2;
        } else {
            r.push(REPLACEMENT);
            assert(utf16_text(rest) =~= seq![r@.last()] + utf16_text(rest.skip(1)));
            i = i + 1;
        }
        assert(r@ =~= before + seq![r@.last()]);
    }
    assert(all.skip(len as int) =~= Seq::empty());
    r
}

/// The units that encode `c`: one for a code below 2^16, otherwise two, which carry
/// ten bits each of what the code exceeds 2^16 by.
pub open spec fn char_units(c: char) -> Seq<u16> {
    let code = c as int;
    if code < 0x1_0000 {
        seq![code as u16]
    } else {
        seq![
            (0xD800 + (code - 0x1_0000) / 0x400) as u16,
            (0xDC00 + (code - 0x1_0000) % 0x400) as u16,
        ]
    }
}

/// The units that encode the text `s`.
pub open spec fn text_units(s: Seq<char>) -> Seq<u16>
    decreases s.len(),
{
    if s.len() == 0 {
        Seq::empty()
    } else {
        char_units(s[0]) + text_units(s.skip(1))
    }
}

/// Every surrogate among `units` stands next to its partner.
pub open spec fn is_paired(units: Seq<u16>) -> bool {
    &&& forall|i: int|
        0 <= i < units.len() && 0xD800 <= #[trigger] units[i] <= 0xDBFF ==> i + 1 < units.len()
            && 0xDC00 <= units[i + 1] <= 0xDFFF
    &&& forall|i: int|
        0 <= i < units.len() && 0xDC00 <= #[trigger] units[i] <= 0xDFFF ==> i > 0 && 0xD800
            <= units[i - 1] <= 0xDBFF
}

/// A surrogate pair stands across the place where `a` ends and `b` starts.
pub open spec fn pair_across(a: Seq<u16>, b: Seq<u16>) -> bool {
    &&& a.len() > 0
    &&& b.len() > 0
    &&& 0xD800 <= a.last() <= 0xDBFF
    &&& 0xDC00 <= b[0] <= 0xDFFF
}

/// Decoding undoes encoding: the units of any text decode to that text.
pub proof fn law_decoding_undoes_encoding(s: Seq<char>)
    ensures
        utf16_text(text_units(s)) == s,
    decreases s.len(),
{
    if s.len() > 0 {
        let rest = text_units(s.skip(1));
        law_decoding_undoes_encoding(s.skip(1));
        lemma_char_decodes(s[0], rest);
        assert(s =~= seq![s[0]] + s.skip(1));
    } else {
        assert(s =~= Seq::empty());
    }
}

/// Encoding undoes decoding where every surrogate stands next to its partner: two
/// such runs of units never decode to the same text unless they are the same.
pub proof fn law_encoding_undoes_decoding(units: Seq<u16>)
    requires
        is_paired(units),
    ensures
        text_units(utf16_text(units)) == units,
    decreases units.len(),
{
    if units.len() > 0 {
        let n: int = if 0xD800 <= units[0] <= 0xDBFF {
            2
        } else {
            1
        };
        lemma_first_of_paired(units);
        lemma_rest_of_paired(units, n);
        law_encoding_undoes_decoding(units.skip(n));
        assert(utf16_text(units).skip(1) =~= utf16_text(units.skip(n)));
        assert(units =~= units.take(n) + units.skip(n));
    } else {
        assert(units =~= Seq::empty());
    }
}

/// Units decode piece by piece: what stands on one side of a cut has no influence on
/// the other side, unless the cut parts a surrogate pair.
pub proof fn law_decoding_goes_piece_by_piece(a: Seq<u16>, b: Seq<u16>)
    requires
        !pair_across(a, b),
    ensures
        utf16_text(a + b) == utf16_text(a) + utf16_text(b),
    decreases a.len(),
{
    let all = a + b;
    if a.len() == 0 {
        assert(all =~= b);
        assert(utf16_text(a) + utf16_text(b) =~= utf16_text(b));
    } else if 0xD800 <= a[0] <= 0xDBFF && a.len() > 1 && 0xDC00 <= a[1] <= 0xDFFF {
        assert(all.skip(2) =~= a.skip(2) + b);
        law_decoding_goes_piece_by_piece(a.skip(2), b);
        assert(utf16_text(all) =~= utf16_text(a) + utf16_text(b));
    } else {
        assert(all.skip(1) =~= a.skip(1) + b);
        law_decoding_goes_piece_by_piece(a.skip(1), b);
        assert(utf16_text(all) =~= utf16_text(a) + utf16_text(b));
    }
}

/// A surrogate without its partner decodes to one replacement character and leaves
/// what stands before and behind it as it is.
pub proof fn law_lone_surrogate_is_replaced(a: Seq<u16>, unit: u16, b: Seq<u16>)
    requires
        0xD800 <= unit <= 0xDFFF,
        !pair_across(a, seq![unit]),
        !pair_across(seq![unit], b),
    ensures
        utf16_text(a + seq![unit] + b) == utf16_text(a) + seq!['\u{FFFD}'] + utf16_text(b),
{
    let one = seq![unit];
    assert(one.skip(1) =~= Seq::empty());
    assert(utf16_text(one.skip(1)) =~= Seq::empty());
    assert(utf16_text(one) =~= seq!['\u{FFFD}']);
    law_decoding_goes_piece_by_piece(a, one);
    assert((a + one).last() == unit);
    law_decoding_goes_piece_by_piece(a + one, b);
}

/// A replacement character that is not itself among the units comes only from a
/// surrogate without its partner.
pub proof fn law_replacement_only_for_a_lone_surrogate(units: Seq<u16>)
    requires
        utf16_text(units).contains('\u{FFFD}'),
    ensures
        units.contains(0xFFFDu16) || !is_paired(units),
{
    if is_paired(units) {
        law_encoding_undoes_decoding(units);
        lemma_replacement_is_encoded(utf16_text(units));
    }
}

/// A text takes at least one unit for each character.
pub proof fn lemma_text_units_len(s: Seq<char>)
    ensures
        text_units(s).len() >= s.len(),
    decreases s.len(),
{
    if s.len() > 0 {
        lemma_text_units_len(s.skip(1));
    }
}

/// The units of one character, with others behind them, decode to it and to what
/// the others decode to.
proof fn lemma_char_decodes(c: char, rest: Seq<u16>)
    ensures
        utf16_text(char_units(c) + rest) == seq![c] + utf16_text(rest),
{
    let units = char_units(c) + rest;
    let code = c as int;
    if code < 0x1_0000 {
        assert(units[0] as int == code);
        assert(units.skip(1) =~= rest);
    } else {
        let over = code - 0x1_0000;
        let (high, low) = (over / 0x400, over % 0x400);
        assert(0 <= high < 0x400 && 0 <= low < 0x400 && over == high * 0x400 + low);
        assert(units[0] as int == 0xD800 + high);
        assert(units[1] as int == 0xDC00 + low);
        assert(units.skip(2) =~= rest);
        assert(pair_code(units[0], units[1]) == code);
    }
}

/// A text with a replacement character encodes to units with one.
proof fn lemma_replacement_is_encoded(s: Seq<char>)
    requires
        s.contains('\u{FFFD}'),
    ensures
        text_units(s).contains(0xFFFDu16),
    decreases s.len(),
{
    let head = char_units(s[0]);
    let tail = text_units(s.skip(1));
    if s[0] == '\u{FFFD}' {
        assert((head + tail)[0] == 0xFFFDu16);
    } else {
        let i = choose|i: int| 0 <= i < s.len() && s[i] == '\u{FFFD}';
        assert(s.skip(1)[i - 1] == '\u{FFFD}');
        lemma_replacement_is_encoded(s.skip(1));
        let k = choose|k: int| 0 <= k < tail.len() && tail[k] == 0xFFFDu16;
        assert((head + tail)[head.len() + k] == 0xFFFDu16);
    }
}

/// The first character that paired units decode to is encoded by the units at their
/// start.
proof fn lemma_first_of_paired(units: Seq<u16>)
    requires
        units.len() > 0,
        is_paired(units),
    ensures
        ({
            let n: int = if 0xD800 <= units[0] <= 0xDBFF {
                2
            } else {
                1
            };
            &&& n <= units.len()
            &&& utf16_text(units) == seq![utf16_text(units)[0]] + utf16_text(units.skip(n))
            &&& char_units(utf16_text(units)[0]) == units.take(n)
        }),
{
    let first = utf16_text(units)[0];
    if 0xD800 <= units[0] <= 0xDBFF {
        assert(0xDC00 <= units[1] <= 0xDFFF);
        let (high, low) = (units[0] - 0xD800, units[1] - 0xDC00);
        assert(first as int == 0x1_0000 + high * 0x400 + low);
        assert((high * 0x400 + low) / 0x400 == high);
        assert((high * 0x400 + low) % 0x400 == low);
        assert(char_units(first) =~= units.take(2));
    } else {
        assert(!(0xDC00 <= units[0] <= 0xDFFF));
        assert(char_units(first) =~= units.take(1));
    }
}

/// What follows a whole character in paired units is paired.
proof fn lemma_rest_of_paired(units: Seq<u16>, n: int)
    requires
        is_paired(units),
        0 < n <= units.len(),
        !(0xD800 <= units[n - 1] <= 0xDBFF),
    ensures
        is_paired(units.skip(n)),
{
    let rest = units.skip(n);
    assert forall|i: int| 0 <= i < rest.len() && 0xD800 <= #[trigger] rest[i] <= 0xDBFF implies i
        + 1 < rest.len() && 0xDC00 <= rest[i + 1] <= 0xDFFF by {
        assert(rest[i] == units[i + n]);
    }
    assert forall|i: int| 0 <= i < rest.len() && 0xDC00 <= #[trigger] rest[i] <= 0xDFFF implies i
        > 0 && 0xD800 <= rest[i - 1] <= 0xDBFF by {
        assert(rest[i] == units[i + n]);
    }
}

} // verus!
