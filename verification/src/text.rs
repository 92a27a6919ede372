//! Text as sequences of characters: searching, trimming, decimal numbers.
use vstd::prelude::*;

verus! {

/// `String::push` of std: the character is appended at the end.
pub assume_specification[ String::push ](s: &mut String, c: char)
    ensures
        final(s)@ == old(s)@.push(c),
;

/// `needle` stands somewhere in `hay` as one unbroken run.
pub open spec fn occurs_in(needle: Seq<char>, hay: Seq<char>) -> bool {
    exists|i: int| occurs_at(needle, hay, i)
}

/// `needle` stands in `hay` from position `i` on.
pub open spec fn occurs_at(needle: Seq<char>, hay: Seq<char>, i: int) -> bool {
    0 <= i <= hay.len() - needle.len() && hay.subrange(i, i + needle.len()) == needle
}

/// `s` with every `from` turned into `to`.
pub open spec fn replaced(s: Seq<char>, from: char, to: char) -> Seq<char> {
    s.map_values(|c: char| if c == from { to } else { c })
}

/// The characters with the Unicode property White_Space.
pub open spec fn is_white(c: char) -> bool {
    ||| '\u{9}' <= c <= '\u{D}'
    ||| c == ' '
    ||| c == '\u{85}'
    ||| c == '\u{A0}'
    ||| c == '\u{1680}'
    ||| '\u{2000}' <= c <= '\u{200A}'
    ||| c == '\u{2028}'
    ||| c == '\u{2029}'
    ||| c == '\u{202F}'
    ||| c == '\u{205F}'
    ||| c == '\u{3000}'
}

/// `s` without the white space that it starts with.
pub open spec fn trimmed_start(s: Seq<char>) -> Seq<char>
    decreases s.len(),
{
    if s.len() > 0 && is_white(s[0]) {
        trimmed_start(s.skip(1))
    } else {
        s
    }
}

/// `s` without the white space that it ends with.
pub open spec fn trimmed_end(s: Seq<char>) -> Seq<char>
    decreases s.len(),
{
    if s.len() > 0 && is_white(s.last()) {
        trimmed_end(s.drop_last())
    } else {
        s
    }
}

/// `s` without the white space at either end.
pub open spec fn trimmed(s: Seq<char>) -> Seq<char> {
    trimmed_end(trimmed_start(s))
}

/// `c` is one of `0` to `9`.
pub open spec fn is_digit(c: char) -> bool {
    '0' <= c <= '9'
}

/// Every character of `s` is a digit.
pub open spec fn all_digits(s: Seq<char>) -> bool {
    forall|i: int| 0 <= i < s.len() ==> is_digit(#[trigger] s[i])
}

/// The number that a run of digits stands for.
pub open spec fn digits_value(s: Seq<char>) -> int
    decreases s.len(),
{
    if s.len() == 0 {
        0
    } else {
        digits_value(s.drop_last()) * 10 + (s.last() as int - '0' as int)
    }
}

/// `n` in decimal, without leading zeros.
pub open spec fn decimal(n: nat) -> Seq<char>
    decreases n,
{
    let low = ('0' as int + n % 10) as char;
    if n < 10 {
        seq![low]
    } else {
        decimal(n / 10).push(low)
    }
}

/// The last `width` digits of `n`, with zeros in front where there are fewer.
pub open spec fn padded(n: int, width: nat) -> Seq<char>
    decreases width,
{
    if width == 0 {
        Seq::empty()
    } else {
        padded(n / 10, (width - 1) as nat).push(('0' as int + n % 10) as char)
    }
}

/// Ten to the power of `n`.
pub open spec fn ten_to(n: nat) -> int
    decreases n,
{
    if n == 0 {
        1
    } else {
        10 * ten_to((n - 1) as nat)
    }
}

/// `a` sorts before `b` because of what stands at position `i`, the first at which
/// they differ.
pub open spec fn precedes_at(a: Seq<char>, b: Seq<char>, i: int) -> bool {
    &&& 0 <= i < a.len()
    &&& i < b.len()
    &&& a[i] < b[i]
    &&& a.take(i) == b.take(i)
}

/// `a` sorts before `b`, and is not just the start of it.
pub open spec fn precedes(a: Seq<char>, b: Seq<char>) -> bool {
    exists|i: int| precedes_at(a, b, i)
}

/// The digits of a decimal number, which may start with a plus sign.
pub open spec fn unsigned_digits(s: Seq<char>) -> Seq<char> {
    if s.len() > 0 && s[0] == '+' {
        s.skip(1)
    } else {
        s
    }
}

/// The number that `s` spells, where it spells one that 32 bits hold.
pub open spec fn parsed_u32(s: Seq<char>) -> Option<u32> {
    let digits = unsigned_digits(s);
    if digits.len() > 0 && all_digits(digits) && digits_value(digits) <= u32::MAX {
        Some(digits_value(digits) as u32)
    } else {
        None
    }
}

/// The two texts, one after the other.
pub fn joined(a: &str, b: &str) -> (r: String)
    ensures
        r@ == a@ + b@,
{
    let mut r = a.to_owned();
    r.append(b);
    r
}

/// The characters of `s`.
pub fn chars_of(s: &str) -> (r: Vec<char>)
    ensures
        r@ == s@,
{
    let mut r: Vec<char> = Vec::new();
    for c in it: s.chars()
        invariant
            r@ == it.seq().take(it.index()),
            it.seq() == s@,
    {
        r.push(c);
    }
    r
}

/// Whether `needle` stands in `hay`.
pub fn contains(hay: &str, needle: &str) -> (r: bool)
    ensures
        r == occurs_in(needle@, hay@),
{
    let h = chars_of(hay);
    let n = chars_of(needle);
    if n.len() > h.len() {
        return false;
    }
    let last: usize = h.len() - n.len();
    let mut i: usize = 0;
    while i <= last
        invariant
            h@ == hay@,
            n@ == needle@,
            n.len() <= h.len(),
            last == h.len() - n.len(),
            i <= last + 1,
            forall|k: int| 0 <= k < i ==> !occurs_at(needle@, hay@, k),
        decreases last + 1 - i,
    {
        let mut j: usize = 0;
        while j < n.len() && h[i + j] == n[j]
            invariant
                n.len() <= h.len(),
                last == h.len() - n.len(),
                i <= last,
                j <= n.len(),
                forall|k: int| 0 <= k < j ==> h[i + k] == #[trigger] n[k],
            decreases n.len() - j,
        {
            j = j + 1;
        }
        if j == n.len() {
            assert(hay@.subrange(i as int, i + needle@.len()) =~= needle@);
            assert(occurs_at(needle@, hay@, i as int));
            return true;
        }
        assert(hay@.subrange(i as int, i + needle@.len())[j as int] != needle@[j as int]);
        if i == last {
            return false;
        }
        i = i + 1;
    }
    false
}

/// Whether the two texts are the same.
pub fn same(a: &str, b: &str) -> (r: bool)
    ensures
        r == (a@ == b@),
{
    a.to_owned() == b.to_owned()
}

/// `s` with every `from` turned into `to`.
pub fn replace_char(s: &str, from: char, to: char) -> (r: String)
    ensures
        r@ == replaced(s@, from, to),
{
    let mut r = String::new();
    for c in it: s.chars()
        invariant
            r@ =~= replaced(it.seq().take(it.index()), from, to),
            it.seq() == s@,
    {
        r.push(if c == from { to } else { c });
    }
    r
}

/// Whether `c` is white space.
pub fn white(c: char) -> (r: bool)
    ensures
        r == is_white(c),
{
    ('\u{9}' <= c && c <= '\u{D}') || c == ' ' || c == '\u{85}' || c == '\u{A0}' || c == '\u{1680}'
        || ('\u{2000}' <= c && c <= '\u{200A}') || c == '\u{2028}' || c == '\u{2029}' || c
        == '\u{202F}' || c == '\u{205F}' || c == '\u{3000}'
}

/// The characters of `s` without the white space at either end.
pub fn trim(s: &str) -> (r: Vec<char>)
    ensures
        r@ == trimmed(s@),
{
    let all = chars_of(s);
    let mut from: usize = 0;
    assert(s@.skip(0) =~= s@);
    while from < all.len() && white(all[from])
        invariant
            all@ == s@,
            from <= all.len(),
            trimmed_start(s@.skip(from as int)) == trimmed_start(s@),
        decreases all.len() - from,
    {
        assert(s@.skip(from as int).skip(1) =~= s@.skip(from + 1));
        from = from + 1;
    }
    let mut to: usize = all.len();
    let ghost start = s@.skip(from as int);
    assert(start.take(to - from) =~= start);
    while from < to && white(all[to - 1])
        invariant
            all@ == s@,
            from <= to <= all.len(),
            start == s@.skip(from as int),
            trimmed_end(start.take(to - from)) == trimmed_end(start),
        decreases to - from,
    {
        assert(start.take(to - from).drop_last() =~= start.take(to - 1 - from));
        to = to - 1;
    }
    let mut r: Vec<char> = Vec::new();
    let mut i: usize = from;
    while i < to
        invariant
            all@ == s@,
            from <= i <= to <= all.len(),
            start == s@.skip(from as int),
            r@ == start.take(i - from),
        decreases to - i,
    {
        r.push(all[i]);
        assert(r@ =~= start.take(i + 1 - from));
        i = i + 1;
    }
    r
}

/// Reads a number of 32 bits: digits, which a plus sign may precede.
pub fn parse_u32(s: &Vec<char>) -> (r: Option<u32>)
    ensures
        r == parsed_u32(s@),
{
    let start: usize = if s.len() > 0 && s[0] == '+' { 1 } else { 0 };
    let ghost digits = unsigned_digits(s@);
    assert(digits =~= s@.skip(start as int));
    if start == s.len() {
        return None;
    }
    let mut value: u32 = 0;
    let mut i: usize = start;
    while i < s.len()
        invariant
            start <= i <= s.len(),
            digits == s@.skip(start as int),
            digits == unsigned_digits(s@),
            all_digits(digits.take(i - start)),
            value == digits_value(digits.take(i - start)),
        decreases s.len() - i,
    {
        let c = s[i];
        assert(c == digits[i - start]);
        if !('0' <= c && c <= '9') {
            return None;
        }
        let ghost seen = digits.take(i + 1 - start);
        assert(seen.drop_last() =~= digits.take(i - start));
        let d: u32 = (c as u32) - ('0' as u32);
        if value > (u32::MAX - d) / 10 {
            proof {
                assert(value * 10 + d > u32::MAX);
                if all_digits(digits) {
                    lemma_prefix_value(digits, i + 1 - start);
                }
            }
            return None;
        }
        value = value * 10 + d;
        i = i + 1;
    }
    assert(digits.take(s.len() - start) =~= digits);
    Some(value)
}

/// Writes `n` in decimal.
pub fn decimal_text(n: u32) -> (r: String)
    ensures
        r@ == decimal(n as nat),
    decreases n,
{
    let mut r = if n < 10 { String::new() } else { decimal_text(n / 10) };
    let d: u8 = (n % 10) as u8;
    r.push((48u8 + d) as char);
    assert(r@ =~= decimal(n as nat));
    r
}

/// A prefix of a run of digits stands for no more than the whole run.
proof fn lemma_prefix_value(s: Seq<char>, n: int)
    requires
        all_digits(s),
        0 <= n <= s.len(),
    ensures
        0 <= digits_value(s.take(n)) <= digits_value(s),
    decreases s.len(),
{
    if n < s.len() {
        assert(is_digit(s.last()));
        lemma_prefix_value(s.drop_last(), n);
        assert(s.drop_last().take(n) =~= s.take(n));
    } else {
        assert(s.take(n) =~= s);
        if n > 0 {
            assert(is_digit(s.last()));
            lemma_prefix_value(s.drop_last(), n - 1);
            assert(s.drop_last().take(n - 1) =~= s.drop_last());
        }
    }
}

/// Decimal text is digits, at least one, that stand for the number written.
proof fn lemma_decimal(n: nat)
    ensures
        decimal(n).len() > 0,
        all_digits(decimal(n)),
        digits_value(decimal(n)) == n,
    decreases n,
{
    let low = ('0' as int + n % 10) as char;
    assert(is_digit(low) && low as int - '0' as int == n % 10);
    if n < 10 {
        assert(seq![low].drop_last() =~= Seq::<char>::empty());
        assert(digits_value(seq![low].drop_last()) == 0);
    } else {
        lemma_decimal(n / 10);
        assert(decimal(n).drop_last() =~= decimal(n / 10));
    }
}

/// Padded text has the width that it is padded to, and holds nothing but digits.
pub proof fn lemma_padded_len(n: int, width: nat)
    ensures
        padded(n, width).len() == width,
        all_digits(padded(n, width)),
    decreases width,
{
    if width > 0 {
        lemma_padded_len(n / 10, (width - 1) as nat);
        assert(is_digit(('0' as int + n % 10) as char));
    }
}

/// Two numbers side by side are padded as one.
pub proof fn lemma_padded_join(n: int, k: int, width: nat)
    requires
        0 <= k < 100,
    ensures
        padded(n * 100 + k, width + 2) == padded(n, width) + padded(k, 2),
{
    reveal_with_fuel(padded, 3);
    assert((n * 100 + k) / 10 == n * 10 + k / 10);
    assert((n * 10 + k / 10) / 10 == n);
    assert(padded(k, 2) =~= seq![
        ('0' as int + k / 10 % 10) as char,
        ('0' as int + k % 10) as char,
    ]);
    assert(padded(n * 100 + k, width + 2) =~= padded(n, width) + padded(k, 2));
}

/// A smaller number of the same width sorts first.
pub proof fn lemma_padded_order(a: int, b: int, width: nat)
    requires
        0 <= a < b < ten_to(width),
    ensures
        precedes(padded(a, width), padded(b, width)),
    decreases width,
{
    let w = (width - 1) as nat;
    let (pa, pb) = (padded(a / 10, w), padded(b / 10, w));
    lemma_padded_len(a / 10, w);
    lemma_padded_len(b / 10, w);
    let (la, lb) = (('0' as int + a % 10) as char, ('0' as int + b % 10) as char);
    if a / 10 < b / 10 {
        lemma_padded_order(a / 10, b / 10, w);
        lemma_precedes_extend(pa, pb, seq![la], seq![lb]);
        assert(padded(a, width) =~= pa + seq![la]);
        assert(padded(b, width) =~= pb + seq![lb]);
    } else {
        assert(padded(a, width).take(w as int) =~= padded(b, width).take(w as int));
        assert(precedes_at(padded(a, width), padded(b, width), w as int));
    }
}

/// What follows does not change the order of what precedes.
pub proof fn lemma_precedes_extend(a: Seq<char>, b: Seq<char>, x: Seq<char>, y: Seq<char>)
    requires
        precedes(a, b),
    ensures
        precedes(a + x, b + y),
{
    let i = choose|i: int| precedes_at(a, b, i);
    assert((a + x).take(i) =~= a.take(i));
    assert((b + y).take(i) =~= b.take(i));
    assert(precedes_at(a + x, b + y, i));
}

/// The same text in front does not change an order.
pub proof fn lemma_precedes_behind(x: Seq<char>, a: Seq<char>, b: Seq<char>)
    requires
        precedes(a, b),
    ensures
        precedes(x + a, x + b),
{
    let i = choose|i: int| precedes_at(a, b, i);
    assert((x + a).take(x.len() + i) =~= x + a.take(i));
    assert((x + b).take(x.len() + i) =~= x + b.take(i));
    assert(precedes_at(x + a, x + b, x.len() + i));
}

/// A number written in decimal with a line feed behind it reads back as itself.
pub proof fn lemma_decimal_line_round_trip(n: u32)
    ensures
        parsed_u32(trimmed(decimal(n as nat).push('\n'))) == Some(n),
{
    let d = decimal(n as nat);
    lemma_decimal(n as nat);
    let line = d.push('\n');
    assert(is_digit(d[0]) && is_digit(d.last()));
    assert(line[0] == d[0]);
    assert(line.drop_last() =~= d);
    assert(trimmed_start(line) == line);
    assert(trimmed_end(line) == trimmed_end(d));
    assert(unsigned_digits(d) == d);
}

/// `s` is white space throughout.
pub open spec fn all_white(s: Seq<char>) -> bool {
    forall|i: int| 0 <= i < s.len() ==> is_white(#[trigger] s[i])
}

/// `k` times the digit zero.
pub open spec fn naughts(k: nat) -> Seq<char> {
    Seq::new(k, |i: int| '0')
}

/// What may stand before the digits of a number: a plus sign, then zeros.
pub open spec fn number_lead(signed: bool, k: nat) -> Seq<char> {
    if signed {
        seq!['+'] + naughts(k)
    } else {
        naughts(k)
    }
}

/// `line` is `lead` with `rest` behind it, and nothing else.
pub open spec fn leads_to(line: Seq<char>, lead: Seq<char>, rest: Seq<char>) -> bool {
    &&& line.len() == lead.len() + rest.len()
    &&& line.take(lead.len() as int) == lead
    &&& line.skip(lead.len() as int) == rest
}

/// One text behind another can be taken apart again.
pub proof fn lemma_leads_to(lead: Seq<char>, rest: Seq<char>)
    ensures
        leads_to(lead + rest, lead, rest),
{
    assert((lead + rest).take(lead.len() as int) =~= lead);
    assert((lead + rest).skip(lead.len() as int) =~= rest);
}

/// A text is found in any text that it is part of, whatever stands before and
/// behind it.
pub proof fn law_part_is_found(before: Seq<char>, needle: Seq<char>, behind: Seq<char>)
    ensures
        occurs_in(needle, before + needle + behind),
{
    let hay = before + needle + behind;
    assert(hay.subrange(before.len() as int, (before.len() + needle.len()) as int) =~= needle);
    assert(occurs_at(needle, hay, before.len() as int));
}

/// A text is found only in texts that it is part of.
pub proof fn law_found_is_a_part(needle: Seq<char>, hay: Seq<char>)
    requires
        occurs_in(needle, hay),
    ensures
        exists|before: Seq<char>, behind: Seq<char>| hay == #[trigger] (before + needle + behind),
{
    let i = choose|i: int| occurs_at(needle, hay, i);
    let (before, behind) = (hay.take(i), hay.skip(i + needle.len() as int));
    assert(hay =~= before + needle + behind);
}

/// Replacing leaves the length and every other character alone, and, where the two
/// characters differ, nothing to replace.
pub proof fn law_replaced_character_by_character(s: Seq<char>, from: char, to: char, i: int)
    requires
        0 <= i < s.len(),
    ensures
        replaced(s, from, to).len() == s.len(),
        s[i] != from ==> replaced(s, from, to)[i] == s[i],
        s[i] == from ==> replaced(s, from, to)[i] == to,
        from != to ==> replaced(s, from, to)[i] != from,
{
}

/// Trimming takes white space off both ends, all of it, and nothing else.
pub proof fn law_trimmed_loses_only_white_space(s: Seq<char>)
    ensures
        exists|before: Seq<char>, behind: Seq<char>|
            all_white(before) && all_white(behind) && s == #[trigger] (before + trimmed(s) + behind),
        trimmed(s).len() > 0 ==> !is_white(trimmed(s)[0]) && !is_white(trimmed(s).last()),
{
    let start = trimmed_start(s);
    let before = lemma_trimmed_start(s);
    let behind = lemma_trimmed_end(start);
    assert(s =~= before + trimmed(s) + behind);
    if trimmed(s).len() > 0 {
        assert(trimmed(s)[0] == start[0]);
    }
}

proof fn lemma_trimmed_start(s: Seq<char>) -> (before: Seq<char>)
    ensures
        all_white(before),
        s == before + trimmed_start(s),
        trimmed_start(s).len() > 0 ==> !is_white(trimmed_start(s)[0]),
    decreases s.len(),
{
    if s.len() > 0 && is_white(s[0]) {
        let rest = lemma_trimmed_start(s.skip(1));
        let before = seq![s[0]] + rest;
        assert(s =~= seq![s[0]] + s.skip(1));
        assert(seq![s[0]] + (rest + trimmed_start(s)) =~= before + trimmed_start(s));
        before
    } else {
        assert(s =~= Seq::<char>::empty() + s);
        Seq::empty()
    }
}

proof fn lemma_trimmed_end(s: Seq<char>) -> (behind: Seq<char>)
    ensures
        all_white(behind),
        s == trimmed_end(s) + behind,
        trimmed_end(s).len() > 0 ==> !is_white(trimmed_end(s).last()),
    decreases s.len(),
{
    if s.len() > 0 && is_white(s.last()) {
        let rest = lemma_trimmed_end(s.drop_last());
        let behind = rest.push(s.last());
        assert(s =~= s.drop_last().push(s.last()));
        assert((trimmed_end(s) + rest).push(s.last()) =~= trimmed_end(s) + behind);
        behind
    } else {
        assert(s =~= s + Seq::<char>::empty());
        Seq::empty()
    }
}

/// White space around a text that has none at its own ends is what trimming takes
/// off.
pub proof fn law_trimmed_of_padded(before: Seq<char>, core: Seq<char>, behind: Seq<char>)
    requires
        all_white(before),
        all_white(behind),
        core.len() > 0,
        !is_white(core[0]),
        !is_white(core.last()),
    ensures
        trimmed(before + core + behind) == core,
{
    lemma_start_of_padded(before, core + behind);
    assert(before + core + behind =~= before + (core + behind));
    lemma_end_of_padded(core, behind);
}

proof fn lemma_start_of_padded(before: Seq<char>, rest: Seq<char>)
    requires
        all_white(before),
        rest.len() > 0,
        !is_white(rest[0]),
    ensures
        trimmed_start(before + rest) == rest,
    decreases before.len(),
{
    if before.len() == 0 {
        assert(before + rest =~= rest);
    } else {
        assert(is_white(before[0]));
        assert((before + rest).skip(1) =~= before.skip(1) + rest);
        lemma_start_of_padded(before.skip(1), rest);
    }
}

proof fn lemma_end_of_padded(rest: Seq<char>, behind: Seq<char>)
    requires
        all_white(behind),
        rest.len() > 0,
        !is_white(rest.last()),
    ensures
        trimmed_end(rest + behind) == rest,
    decreases behind.len(),
{
    if behind.len() == 0 {
        assert(rest + behind =~= rest);
    } else {
        assert(is_white(behind.last()));
        assert((rest + behind).drop_last() =~= rest + behind.drop_last());
        lemma_end_of_padded(rest, behind.drop_last());
    }
}

/// Digits count by their place: what stands before is worth ten times more for every
/// digit behind it, and a digit alone is worth its distance from zero.
pub proof fn law_digits_count_by_place(a: Seq<char>, b: Seq<char>, c: char)
    ensures
        digits_value(a + b) == digits_value(a) * ten_to(b.len()) + digits_value(b),
        digits_value(seq![c]) == c as int - '0' as int,
        ten_to(b.push(c).len()) == 10 * ten_to(b.len()),
    decreases b.len(),
{
    assert(seq![c].drop_last() =~= Seq::<char>::empty());
    assert(digits_value(seq![c].drop_last()) == 0);
    if b.len() == 0 {
        assert(a + b =~= a);
    } else {
        assert((a + b).drop_last() =~= a + b.drop_last());
        law_digits_count_by_place(a, b.drop_last(), c);
        let (v, t, w) = (
            digits_value(a),
            ten_to(b.drop_last().len()),
            digits_value(b.drop_last()),
        );
        assert((v * t + w) * 10 == v * (10 * t) + w * 10) by (nonlinear_arith);
    }
}

/// A number in decimal is digits that stand for it, and starts with no zero unless it
/// is zero.
pub proof fn law_decimal_stands_for_its_number(n: nat)
    ensures
        all_digits(decimal(n)),
        digits_value(decimal(n)) == n,
        decimal(n)[0] == '0' <==> n == 0,
        n == 0 ==> decimal(n) == seq!['0'],
    decreases n,
{
    lemma_decimal(n);
    if n >= 10 {
        law_decimal_stands_for_its_number(n / 10);
        assert(decimal(n)[0] == decimal(n / 10)[0]);
    } else {
        assert(decimal(n)[0] as int == '0' as int + n);
        assert(decimal(0) =~= seq!['0']);
    }
}

/// A padded number is digits that stand for it, where the width holds it.
pub proof fn law_padded_stands_for_its_number(n: int, width: nat)
    requires
        0 <= n < ten_to(width),
    ensures
        padded(n, width).len() == width,
        all_digits(padded(n, width)),
        digits_value(padded(n, width)) == n,
    decreases width,
{
    lemma_padded_len(n, width);
    if width > 0 {
        law_padded_stands_for_its_number(n / 10, (width - 1) as nat);
        assert(padded(n, width).drop_last() =~= padded(n / 10, (width - 1) as nat));
    }
}

/// A number is read whether or not a plus sign or zeros precede its digits.
pub proof fn law_decimal_is_read(n: u32, signed: bool, k: nat)
    ensures
        parsed_u32(number_lead(signed, k) + decimal(n as nat)) == Some(n),
{
    let digits = naughts(k) + decimal(n as nat);
    lemma_decimal(n as nat);
    lemma_naughts_value(k);
    law_digits_count_by_place(naughts(k), decimal(n as nat), '0');
    assert(0 * ten_to(decimal(n as nat).len()) == 0) by (nonlinear_arith);
    assert(all_digits(digits));
    let s = number_lead(signed, k) + decimal(n as nat);
    if signed {
        assert(s[0] == '+');
        assert(s.skip(1) =~= digits);
    } else {
        assert(s =~= digits);
        assert(is_digit(s[0]));
    }
}

/// Nothing but a number's digits, with or without a plus sign and zeros before them,
/// is read as the number.
pub proof fn law_only_decimal_is_read(s: Seq<char>, n: u32)
    requires
        parsed_u32(s) == Some(n),
    ensures
        exists|signed: bool, k: nat|
            s == #[trigger] number_lead(signed, k) + decimal(n as nat),
{
    let digits = unsigned_digits(s);
    let k = lemma_digits_are_decimal(digits);
    let signed = s[0] == '+';
    if signed {
        assert(s =~= seq!['+'] + digits);
        assert(seq!['+'] + (naughts(k) + decimal(n as nat)) =~= number_lead(signed, k) + decimal(
            n as nat,
        ));
    }
    assert(s == number_lead(signed, k) + decimal(n as nat));
}

proof fn lemma_naughts_value(k: nat)
    ensures
        digits_value(naughts(k)) == 0,
    decreases k,
{
    if k > 0 {
        assert(naughts(k).drop_last() =~= naughts((k - 1) as nat));
        lemma_naughts_value((k - 1) as nat);
    }
}

proof fn lemma_digits_are_decimal(d: Seq<char>) -> (k: nat)
    requires
        d.len() > 0,
        all_digits(d),
    ensures
        digits_value(d) >= 0,
        d == naughts(k) + decimal(digits_value(d) as nat),
    decreases d.len(),
{
    let rest = d.drop_last();
    let c = d.last();
    assert(is_digit(c));
    if rest.len() == 0 {
        assert(digits_value(rest) == 0);
        assert(d =~= naughts(0) + decimal(digits_value(d) as nat));
        0
    } else {
        assert(all_digits(rest)) by {
            assert forall|i: int| 0 <= i < rest.len() implies is_digit(#[trigger] rest[i]) by {
                assert(is_digit(d[i]));
            }
        }
        let k = lemma_digits_are_decimal(rest);
        let v = digits_value(rest) as nat;
        let n = digits_value(d) as nat;
        assert(n / 10 == v && n % 10 == c as int - '0' as int);
        if v == 0 {
            law_decimal_stands_for_its_number(0);
            assert(d =~= rest.push(c));
            assert(rest =~= naughts(k).push('0'));
            assert(naughts(k).push('0') =~= naughts(k + 1));
            assert(decimal(n) =~= seq![c]);
            assert(naughts(k + 1).push(c) =~= naughts(k + 1) + seq![c]);
            k + 1
        } else {
            assert(d =~= rest.push(c));
            assert(decimal(n) =~= decimal(v).push(c));
            assert((naughts(k) + decimal(v)).push(c) =~= naughts(k) + decimal(v).push(c));
            k
        }
    }
}

} // verus!
