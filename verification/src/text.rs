//! Character-level helpers shared by the carrier, the propagator and the
//! word generator: the texts that strings hold, ASCII case folding,
//! fixed-width lower-case hexadecimal, and splitting at hyphens.

use vstd::prelude::*;

verus! {

/// `String::push` of the standard library appends one character to the
/// string and leaves the characters before it as they were.
pub assume_specification[ String::push ](s: &mut String, c: char)
    ensures
        final(s)@ == old(s)@.push(c),
;

// ---------------------------------------------------------------------------
// Views of strings
// ---------------------------------------------------------------------------

/// The texts that a list of strings holds, in order.
pub open spec fn texts(words: Seq<String>) -> Seq<Seq<char>> {
    Seq::new(words.len(), |i: int| words[i]@)
}

/// The text that an optional string holds.
pub open spec fn text_of(text: Option<String>) -> Option<Seq<char>> {
    match text {
        Some(t) => Some(t@),
        None => None,
    }
}

// ---------------------------------------------------------------------------
// ASCII case folding
// ---------------------------------------------------------------------------

/// The ASCII lower-case form of one character; characters outside `A..=Z`
/// are left alone.
pub open spec fn lower_char(c: char) -> char {
    if 'A' <= c && c <= 'Z' {
        ((c as u8) + 32) as char
    } else {
        c
    }
}

/// The ASCII lower-case form of a text, character by character.
pub open spec fn lower(s: Seq<char>) -> Seq<char> {
    Seq::new(s.len(), |i: int| lower_char(s[i]))
}

/// Folding is idempotent: a folded text is its own folded form.
pub proof fn lemma_lower_idempotent(s: Seq<char>)
    ensures
        lower(lower(s)) == lower(s),
{
    assert(lower(lower(s)) =~= lower(s));
}

/// The ASCII lower-case form of `c`.
pub fn to_lower_char(c: char) -> (r: char)
    ensures
        r == lower_char(c),
{
    if 'A' <= c && c <= 'Z' {
        let b: u8 = c as u8;
        (b + 32) as char
    } else {
        c
    }
}

/// The characters of `s`, in order.
pub fn chars_of(s: &str) -> (v: Vec<char>)
    ensures
        v@ == s@,
{
    let mut v: Vec<char> = Vec::new();
    for c in it: s.chars()
        invariant
            it.seq() == s@,
            v@ == it.seq().take(it.index() as int),
    {
        v.push(c);
    }
    v
}

/// A string holding the characters `chars[from..to]`.
pub fn string_of(chars: &Vec<char>, from: usize, to: usize) -> (s: String)
    requires
        from <= to <= chars.len(),
    ensures
        s@ == chars@.subrange(from as int, to as int),
{
    let mut s = String::new();
    let mut i: usize = from;
    while i < to
        invariant
            from <= i <= to <= chars.len(),
            s@ == chars@.subrange(from as int, i as int),
        decreases to - i,
    {
        s.push(chars[i]);
        i += 1;
        assert(chars@.subrange(from as int, i as int) == chars@.subrange(
            from as int,
            i as int - 1,
        ).push(chars@[i as int - 1]));
    }
    s
}

/// The ASCII lower-case form of `s`.
pub fn to_lower(s: &str) -> (r: String)
    ensures
        r@ == lower(s@),
{
    let mut r = String::new();
    for c in it: s.chars()
        invariant
            it.seq() == s@,
            r@ == lower(it.seq().take(it.index() as int)),
    {
        let ghost before = r@;
        r.push(to_lower_char(c));
        assert(r@ == lower(s@.take(it.index() + 1))) by {
            assert(before.push(lower_char(c)) =~= lower(s@.take(it.index() + 1)));
        }
    }
    assert(s@.take(s@.len() as int) == s@);
    r
}

// ---------------------------------------------------------------------------
// Fixed-width lower-case hexadecimal
// ---------------------------------------------------------------------------

/// The lower-case hexadecimal digit for a value below sixteen.
pub open spec fn hex_digit(d: int) -> char {
    if d < 10 {
        ((48 + d) as u8) as char
    } else {
        ((87 + d) as u8) as char
    }
}

/// The value of a lower-case hexadecimal digit, if `c` is one.
pub open spec fn hex_value(c: char) -> Option<int> {
    if '0' <= c && c <= '9' {
        Some((c as u8) - 48)
    } else if 'a' <= c && c <= 'f' {
        Some((c as u8) - 87)
    } else {
        None
    }
}

/// Sixteen to the power `n`.
pub open spec fn pow16(n: nat) -> nat
    decreases n,
{
    if n == 0 {
        1
    } else {
        16 * pow16((n - 1) as nat)
    }
}

/// `value` written with exactly `width` lower-case hexadecimal digits, most
/// significant first (digits beyond the width are cut off).
pub open spec fn hex_of(value: nat, width: nat) -> Seq<char>
    decreases width,
{
    if width == 0 {
        Seq::empty()
    } else {
        hex_of(value / 16, (width - 1) as nat).push(hex_digit((value % 16) as int))
    }
}

/// The number that a text of lower-case hexadecimal digits denotes; `None`
/// if some character is not such a digit.
pub open spec fn hex_number(s: Seq<char>) -> Option<nat>
    decreases s.len(),
{
    if s.len() == 0 {
        Some(0)
    } else {
        match (hex_number(s.drop_last()), hex_value(s.last())) {
            (Some(high), Some(low)) => Some((high * 16 + low) as nat),
            _ => None,
        }
    }
}

/// A digit's value is the value it was written for.
pub proof fn lemma_hex_digit_value(d: int)
    requires
        0 <= d < 16,
    ensures
        hex_value(hex_digit(d)) == Some(d),
{
}

/// `hex_of` writes exactly `width` digits.
pub proof fn lemma_hex_of_len(value: nat, width: nat)
    ensures
        hex_of(value, width).len() == width,
    decreases width,
{
    if width > 0 {
        lemma_hex_of_len(value / 16, (width - 1) as nat);
    }
}

/// Reading back what `hex_of` wrote gives the value, provided it fits the
/// width.
pub proof fn lemma_hex_round_trip(value: nat, width: nat)
    requires
        value < pow16(width),
    ensures
        hex_number(hex_of(value, width)) == Some(value),
    decreases width,
{
    if width > 0 {
        let rest = hex_of(value / 16, (width - 1) as nat);
        let digit = hex_digit((value % 16) as int);
        lemma_hex_round_trip(value / 16, (width - 1) as nat);
        lemma_hex_digit_value((value % 16) as int);
        assert(hex_of(value, width).drop_last() =~= rest);
        assert(hex_of(value, width).last() == digit);
    }
}

/// A text of `n` digits denotes a number below sixteen to the `n`.
pub proof fn lemma_hex_number_bound(s: Seq<char>)
    requires
        hex_number(s) is Some,
    ensures
        hex_number(s).unwrap() < pow16(s.len()),
    decreases s.len(),
{
    if s.len() > 0 {
        lemma_hex_number_bound(s.drop_last());
    }
}

/// Sixteen and thirty-two digits are what 64 and 128 bits take.
pub proof fn lemma_pow16_values()
    ensures
        pow16(16) == 0x1_0000_0000_0000_0000,
        pow16(32) == 0x1_0000_0000_0000_0000_0000_0000_0000_0000,
{
    reveal_with_fuel(pow16, 33);
}

/// `pow16` grows with its exponent.
pub proof fn lemma_pow16_monotonic(a: nat, b: nat)
    requires
        a <= b,
    ensures
        pow16(a) <= pow16(b),
    decreases b,
{
    if a < b {
        lemma_pow16_monotonic(a, (b - 1) as nat);
    }
}

fn hex_digit_of(d: u8) -> (c: char)
    requires
        d < 16,
    ensures
        c == hex_digit(d as int),
{
    if d < 10 {
        (48 + d) as char
    } else {
        (87 + d) as char
    }
}

fn hex_value_of(c: char) -> (r: Option<u8>)
    ensures
        match r {
            Some(d) => hex_value(c) == Some(d as int) && d < 16,
            None => hex_value(c) is None,
        },
{
    if '0' <= c && c <= '9' {
        Some((c as u8) - 48)
    } else if 'a' <= c && c <= 'f' {
        Some((c as u8) - 87)
    } else {
        None
    }
}

/// Appends `value` to `out` as `width` lower-case hexadecimal digits.
pub fn push_hex(out: &mut String, value: u128, width: u8)
    ensures
        final(out)@ == old(out)@ + hex_of(value as nat, width as nat),
    decreases width,
{
    if width > 0 {
        push_hex(out, value / 16, width - 1);
        out.push(hex_digit_of((value % 16) as u8));
        assert(final(out)@ =~= old(out)@ + hex_of(value as nat, width as nat));
    } else {
        assert(out@ =~= old(out)@ + hex_of(value as nat, width as nat));
    }
}

/// Reads a text of at most thirty-two lower-case hexadecimal digits.
pub fn parse_hex(s: &str) -> (r: Option<u128>)
    ensures
        match r {
            Some(v) => s@.len() <= 32 && hex_number(s@) == Some(v as nat),
            None => s@.len() > 32 || hex_number(s@) is None,
        },
{
    let chars = chars_of(s);
    if chars.len() > 32 {
        return None;
    }
    let mut acc: u128 = 0;
    let mut i: usize = 0;
    while i < chars.len()
        invariant
            chars@ == s@,
            chars.len() <= 32,
            i <= chars.len(),
            hex_number(s@.take(i as int)) == Some(acc as nat),
        decreases chars.len() - i,
    {
        let ghost prefix = s@.take(i as int + 1);
        assert(prefix.drop_last() =~= s@.take(i as int));
        assert(prefix.last() == s@[i as int]);
        match hex_value_of(chars[i]) {
            Some(d) => {
                proof {
                    lemma_hex_number_bound(s@.take(i as int));
                    lemma_pow16_monotonic(i as nat + 1, 32);
                    lemma_pow16_values();
                }
                acc = acc * 16 + (d as u128);
            },
            None => {
                proof {
                    lemma_hex_number_prefix(s@, i as int + 1);
                }
                return None;
            },
        }
        i += 1;
    }
    assert(s@.take(i as int) =~= s@);
    Some(acc)
}

/// If a prefix holds a character that is no digit, so does the whole text.
pub proof fn lemma_hex_number_prefix(s: Seq<char>, n: int)
    requires
        0 <= n <= s.len(),
        hex_number(s.take(n)) is None,
    ensures
        hex_number(s) is None,
    decreases s.len() - n,
{
    if n < s.len() {
        assert(s.take(n + 1).drop_last() =~= s.take(n));
        lemma_hex_number_prefix(s, n + 1);
    } else {
        assert(s.take(n) =~= s);
    }
}

// ---------------------------------------------------------------------------
// Segments between hyphens
// ---------------------------------------------------------------------------

/// The index of the first hyphen of `s`, or its length if it has none.
pub open spec fn dash_index(s: Seq<char>) -> int
    decreases s.len(),
{
    if s.len() == 0 || s[0] == '-' {
        0
    } else {
        1 + dash_index(s.drop_first())
    }
}

/// What stands before the first hyphen (all of `s`, if it has none).
pub open spec fn first_segment(s: Seq<char>) -> Seq<char> {
    s.take(dash_index(s))
}

/// What stands behind the first hyphen (nothing, if `s` has none).
pub open spec fn after_first_dash(s: Seq<char>) -> Seq<char> {
    if dash_index(s) < s.len() {
        s.skip(dash_index(s) + 1)
    } else {
        Seq::empty()
    }
}

/// What stands between the first hyphen and the second (or the end).
pub open spec fn second_segment(s: Seq<char>) -> Seq<char> {
    first_segment(after_first_dash(s))
}

/// `s` is made of two or more non-empty segments joined by single hyphens.
pub open spec fn well_segmented(s: Seq<char>) -> bool {
    &&& s.len() > 0
    &&& s.first() != '-'
    &&& s.last() != '-'
    &&& exists|i: int| 0 <= i < s.len() && s[i] == '-'
    &&& forall|i: int, j: int|
        0 <= i && j == i + 1 && j < s.len() && #[trigger] s[i] == '-' ==> #[trigger] s[j] != '-'
}

/// `dash_index` is the least index at which a hyphen stands.
pub proof fn lemma_dash_index(s: Seq<char>)
    ensures
        0 <= dash_index(s) <= s.len(),
        forall|j: int| 0 <= j < dash_index(s) ==> s[j] != '-',
        dash_index(s) < s.len() ==> s[dash_index(s)] == '-',
    decreases s.len(),
{
    if s.len() > 0 && s[0] != '-' {
        let rest = s.drop_first();
        lemma_dash_index(rest);
        assert forall|j: int| 0 <= j < dash_index(s) implies s[j] != '-' by {
            if j > 0 {
                assert(s[j] == rest[j - 1]);
            }
        }
        assert(dash_index(s) < s.len() ==> s[dash_index(s)] == rest[dash_index(rest)]);
    }
}

/// The first index that holds a hyphen, with none before it, is
/// `dash_index`.
pub proof fn lemma_dash_index_is(s: Seq<char>, i: int)
    requires
        0 <= i <= s.len(),
        forall|j: int| 0 <= j < i ==> s[j] != '-',
        i < s.len() ==> s[i] == '-',
    ensures
        dash_index(s) == i,
{
    lemma_dash_index(s);
    let d = dash_index(s);
    if d < i {
        assert(s[d] == '-');
    } else if i < d {
        assert(s[i] == '-');
    }
}

/// The first two segments of a well-segmented text are not empty.
pub proof fn lemma_well_segmented(s: Seq<char>)
    requires
        well_segmented(s),
    ensures
        first_segment(s).len() > 0,
        second_segment(s).len() > 0,
{
    lemma_dash_index(s);
    let d = dash_index(s);
    let w = choose|i: int| 0 <= i < s.len() && s[i] == '-';
    assert(d <= w);
    assert(d < s.len() - 1);
    let rest = after_first_dash(s);
    assert(rest.len() > 0);
    assert(rest[0] == s[d + 1]);
    lemma_dash_index(rest);
}

/// The index of the first hyphen at or behind `from`, or the length where
/// there is none.
fn find_dash(chars: &Vec<char>, from: usize) -> (i: usize)
    requires
        from <= chars.len(),
    ensures
        from <= i <= chars.len(),
        i == from + dash_index(chars@.skip(from as int)),
{
    let mut i: usize = from;
    while i < chars.len() && chars[i] != '-'
        invariant
            from <= i <= chars.len(),
            forall|j: int| from <= j < i ==> chars@[j] != '-',
        decreases chars.len() - i,
    {
        i += 1;
    }
    proof {
        lemma_dash_index_is(chars@.skip(from as int), i - from);
    }
    i
}

/// The first segment of `name`.
pub fn first_segment_of(name: &str) -> (r: String)
    ensures
        r@ == first_segment(name@),
{
    let chars = chars_of(name);
    assert(chars@.skip(0) =~= chars@);
    let end = find_dash(&chars, 0);
    string_of(&chars, 0, end)
}

/// The second segment of `name`.
pub fn second_segment_of(name: &str) -> (r: String)
    ensures
        r@ == second_segment(name@),
{
    let chars = chars_of(name);
    assert(chars@.skip(0) =~= chars@);
    let dash = find_dash(&chars, 0);
    if dash < chars.len() {
        let end = find_dash(&chars, dash + 1);
        let r = string_of(&chars, dash + 1, end);
        assert(r@ =~= second_segment(name@));
        r
    } else {
        let r = String::new();
        proof {
            lemma_dash_index(Seq::<char>::empty());
            assert(r@ =~= second_segment(name@));
        }
        r
    }
}

} // verus!
