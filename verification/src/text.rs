//! Number formatting and UTF-16 conversion on plain values.

use vstd::prelude::*;

verus! {

/// `String::push` of std: appends one character at the end of the string.
pub assume_specification[ String::push ](s: &mut String, c: char)
    ensures
        final(s)@ == old(s)@.push(c),
;

/// `char::from_u32` of std: the character with that code, for every code that
/// is a Unicode scalar value, and nothing for any other.
pub assume_specification[ char::from_u32 ](code: u32) -> (c: Option<char>)
    ensures
        is_scalar(code as int) <==> c is Some,
        c matches Some(ch) ==> ch as int == code,
;

/// Whether an integer is a Unicode scalar value.
pub open spec fn is_scalar(code: int) -> bool {
    0 <= code <= 0xD7FF || 0xE000 <= code <= 0x10FFFF
}

/// The digits of `value` in `base`, most significant first, without leading
/// zeros (zero itself has the one digit `0`).
pub open spec fn digits(value: nat, base: nat) -> Seq<nat>
    decreases value,
{
    if base < 2 || value < base {
        seq![value]
    } else {
        proof {
            assert(value / base < value) by (nonlinear_arith)
                requires
                    base >= 2,
                    value >= base,
            ;
        }
        digits(value / base, base).push(value % base)
    }
}

/// The character that stands for one digit.
pub open spec fn digit_char(digit: nat, upper: bool) -> char {
    if digit < 10 {
        (48 + digit) as char
    } else if upper {
        (55 + digit) as char
    } else {
        (87 + digit) as char
    }
}

/// `value` written in `base`, padded on the left with `0` to `width`
/// characters.
pub open spec fn number_text(value: nat, base: nat, width: nat, upper: bool) -> Seq<char> {
    let text = digits(value, base).map_values(|d: nat| digit_char(d, upper));
    if text.len() >= width {
        text
    } else {
        Seq::new((width - text.len()) as nat, |i: int| '0') + text
    }
}

/// `value` in decimal.
pub open spec fn decimal(value: nat) -> Seq<char> {
    number_text(value, 10, 0, false)
}

fn digit(value: u8, upper: bool) -> (c: char)
    requires
        value < 16,
    ensures
        c == digit_char(value as nat, upper),
{
    if value < 10 {
        (48 + value) as char
    } else if upper {
        (55 + value) as char
    } else {
        (87 + value) as char
    }
}

fn push_digits(out: &mut String, value: u64, base: u64, upper: bool)
    requires
        2 <= base <= 16,
    ensures
        final(out)@ == old(out)@ + digits(value as nat, base as nat).map_values(
            |d: nat| digit_char(d, upper),
        ),
    decreases value,
{
    let ghost f = |d: nat| digit_char(d, upper);
    if value < base {
        out.push(digit(value as u8, upper));
        assert(digits(value as nat, base as nat).map_values(f) =~= seq![
            digit_char(value as nat, upper),
        ]);
    } else {
        assert(value / base < value) by (nonlinear_arith)
            requires
                base >= 2,
                value >= base,
        ;
        push_digits(out, value / base, base, upper);
        out.push(digit((value % base) as u8, upper));
        assert(digits(value as nat, base as nat).map_values(f) =~= digits(
            (value / base) as nat,
            base as nat,
        ).map_values(f).push(digit_char((value % base) as nat, upper)));
    }
}

fn digit_count(value: u64, base: u64) -> (n: u64)
    requires
        2 <= base <= 16,
    ensures
        n == digits(value as nat, base as nat).len(),
{
    let mut n: u64 = 1;
    let mut rest: u64 = value;
    while rest >= base
        invariant
            2 <= base <= 16,
            1 <= n,
            n - 1 + rest <= value,
            n - 1 + digits(rest as nat, base as nat).len() == digits(
                value as nat,
                base as nat,
            ).len(),
        decreases rest,
    {
        assert(rest / base < rest) by (nonlinear_arith)
            requires
                base >= 2,
                rest >= base,
        ;
        rest = rest / base;
        n = n + 1;
    }
    n
}

/// Appends `value` in `base`, padded with zeros to `width` characters.
pub fn push_number(out: &mut String, value: u64, base: u64, width: u64, upper: bool)
    requires
        2 <= base <= 16,
    ensures
        final(out)@ == old(out)@ + number_text(value as nat, base as nat, width as nat, upper),
{
    let count: u64 = digit_count(value, base);
    let mut missing: u64 = if width > count {
        width - count
    } else {
        0
    };
    let ghost total = missing as nat;
    let ghost start = out@;
    while missing > 0
        invariant
            missing <= total,
            out@ == start + Seq::new((total - missing) as nat, |i: int| '0'),
        decreases missing,
    {
        out.push('0');
        missing = missing - 1;
        assert(out@ =~= start + Seq::new((total - missing) as nat, |i: int| '0'));
    }
    push_digits(out, value, base, upper);
    assert(out@ =~= start + number_text(value as nat, base as nat, width as nat, upper));
}

/// Appends a string.
pub fn push_str(out: &mut String, s: &str)
    ensures
        final(out)@ == old(out)@ + s@,
{
    out.append(s);
}

/// Whether two strings hold the same characters.
pub fn same_text(a: &str, b: &str) -> (same: bool)
    ensures
        same == (a@ == b@),
{
    a.to_owned() == b.to_owned()
}

/// The UTF-16 units of one character.
pub open spec fn char_units(c: char) -> Seq<u16> {
    let code = c as int;
    if code < 0x10000 {
        seq![code as u16]
    } else {
        seq![
            (0xD800 + (code - 0x10000) / 0x400) as u16,
            (0xDC00 + (code - 0x10000) % 0x400) as u16,
        ]
    }
}

/// The UTF-16 units of a text.
pub open spec fn utf16_of(chars: Seq<char>) -> Seq<u16>
    decreases chars.len(),
{
    if chars.len() == 0 {
        Seq::empty()
    } else {
        char_units(chars[0]) + utf16_of(chars.skip(1))
    }
}

/// A unit that starts a surrogate pair.
pub open spec fn is_high(unit: u16) -> bool {
    0xD800 <= unit <= 0xDBFF
}

/// A unit that ends a surrogate pair.
pub open spec fn is_low(unit: u16) -> bool {
    0xDC00 <= unit <= 0xDFFF
}

/// The character that a surrogate pair stands for.
pub open spec fn pair_char(high: u16, low: u16) -> char {
    (0x10000 + (high - 0xD800) * 0x400 + (low - 0xDC00)) as char
}

/// The text of a run of UTF-16 units; a surrogate without its partner becomes
/// the replacement character.
pub open spec fn utf16_text(units: Seq<u16>) -> Seq<char>
    decreases units.len(),
{
    if units.len() == 0 {
        Seq::empty()
    } else if is_high(units[0]) && units.len() >= 2 && is_low(units[1]) {
        seq![pair_char(units[0], units[1])] + utf16_text(units.skip(2))
    } else if is_high(units[0]) || is_low(units[0]) {
        seq!['\u{FFFD}'] + utf16_text(units.skip(1))
    } else {
        seq![units[0] as char] + utf16_text(units.skip(1))
    }
}

/// Encodes a text as UTF-16.
pub fn encode_utf16(s: &str) -> (units: Vec<u16>)
    ensures
        units@ == utf16_of(s@),
{
    let n: usize = s.unicode_len();
    let mut units: Vec<u16> = Vec::new();
    let mut i: usize = 0;
    assert(s@.skip(0) =~= s@);
    while i < n
        invariant
            i <= n,
            n == s@.len(),
            units@ + utf16_of(s@.skip(i as int)) == utf16_of(s@),
        decreases n - i,
    {
        let c = s.get_char(i);
        let code: u32 = c as u32;
        let ghost before = units@;
        assert(s@.skip(i as int)[0] == c);
        assert(s@.skip(i as int).skip(1) =~= s@.skip(i + 1));
        if code < 0x10000 {
            units.push(code as u16);
        } else {
            let rest: u32 = code - 0x10000;
            assert(code <= 0x10FFFF);
            units.push((0xD800 + rest / 0x400) as u16);
            units.push((0xDC00 + rest % 0x400) as u16);
        }
        i = i + 1;
        assert(units@ =~= before + char_units(c));
        assert(units@ + utf16_of(s@.skip(i as int)) =~= before + (char_units(c) + utf16_of(
            s@.skip(i as int),
        )));
    }
    assert(s@.skip(n as int) =~= Seq::empty());
    assert(units@ + utf16_of(s@.skip(n as int)) =~= units@);
    units
}

/// Encodes a text as UTF-16 with a zero unit at its end.
pub fn wide_null(s: &str) -> (units: Vec<u16>)
    ensures
        units@ == utf16_of(s@).push(0),
{
    let mut units = encode_utf16(s);
    units.push(0);
    units
}

/// Decodes UTF-16 units; a surrogate without its partner becomes the
/// replacement character.
pub fn decode_utf16_lossy(units: &[u16]) -> (s: String)
    ensures
        s@ == utf16_text(units@),
{
    let mut s = String::new();
    let mut i: usize = 0;
    assert(units@.skip(0) =~= units@);
    while i < units.len()
        invariant
            i <= units@.len(),
            s@ + utf16_text(units@.skip(i as int)) == utf16_text(units@),
        decreases units@.len() - i,
    {
        let ghost before = s@;
        let ghost start = i as int;
        let ghost rest = units@.skip(start);
        let unit: u16 = units[i];
        assert(rest[0] == unit);
        assert(rest.skip(1) =~= units@.skip(start + 1));
        let high = 0xD800 <= unit && unit <= 0xDBFF;
        let low = 0xDC00 <= unit && unit <= 0xDFFF;
        let mut code: u32 = if high || low {
            0xFFFD
        } else {
            unit as u32
        };
        i = i + 1;
        if high && i < units.len() {
            let next: u16 = units[i];
            assert(rest[1] == next);
            assert(rest.skip(2) =~= units@.skip(start + 2));
            if 0xDC00 <= next && next <= 0xDFFF {
                code = 0x10000 + (unit as u32 - 0xD800) * 0x400 + (next as u32 - 0xDC00);
                i = i + 1;
            }
        }
        let c = match char::from_u32(code) {
            Some(c) => c,
            None => '\u{FFFD}',
        };
        s.push(c);
        assert(utf16_text(rest) == seq![c] + utf16_text(units@.skip(i as int)));
        assert(s@ + utf16_text(units@.skip(i as int)) =~= before + (seq![c] + utf16_text(
            units@.skip(i as int),
        )));
    }
    assert(units@.skip(i as int) =~= Seq::empty());
    assert(s@ + utf16_text(units@.skip(i as int)) =~= s@);
    s
}

proof fn lemma_char_round_trip(c: char)
    ensures
        ({
            let units = char_units(c);
            if c as int >= 0x10000 {
                &&& units.len() == 2
                &&& is_high(units[0])
                &&& is_low(units[1])
                &&& pair_char(units[0], units[1]) == c
            } else {
                &&& units.len() == 1
                &&& !is_high(units[0])
                &&& !is_low(units[0])
                &&& units[0] as char == c
            }
        }),
{
    assert(is_scalar(c as int));
}

/// Decoding gives back the text that was encoded.
pub proof fn law_decode_undoes_encode(chars: Seq<char>)
    ensures
        utf16_text(utf16_of(chars)) == chars,
    decreases chars.len(),
{
    if chars.len() > 0 {
        let c = chars[0];
        let code = c as int;
        let head = char_units(c);
        let tail = utf16_of(chars.skip(1));
        let units = head + tail;
        law_decode_undoes_encode(chars.skip(1));
        lemma_char_round_trip(c);
        assert(units.skip(head.len() as int) =~= tail);
        if code < 0x10000 {
            assert(units[0] as char == c);
            assert(utf16_text(units) == seq![c] + utf16_text(tail));
        } else {
            assert(is_high(units[0]) && is_low(units[1]));
            assert(pair_char(units[0], units[1]) == c);
            assert(utf16_text(units) == seq![c] + utf16_text(tail));
        }
        assert(seq![c] + chars.skip(1) =~= chars);
    } else {
        assert(utf16_text(utf16_of(chars)) =~= chars);
    }
}

/// The number that one digit stands for, in either case.
pub open spec fn digit_value(c: char) -> nat {
    if c as int >= 97 {
        (c as int - 87) as nat
    } else if c as int >= 65 {
        (c as int - 55) as nat
    } else {
        (c as int - 48) as nat
    }
}

/// The number that a text stands for when it is read in `base`.
pub open spec fn number_in(text: Seq<char>, base: nat) -> nat
    decreases text.len(),
{
    if text.len() == 0 {
        0
    } else {
        number_in(text.drop_last(), base) * base + digit_value(text.last())
    }
}

/// Whether a character is a digit, with letters of the given case.
pub open spec fn is_digit(c: char, upper: bool) -> bool {
    ||| 48 <= c as int <= 57
    ||| upper && 65 <= c as int <= 70
    ||| !upper && 97 <= c as int <= 102
}

proof fn lemma_digits_read_back(value: nat, base: nat, upper: bool)
    requires
        2 <= base <= 16,
    ensures
        ({
            let text = digits(value, base).map_values(|d: nat| digit_char(d, upper));
            &&& text.len() >= 1
            &&& number_in(text, base) == value
            &&& text.len() > 1 ==> text[0] != '0'
            &&& value > 0 ==> text[0] != '0'
            &&& forall|i: int| 0 <= i < text.len() ==> is_digit(#[trigger] text[i], upper)
        }),
    decreases value,
{
    let f = |d: nat| digit_char(d, upper);
    let text = digits(value, base).map_values(f);
    if value < base {
        assert(text =~= seq![digit_char(value, upper)]);
        assert(text.drop_last() =~= Seq::empty());
        assert(number_in(text.drop_last(), base) == 0);
        assert(0 * base == 0) by (nonlinear_arith);
        assert(text.last() == digit_char(value, upper));
    } else {
        assert(value / base < value && value / base > 0) by (nonlinear_arith)
            requires
                base >= 2,
                value >= base,
        ;
        lemma_digits_read_back(value / base, base, upper);
        let front = digits(value / base, base).map_values(f);
        let last = value % base;
        assert(0 <= last < base) by (nonlinear_arith)
            requires
                base >= 2,
                last == value % base,
        ;
        assert(text =~= front.push(digit_char(last, upper)));
        assert(text.drop_last() =~= front);
        assert((value / base) * base + value % base == value) by (nonlinear_arith)
            requires
                base >= 2,
        ;
        assert(text[0] == front[0]);
        assert forall|i: int| 0 <= i < text.len() implies is_digit(#[trigger] text[i], upper) by {
            if i < front.len() {
                assert(text[i] == front[i]);
            }
        }
    }
}

proof fn lemma_leading_zeros(n: nat, text: Seq<char>, base: nat)
    ensures
        number_in(Seq::new(n, |i: int| '0') + text, base) == number_in(text, base),
    decreases text.len() + n,
{
    let zeros = Seq::new(n, |i: int| '0');
    let padded = zeros + text;
    if text.len() > 0 {
        assert(padded.drop_last() =~= zeros + text.drop_last());
        lemma_leading_zeros(n, text.drop_last(), base);
    } else if n > 0 {
        let fewer = Seq::new((n - 1) as nat, |i: int| '0');
        assert(padded.drop_last() =~= fewer + text);
        lemma_leading_zeros((n - 1) as nat, text, base);
        assert(number_in(text, base) == 0);
        assert(0 * base == 0);
    } else {
        assert(padded =~= text);
    }
}

/// A written number reads back as the number, whatever the base and the width. It
/// has at least the asked width, is no longer than it has to be, and is made of
/// digits of the asked case alone.
pub proof fn law_numbers_read_back(value: nat, base: nat, width: nat, upper: bool)
    requires
        2 <= base <= 16,
    ensures
        ({
            let text = number_text(value, base, width, upper);
            &&& number_in(text, base) == value
            &&& text.len() >= width
            &&& text.len() >= 1
            &&& text.len() > width && text.len() > 1 ==> text[0] != '0'
            &&& forall|i: int| 0 <= i < text.len() ==> is_digit(#[trigger] text[i], upper)
        }),
        number_in(decimal(value), 10) == value,
        decimal(value).len() > 1 ==> decimal(value)[0] != '0',
        forall|i: int| 0 <= i < decimal(value).len() ==> 48 <= #[trigger] decimal(value)[i] as int
            <= 57,
{
    lemma_digits_read_back(value, base, upper);
    let plain = digits(value, base).map_values(|d: nat| digit_char(d, upper));
    if plain.len() < width {
        lemma_leading_zeros((width - plain.len()) as nat, plain, base);
    }
    lemma_decimal_digits(value);
}

proof fn lemma_decimal_digits(value: nat)
    ensures
        number_in(decimal(value), 10) == value,
        decimal(value).len() > 1 ==> decimal(value)[0] != '0',
        forall|i: int| 0 <= i < decimal(value).len() ==> 48 <= #[trigger] decimal(value)[i] as int
            <= 57,
{
    lemma_digits_read_back(value, 10, true);
    lemma_digits_read_back(value, 10, false);
    let f = |d: nat| digit_char(d, false);
    assert forall|i: int| 0 <= i < decimal(value).len() implies 48
        <= #[trigger] decimal(value)[i] as int <= 57 by {
        lemma_small_digits(value, 10, i);
        assert(decimal(value)[i] == digit_char(digits(value, 10)[i], false));
    }
}

proof fn lemma_small_digits(value: nat, base: nat, i: int)
    requires
        2 <= base <= 16,
        0 <= i < digits(value, base).len(),
    ensures
        digits(value, base)[i] < base,
    decreases value,
{
    if value >= base {
        assert(value / base < value && value % base < base) by (nonlinear_arith)
            requires
                base >= 2,
                value >= base,
        ;
        if i < digits(value / base, base).len() {
            lemma_small_digits(value / base, base, i);
        }
    }
}

/// A character of the basic plane is the one unit with its code; any other is a high
/// and a low surrogate that hold the upper and the lower ten bits of its code less
/// 0x10000.
pub proof fn law_units_of_a_character(c: char)
    ensures
        ({
            let units = utf16_of(seq![c]);
            if (c as int) < 0x10000 {
                units.len() == 1 && units[0] == c as int
            } else {
                &&& units.len() == 2
                &&& 0xD800 <= units[0] <= 0xDBFF
                &&& 0xDC00 <= units[1] <= 0xDFFF
                &&& 0x10000 + (units[0] - 0xD800) * 0x400 + (units[1] - 0xDC00) == c as int
            }
        }),
{
    assert(is_scalar(c as int));
    assert(seq![c].skip(1) =~= Seq::empty());
    reveal_with_fuel(utf16_of, 2);
    assert(utf16_of(seq![c]) =~= char_units(c));
}

/// A text is encoded character by character.
pub proof fn law_encoding_goes_by_characters(a: Seq<char>, b: Seq<char>)
    ensures
        utf16_of(a + b) == utf16_of(a) + utf16_of(b),
    decreases a.len(),
{
    if a.len() == 0 {
        assert(a + b =~= b);
        assert(utf16_of(a) + utf16_of(b) =~= utf16_of(b));
    } else {
        assert((a + b).skip(1) =~= a.skip(1) + b);
        law_encoding_goes_by_characters(a.skip(1), b);
        assert(utf16_of(a + b) =~= utf16_of(a) + utf16_of(b));
    }
}

/// One unit by itself is the character with its code, or the replacement character
/// where it is a surrogate; a high surrogate in front of a low one is the character
/// that the two hold ten bits each of.
pub proof fn law_characters_of_units(unit: u16, next: u16)
    ensures
        utf16_text(seq![unit]).len() == 1,
        0xD800 <= unit <= 0xDFFF ==> utf16_text(seq![unit])[0] as int == 0xFFFD,
        !(0xD800 <= unit <= 0xDFFF) ==> utf16_text(seq![unit])[0] as int == unit,
        0xD800 <= unit <= 0xDBFF && 0xDC00 <= next <= 0xDFFF ==> {
            &&& utf16_text(seq![unit, next]).len() == 1
            &&& utf16_text(seq![unit, next])[0] as int == 0x10000 + (unit - 0xD800) * 0x400 + (next
                - 0xDC00)
        },
{
    reveal_with_fuel(utf16_text, 2);
    assert(seq![unit].skip(1) =~= Seq::empty());
    assert(seq![unit, next].skip(2) =~= Seq::empty());
}

/// Units are decoded piece by piece, wherever the cut does not part a surrogate
/// pair.
pub proof fn law_decoding_goes_by_pieces(a: Seq<u16>, b: Seq<u16>)
    requires
        a.len() > 0 && b.len() > 0 ==> !(0xD800 <= a.last() <= 0xDBFF && 0xDC00 <= b[0] <= 0xDFFF),
    ensures
        utf16_text(a + b) == utf16_text(a) + utf16_text(b),
    decreases a.len(),
{
    if a.len() == 0 {
        assert(a + b =~= b);
        assert(utf16_text(a) + utf16_text(b) =~= utf16_text(b));
    } else if is_high(a[0]) && a.len() >= 2 && is_low(a[1]) {
        assert((a + b).skip(2) =~= a.skip(2) + b);
        law_decoding_goes_by_pieces(a.skip(2), b);
        assert(utf16_text(a + b) =~= utf16_text(a) + utf16_text(b));
    } else {
        assert((a + b).skip(1) =~= a.skip(1) + b);
        law_decoding_goes_by_pieces(a.skip(1), b);
        if a.len() >= 2 {
            assert((a + b)[1] == a[1]);
        } else if b.len() > 0 {
            assert((a + b)[1] == b[0]);
        }
        assert(utf16_text(a + b) =~= utf16_text(a) + utf16_text(b));
    }
}

proof fn lemma_digit_count(value: nat, base: nat, width: nat)
    requires
        2 <= base <= 16,
        width >= 1,
        value < vstd::arithmetic::power::pow(base as int, width),
    ensures
        digits(value, base).len() <= width,
    decreases width,
{
    reveal(vstd::arithmetic::power::pow);
    if value >= base {
        let below = vstd::arithmetic::power::pow(base as int, (width - 1) as nat);
        assert(width > 1) by {
            reveal_with_fuel(vstd::arithmetic::power::pow, 3);
        }
        assert(value / base < below) by (nonlinear_arith)
            requires
                value < base * below,
                base >= 2,
        ;
        lemma_digit_count(value / base, base, (width - 1) as nat);
    }
}

/// A number that fits in the asked width is written with just so many characters.
pub proof fn lemma_width(value: nat, base: nat, width: nat)
    requires
        2 <= base <= 16,
        width >= 1,
        value < vstd::arithmetic::power::pow(base as int, width),
    ensures
        number_text(value, base, width, true).len() == width,
        number_text(value, base, width, false).len() == width,
{
    lemma_digit_count(value, base, width);
}

} // verus!
