//! Text primitives: comparison, the digits-only test, and decimal numerals.
use vstd::prelude::*;
use vstd::string::*;
use vstd::utf8::*;

verus! {

/// Whether `c` is one of the ten decimal digits.
pub open spec fn is_digit(c: char) -> bool {
    '0' <= c <= '9'
}

/// Whether some character of `s` is not a decimal digit.
pub open spec fn has_non_digit(s: Seq<char>) -> bool {
    exists|i: int| 0 <= i < s.len() && !is_digit(#[trigger] s[i])
}

/// The number that the digit `c` stands for; zero for any other character.
pub open spec fn digit_value(c: char) -> nat {
    if is_digit(c) {
        (c as u32 - 48) as nat
    } else {
        0
    }
}

/// The number that `s` denotes when read as a decimal numeral.
pub open spec fn decimal_value(s: Seq<char>) -> nat
    decreases s.len(),
{
    if s.len() == 0 {
        0
    } else {
        decimal_value(s.drop_last()) * 10 + digit_value(s.last())
    }
}

/// The character that writes the digit `d`.
pub open spec fn digit_char(d: nat) -> char {
    if d == 0 {
        '0'
    } else if d == 1 {
        '1'
    } else if d == 2 {
        '2'
    } else if d == 3 {
        '3'
    } else if d == 4 {
        '4'
    } else if d == 5 {
        '5'
    } else if d == 6 {
        '6'
    } else if d == 7 {
        '7'
    } else if d == 8 {
        '8'
    } else {
        '9'
    }
}

/// The decimal numeral of `n`, without leading zeros.
pub open spec fn decimal_digits(n: nat) -> Seq<char>
    decreases n,
{
    if n < 10 {
        seq![digit_char(n)]
    } else {
        decimal_digits(n / 10).push(digit_char(n % 10))
    }
}

/// `s` without one pair of surrounding double quotes, if it has one.
pub open spec fn unquoted(s: Seq<char>) -> Seq<char> {
    if s.len() >= 2 && s.first() == '"' && s.last() == '"' {
        s.subrange(1, s.len() - 1)
    } else {
        s
    }
}

/// A numeral's prefix denotes no more than the numeral.
pub proof fn lemma_decimal_prefix_le(s: Seq<char>, k: int)
    requires
        0 <= k <= s.len(),
    ensures
        decimal_value(s.subrange(0, k)) <= decimal_value(s),
    decreases s.len() - k,
{
    if k == s.len() {
        assert(s.subrange(0, k) =~= s);
    } else {
        lemma_decimal_prefix_le(s, k + 1);
        let longer = s.subrange(0, k + 1);
        assert(longer.drop_last() =~= s.subrange(0, k));
    }
}

/// Reading back the numeral of `n` gives `n`, and the numeral holds digits only.
pub proof fn lemma_decimal_round_trip(n: nat)
    ensures
        decimal_value(decimal_digits(n)) == n,
        !has_non_digit(decimal_digits(n)),
        decimal_digits(n).len() > 0,
    decreases n,
{
    if n < 10 {
        let s = decimal_digits(n);
        assert(s.drop_last() =~= Seq::<char>::empty());
        assert(decimal_value(s.drop_last()) == 0);
        assert(s.last() == digit_char(n));
    } else {
        lemma_decimal_round_trip(n / 10);
        let head = decimal_digits(n / 10);
        let s = decimal_digits(n);
        assert(s.drop_last() =~= head);
        assert(s.last() == digit_char(n % 10));
        assert forall|i: int| 0 <= i < s.len() implies is_digit(#[trigger] s[i]) by {
            if i < head.len() {
                assert(s[i] == head[i]);
            }
        }
    }
}

/// Compares two strings by their characters.
pub fn same_text(a: &str, b: &str) -> (same: bool)
    ensures
        same == (a@ == b@),
{
    let x = a.as_bytes();
    let y = b.as_bytes();
    proof {
        encode_utf8_decode_utf8(a@);
        encode_utf8_decode_utf8(b@);
    }
    if x.len() != y.len() {
        return false;
    }
    let mut i: usize = 0;
    while i < x.len()
        invariant
            i <= x.len(),
            x.len() == y.len(),
            x@ == encode_utf8(a@),
            y@ == encode_utf8(b@),
            forall|k: int| 0 <= k < i ==> x@[k] == y@[k],
        decreases x.len() - i,
    {
        if x[i] != y[i] {
            return false;
        }
        i += 1;
    }
    assert(x@ =~= y@);
    true
}

/// Tells whether `s` holds a character other than `0` to `9`.
pub fn contains_non_digit(s: &str) -> (found: bool)
    ensures
        found == has_non_digit(s@),
{
    if !s.is_ascii() {
        proof {
            let i = choose|i: int| 0 <= i < s@.len() && !('\0' <= #[trigger] s@[i] <= '\u{7f}');
            assert(!is_digit(s@[i]));
        }
        return true;
    }
    let bytes = s.as_bytes();
    proof {
        is_ascii_chars_encode_utf8(s@);
    }
    let mut i: usize = 0;
    while i < bytes.len()
        invariant
            i <= bytes.len(),
            bytes.len() == s@.len(),
            is_ascii_chars(s@),
            forall|k: int| 0 <= k < s@.len() ==> #[trigger] s@[k] as u8 == bytes@[k],
            forall|k: int| 0 <= k < i ==> is_digit(#[trigger] s@[k]),
        decreases bytes.len() - i,
    {
        let b = bytes[i];
        assert(s@[i as int] as u8 == b);
        assert('\0' <= s@[i as int] <= '\u{7f}');
        if b < 48 || b > 57 {
            assert(!is_digit(s@[i as int]));
            return true;
        }
        i += 1;
    }
    false
}

/// Reads a non-empty run of digits as a 64-bit number.
///
/// Gives `None` for the empty string, for a string with any other character,
/// and for a numeral too large for 64 bits.
pub fn parse_decimal(s: &str) -> (parsed: Option<u64>)
    ensures
        parsed == if s@.len() > 0 && !has_non_digit(s@) && decimal_value(s@) <= u64::MAX {
            Some(decimal_value(s@) as u64)
        } else {
            None
        },
{
    if s.is_empty() || contains_non_digit(s) {
        return None;
    }
    assert(is_ascii_chars(s@)) by {
        assert forall|i: int| 0 <= i < s@.len() implies '\0' <= #[trigger] s@[i] <= '\u{7f}' by {
            assert(is_digit(s@[i]));
        }
    }
    let bytes = s.as_bytes();
    proof {
        is_ascii_chars_encode_utf8(s@);
    }
    let mut acc: u64 = 0;
    let mut i: usize = 0;
    assert(s@.subrange(0, 0) =~= Seq::<char>::empty());
    while i < bytes.len()
        invariant
            i <= bytes.len(),
            bytes.len() == s@.len(),
            !has_non_digit(s@),
            forall|k: int| 0 <= k < s@.len() ==> #[trigger] s@[k] as u8 == bytes@[k],
            acc == decimal_value(s@.subrange(0, i as int)),
        decreases bytes.len() - i,
    {
        let b = bytes[i];
        assert(is_digit(s@[i as int]));
        assert(s@[i as int] as u8 == b);
        let d: u64 = (b - 48) as u64;
        proof {
            let longer = s@.subrange(0, i + 1);
            assert(longer.drop_last() =~= s@.subrange(0, i as int));
            assert(longer.last() == s@[i as int]);
            assert(decimal_value(longer) == acc * 10 + d);
            lemma_decimal_prefix_le(s@, i + 1);
        }
        if acc > (u64::MAX - d) / 10 {
            return None;
        }
        acc = acc * 10 + d;
        i += 1;
    }
    assert(s@.subrange(0, i as int) =~= s@);
    Some(acc)
}

/// The one-character text of the digit `d`.
fn digit_text(d: usize) -> (text: &'static str)
    requires
        d < 10,
    ensures
        text@ == seq![digit_char(d as nat)],
{
    proof {
        reveal_strlit("0");
        reveal_strlit("1");
        reveal_strlit("2");
        reveal_strlit("3");
        reveal_strlit("4");
        reveal_strlit("5");
        reveal_strlit("6");
        reveal_strlit("7");
        reveal_strlit("8");
        reveal_strlit("9");
    }
    let text = if d == 0 {
        "0"
    } else if d == 1 {
        "1"
    } else if d == 2 {
        "2"
    } else if d == 3 {
        "3"
    } else if d == 4 {
        "4"
    } else if d == 5 {
        "5"
    } else if d == 6 {
        "6"
    } else if d == 7 {
        "7"
    } else if d == 8 {
        "8"
    } else {
        "9"
    };
    assert(text@ =~= seq![digit_char(d as nat)]);
    text
}

/// Writes `n` as a decimal numeral.
pub fn decimal_text(n: usize) -> (text: String)
    ensures
        text@ == decimal_digits(n as nat),
    decreases n,
{
    let unit = digit_text(n % 10);
    if n < 10 {
        unit.to_owned()
    } else {
        let mut text = decimal_text(n / 10);
        text.append(unit);
        assert(text@ =~= decimal_digits((n / 10) as nat).push(digit_char((n % 10) as nat)));
        text
    }
}

/// Copies `s`, leaving out one pair of surrounding double quotes if it has one.
pub fn unquote(s: &str) -> (bare: String)
    ensures
        bare@ == unquoted(s@),
{
    let n = s.unicode_len();
    if n >= 2 && s.get_char(0) == '"' && s.get_char(n - 1) == '"' {
        s.substring_char(1, n - 1).to_owned()
    } else {
        s.to_owned()
    }
}

} // verus!
