//! Unsigned integer parsing in base 10 or 16, and lowercase hexadecimal
//! block identifiers.
use vstd::prelude::*;

verus! {

/// The value of `c` as a digit in bases up to 16, or 16 for any other char.
pub open spec fn digit_of(c: char) -> int {
    if '0' <= c && c <= '9' {
        c as int - '0' as int
    } else if 'a' <= c && c <= 'f' {
        c as int - 'a' as int + 10
    } else if 'A' <= c && c <= 'F' {
        c as int - 'A' as int + 10
    } else {
        16
    }
}

pub open spec fn is_digit(c: char, radix: int) -> bool {
    digit_of(c) < radix
}

pub open spec fn all_digits(s: Seq<char>, radix: int) -> bool {
    forall|i: int| 0 <= i < s.len() ==> is_digit(#[trigger] s[i], radix)
}

/// The number that the digits of `s` spell in base `radix`, most significant first.
pub open spec fn digits_value(s: Seq<char>, radix: int) -> int
    decreases s.len(),
{
    if s.len() == 0 {
        0
    } else {
        digits_value(s.drop_last(), radix) * radix + digit_of(s.last())
    }
}

/// `s` with one leading `+` removed, if it has one.
pub open spec fn unsigned_body(s: Seq<char>) -> Seq<char> {
    if s.len() > 0 && s[0] == '+' {
        s.drop_first()
    } else {
        s
    }
}

/// An unsigned 64-bit integer written in base `radix`: an optional `+`, then
/// at least one digit, the value fitting in 64 bits.
pub open spec fn parse_unsigned(s: Seq<char>, radix: int) -> Option<u64> {
    let body = unsigned_body(s);
    if body.len() > 0 && all_digits(body, radix) && digits_value(body, radix) <= u64::MAX {
        Some(digits_value(body, radix) as u64)
    } else {
        None
    }
}

/// `s` without its leading `0x`, if it has one.
pub open spec fn strip_hex_prefix(s: Seq<char>) -> Seq<char> {
    if s.len() >= 2 && s[0] == '0' && s[1] == 'x' {
        s.subrange(2, s.len() as int)
    } else {
        s
    }
}

/// Lenient hexadecimal decoding: the base-16 value after an optional `0x`,
/// and 0 for anything that is not such a number.
pub open spec fn hex_or_zero(s: Seq<char>) -> u64 {
    let t = strip_hex_prefix(s);
    if is_hex_numeral(t) {
        digits_value(t, 16) as u64
    } else {
        0
    }
}

/// One or more base-16 digits, and nothing else, whose value fits in 64 bits.
pub open spec fn is_hex_numeral(t: Seq<char>) -> bool {
    t.len() > 0 && all_digits(t, 16) && digits_value(t, 16) <= u64::MAX
}

pub open spec fn hex_char(d: nat) -> char {
    if d < 10 {
        (('0' as nat) + d) as char
    } else {
        (('a' as nat) + d - 10) as char
    }
}

/// Lowercase base-16 digits of `n`, without leading zeros (`0` for zero).
pub open spec fn lower_hex(n: nat) -> Seq<char>
    decreases n,
{
    if n < 16 {
        seq![hex_char(n)]
    } else {
        lower_hex(n / 16).push(hex_char(n % 16))
    }
}

/// The block identifier that names block `n`: `0x` and its lowercase hex digits.
pub open spec fn hex_id(n: nat) -> Seq<char> {
    seq!['0', 'x'] + lower_hex(n)
}

proof fn lemma_prefix_value_le(s: Seq<char>, radix: int, j: int, k: int)
    requires
        radix >= 1,
        0 <= j <= k <= s.len(),
        all_digits(s, radix),
    ensures
        0 <= digits_value(s.subrange(0, j), radix) <= digits_value(s.subrange(0, k), radix),
    decreases k - j,
{
    if j < k {
        lemma_prefix_value_le(s, radix, j, k - 1);
        let p = s.subrange(0, k);
        assert(p.drop_last() =~= s.subrange(0, k - 1));
        assert(is_digit(s[k - 1], radix));
        let v = digits_value(s.subrange(0, k - 1), radix);
        assert(v * radix >= v) by (nonlinear_arith)
            requires
                v >= 0,
                radix >= 1,
        ;
    } else {
        lemma_value_nonneg(s.subrange(0, j), radix);
    }
}

proof fn lemma_value_nonneg(s: Seq<char>, radix: int)
    requires
        radix >= 1,
        all_digits(s, radix),
    ensures
        digits_value(s, radix) >= 0,
    decreases s.len(),
{
    if s.len() > 0 {
        let p = s.drop_last();
        assert(all_digits(p, radix)) by {
            assert forall|i: int| 0 <= i < p.len() implies is_digit(#[trigger] p[i], radix) by {
                assert(p[i] == s[i]);
            }
        }
        lemma_value_nonneg(p, radix);
        let v = digits_value(p, radix);
        assert(v * radix >= 0) by (nonlinear_arith)
            requires
                v >= 0,
                radix >= 1,
        ;
        assert(is_digit(s[s.len() - 1], radix));
    }
}

fn digit_value(c: char) -> (r: u64)
    ensures
        r == digit_of(c),
{
    if '0' <= c && c <= '9' {
        (c as u64) - ('0' as u64)
    } else if 'a' <= c && c <= 'f' {
        (c as u64) - ('a' as u64) + 10
    } else if 'A' <= c && c <= 'F' {
        (c as u64) - ('A' as u64) + 10
    } else {
        16
    }
}

/// Reads `s` as an unsigned 64-bit integer in base `radix`: an optional `+`
/// and one or more digits; `None` for anything else or a value above `u64::MAX`.
pub fn parse_u64(s: &str, radix: u32) -> (r: Option<u64>)
    requires
        2 <= radix <= 16,
    ensures
        r == parse_unsigned(s@, radix as int),
{
    let len = s.unicode_len();
    let mut start: usize = 0;
    if len > 0 && s.get_char(0) == '+' {
        start = 1;
    }
    if start == len {
        proof {
            assert(unsigned_body(s@).len() == 0);
        }
        return None;
    }
    let ghost body = unsigned_body(s@);
    assert(body =~= s@.subrange(start as int, len as int));
    let mut acc: u64 = 0;
    let mut overflow = false;
    let mut i: usize = start;
    while i < len
        invariant
            start <= i <= len,
            len == s@.len(),
            2 <= radix <= 16,
            body == s@.subrange(start as int, len as int),
            body == unsigned_body(s@),
            all_digits(body.subrange(0, i - start), radix as int),
            !overflow ==> acc == digits_value(body.subrange(0, i - start), radix as int),
            overflow ==> digits_value(body.subrange(0, i - start), radix as int) > u64::MAX,
        decreases len - i,
    {
        let c = s.get_char(i);
        let d = digit_value(c);
        if d >= radix as u64 {
            proof {
                assert(body[i - start] == c);
                assert(!all_digits(body, radix as int));
            }
            return None;
        }
        proof {
            let p = body.subrange(0, i - start + 1);
            assert(p.drop_last() =~= body.subrange(0, i - start));
            assert(p.last() == c);
            assert(all_digits(p, radix as int)) by {
                assert forall|k: int| 0 <= k < p.len() implies is_digit(#[trigger] p[k], radix as int) by {
                    if k < p.len() - 1 {
                        assert(p[k] == body.subrange(0, i - start)[k]);
                    }
                }
            }
            if overflow {
                lemma_prefix_value_le(p, radix as int, p.len() - 1, p.len() as int);
                assert(p.subrange(0, p.len() - 1) =~= body.subrange(0, i - start));
                assert(p.subrange(0, p.len() as int) =~= p);
            }
        }
        if !overflow {
            match acc.checked_mul(radix as u64) {
                Some(m) => match m.checked_add(d) {
                    Some(v) => {
                        acc = v;
                    },
                    None => {
                        overflow = true;
                    },
                },
                None => {
                    proof {
                        let prev = digits_value(body.subrange(0, i - start), radix as int);
                        assert(prev * radix + d >= prev * radix);
                    }
                    overflow = true;
                },
            }
        }
        i = i + 1;
    }
    proof {
        assert(body.subrange(0, len - start) =~= body);
    }
    if overflow {
        None
    } else {
        Some(acc)
    }
}

/// Lenient hexadecimal decoding of a field: strips one leading `0x`, reads
/// the rest as base-16 digits (no sign), and gives 0 where that fails.
pub fn decode_hex(h: &str) -> (r: u64)
    ensures
        r == hex_or_zero(h@),
{
    let len = h.unicode_len();
    let digits = if len >= 2 && h.get_char(0) == '0' && h.get_char(1) == 'x' {
        h.substring_char(2, len)
    } else {
        h
    };
    let n = digits.unicode_len();
    if n > 0 && digits.get_char(0) == '+' {
        proof {
            assert(!is_digit(digits@[0], 16));
        }
        return 0;
    }
    proof {
        assert(unsigned_body(digits@) == digits@);
    }
    match parse_u64(digits, 16) {
        Some(v) => v,
        None => 0,
    }
}

fn hex_char_text(d: u64) -> (r: &'static str)
    requires
        d < 16,
    ensures
        r@ == seq![hex_char(d as nat)],
{
    proof {
        reveal_strlit("0");
        reveal_strlit("1");
        reveal_strlit("2");
        reveal_strlit("3");
        reveal_strlit("4");
        reveal_strlit("5");
        reveal_strlit("6");
        reveal_strlit("7");
        reveal_strlit("8");
        reveal_strlit("9");
        reveal_strlit("a");
        reveal_strlit("b");
        reveal_strlit("c");
        reveal_strlit("d");
        reveal_strlit("e");
        reveal_strlit("f");
    }
    let r = match d {
        0 => "0",
        1 => "1",
        2 => "2",
        3 => "3",
        4 => "4",
        5 => "5",
        6 => "6",
        7 => "7",
        8 => "8",
        9 => "9",
        10 => "a",
        11 => "b",
        12 => "c",
        13 => "d",
        14 => "e",
        _ => "f",
    };
    assert(r@ =~= seq![hex_char(d as nat)]);
    r
}

fn push_lower_hex(out: &mut String, n: u64)
    ensures
        final(out)@ == old(out)@ + lower_hex(n as nat),
    decreases n,
{
    if n >= 16 {
        push_lower_hex(out, n / 16);
    }
    out.append(hex_char_text(n % 16));
    proof {
        if n >= 16 {
            assert(lower_hex(n as nat) == lower_hex((n / 16) as nat).push(hex_char((n % 16) as nat)));
        }
        assert(final(out)@ =~= old(out)@ + lower_hex(n as nat));
    }
}

/// Formats `n` as a block identifier: `0x` followed by its lowercase hex digits.
pub fn format_hex_id(n: u64) -> (r: String)
    ensures
        r@ == hex_id(n as nat),
{
    let mut out = String::from_str("0x");
    proof {
        reveal_strlit("0x");
    }
    push_lower_hex(&mut out, n);
    assert(out@ =~= hex_id(n as nat));
    out
}

/// A `0x` followed by one or more hex digits whose value fits in 64 bits
/// decodes to the value of those digits read in base 16.
pub proof fn decode_hex_reads_digits(digits: Seq<char>)
    requires
        digits.len() > 0,
        all_digits(digits, 16),
        digits_value(digits, 16) <= u64::MAX,
    ensures
        hex_or_zero(seq!['0', 'x'] + digits) == digits_value(digits, 16),
{
    let h = seq!['0', 'x'] + digits;
    assert(h[0] == '0' && h[1] == 'x');
    assert(h.subrange(2, h.len() as int) =~= digits);
    assert(strip_hex_prefix(h) == digits);
    assert(is_digit(digits[0], 16));
    lemma_value_nonneg(digits, 16);
}

/// Text that, after an optional `0x`, is not a base-16 numeral (absent
/// digits, a sign or other stray character, or a value beyond 64 bits)
/// decodes to 0.
pub proof fn decode_hex_defaults_to_zero(h: Seq<char>)
    requires
        !is_hex_numeral(strip_hex_prefix(h)),
    ensures
        hex_or_zero(h) == 0,
{
}

} // verus!
