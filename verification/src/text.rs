//! Numbers as text: the decimal notation that core-lightning uses for amounts and
//! short channel ids, and the hexadecimal notation it uses for byte strings.
use vstd::prelude::*;
use vstd::utf8::*;

verus! {

/// Whether a byte is an ASCII decimal digit.
pub open spec fn is_digit(b: u8) -> bool {
    0x30 <= b <= 0x39
}

/// Whether every byte is an ASCII decimal digit.
pub open spec fn all_digits(s: Seq<u8>) -> bool {
    forall|i: int| 0 <= i < s.len() ==> is_digit(#[trigger] s[i])
}

/// The number that a string of decimal digits denotes, most significant digit first.
pub open spec fn digits_value(s: Seq<u8>) -> nat
    decreases s.len(),
{
    if s.len() == 0 {
        0
    } else {
        10 * digits_value(s.drop_last()) + (s.last() - 0x30) as nat
    }
}

/// A text without the plus sign that it may start with.
pub open spec fn unsigned_digits(s: Seq<u8>) -> Seq<u8> {
    if s.len() > 0 && s[0] == 0x2b {
        s.skip(1)
    } else {
        s
    }
}

/// The `u64` that a text denotes: an optional plus sign and at least one decimal digit,
/// nothing else, and a value that fits.
pub open spec fn decimal_u64(s: Seq<u8>) -> Option<u64> {
    let digits = unsigned_digits(s);
    if digits.len() > 0 && all_digits(digits) && digits_value(digits) <= u64::MAX {
        Some(digits_value(digits) as u64)
    } else {
        None
    }
}

/// The character of one decimal digit.
pub open spec fn digit_char(d: int) -> char {
    (0x30 + d) as char
}

/// The decimal notation of a number, without leading zeros.
pub open spec fn decimal(n: nat) -> Seq<char>
    decreases n,
{
    if n < 10 {
        seq![digit_char(n as int)]
    } else {
        decimal(n / 10).push(digit_char((n % 10) as int))
    }
}

/// The decimal notation of an integer, with a minus sign where it is negative.
pub open spec fn signed_decimal(n: int) -> Seq<char> {
    if n < 0 {
        seq!['-'] + decimal((-n) as nat)
    } else {
        decimal(n as nat)
    }
}

/// The character of one lower-case hexadecimal digit.
pub open spec fn hex_char(d: int) -> char {
    if d < 10 {
        (0x30 + d) as char
    } else {
        (0x57 + d) as char
    }
}

/// The lower-case hexadecimal notation of a byte string, two characters to a byte.
pub open spec fn hex(bytes: Seq<u8>) -> Seq<char> {
    Seq::new(
        2 * bytes.len(),
        |i: int|
            if i % 2 == 0 {
                hex_char(bytes[i / 2] as int / 16)
            } else {
                hex_char(bytes[i / 2] as int % 16)
            },
    )
}

/// Calls `to_hex` of `bitcoin_hashes::hex::ToHex` on the bytes. The result is their
/// lower-case hexadecimal notation. The bound is the one under which the string that
/// the call allocates can exist.
#[verifier::external_body]
pub(crate) fn to_hex(bytes: &[u8]) -> (r: String)
    requires
        2 * bytes@.len() <= isize::MAX,
    ensures
        r@ == hex(bytes@),
{
    bitcoin_hashes::hex::ToHex::to_hex(bytes)
}

/// A prefix of a digit string denotes at most what the whole string denotes.
proof fn lemma_prefix_value(s: Seq<u8>, n: int)
    requires
        0 <= n <= s.len(),
        all_digits(s),
    ensures
        digits_value(s.take(n)) <= digits_value(s),
    decreases s.len(),
{
    if n == s.len() {
        assert(s.take(n) =~= s);
    } else {
        let shorter = s.drop_last();
        assert(all_digits(shorter));
        lemma_prefix_value(shorter, n);
        assert(shorter.take(n) =~= s.take(n));
    }
}

/// Reads a `u64` in decimal notation.
pub fn parse_u64(s: &[u8]) -> (r: Option<u64>)
    ensures
        r == decimal_u64(s@),
{
    let start: usize = if s.len() > 0 && s[0] == 0x2b {
        1
    } else {
        0
    };
    let ghost digits = unsigned_digits(s@);
    assert(digits =~= s@.skip(start as int));
    if start == s.len() {
        return None;
    }
    let mut value: u64 = 0;
    let mut i: usize = start;
    while i < s.len()
        invariant
            start <= i <= s.len(),
            start == 0 || start == 1,
            digits == s@.skip(start as int),
            digits == unsigned_digits(s@),
            all_digits(digits.take(i - start)),
            value == digits_value(digits.take(i - start)),
        decreases s.len() - i,
    {
        let b: u8 = s[i];
        let ghost seen = digits.take(i - start);
        let ghost next = digits.take(i + 1 - start);
        assert(b == digits[i - start]);
        assert(next.last() == b);
        assert(next.drop_last() =~= seen);
        if b < 0x30 || 0x39 < b {
            assert(!is_digit(digits[i - start]));
            return None;
        }
        assert(all_digits(next)) by {
            assert forall|k: int| 0 <= k < next.len() implies is_digit(#[trigger] next[k]) by {
                if k < seen.len() {
                    assert(next[k] == seen[k]);
                }
            }
        }
        let d: u64 = (b - 0x30) as u64;
        assert(digits_value(next) == 10 * value + d);
        if value > (u64::MAX - d) / 10 {
            proof {
                if all_digits(digits) {
                    lemma_prefix_value(digits, i + 1 - start);
                }
            }
            return None;
        }
        value = value * 10 + d;
        i = i + 1;
    }
    assert(digits.take(i - start) =~= digits);
    Some(value)
}

/// The bytes of the decimal notation of a number, and what they denote.
pub proof fn lemma_decimal_bytes(n: nat)
    ensures
        is_ascii_chars(decimal(n)),
        decimal(n).len() > 0,
        encode_utf8(decimal(n)).len() == decimal(n).len(),
        all_digits(encode_utf8(decimal(n))),
        digits_value(encode_utf8(decimal(n))) == n,
    decreases n,
{
    let text = decimal(n);
    let bytes = encode_utf8(text);
    if n < 10 {
        is_ascii_chars_encode_utf8(text);
        assert(bytes[0] == text[0] as u8);
        assert(bytes.drop_last() =~= Seq::<u8>::empty());
        assert(bytes.last() - 0x30 == n);
        reveal_with_fuel(digits_value, 2);
    } else {
        let front = decimal(n / 10);
        lemma_decimal_bytes(n / 10);
        assert forall|i: int| 0 <= i < text.len() implies '\0' <= #[trigger] text[i] <= '\u{7f}' by {
            if i < front.len() {
                assert(text[i] == front[i]);
            }
        }
        is_ascii_chars_encode_utf8(text);
        is_ascii_chars_encode_utf8(front);
        let head = encode_utf8(front);
        assert(bytes.drop_last() =~= head) by {
            assert forall|i: int| 0 <= i < head.len() implies bytes[i] == #[trigger] head[i] by {
                assert(text[i] == front[i]);
                assert(bytes[i] == text[i] as u8);
                assert(head[i] == front[i] as u8);
            }
        }
        assert(text.last() == text[text.len() - 1]);
        assert(bytes[bytes.len() - 1] == text[text.len() - 1] as u8);
        assert(bytes.last() - 0x30 == n % 10);
        assert forall|i: int| 0 <= i < bytes.len() implies is_digit(#[trigger] bytes[i]) by {
            if i < head.len() {
                assert(bytes.drop_last()[i] == bytes[i]);
            }
        }
    }
}

/// The decimal notation of a number that fits in a `u64` reads back as that number.
pub proof fn lemma_decimal_round_trip(n: u64)
    ensures
        decimal_u64(encode_utf8(decimal(n as nat))) == Some(n),
{
    lemma_decimal_bytes(n as nat);
    let bytes = encode_utf8(decimal(n as nat));
    assert(is_digit(bytes[0]));
}

/// How a text is read as a number, byte by byte: a single byte has to be a digit, a plus sign may
/// stand first, and each further digit takes what was read so far ten times. Whatever is no digit,
/// or no longer fits, spoils the whole text.
pub proof fn law_decimal_is_read_digit_by_digit(s: Seq<u8>, b: u8)
    ensures
        decimal_u64(Seq::<u8>::empty()) is None,
        decimal_u64(seq![b]) == (if 0x30 <= b <= 0x39 {
            Some((b - 0x30) as u64)
        } else {
            None
        }),
        decimal_u64(seq![0x2bu8, b]) == decimal_u64(seq![b]),
        s.len() > 0 && s != seq![0x2bu8] ==> decimal_u64(s.push(b)) == (match decimal_u64(s) {
            Some(v) => if 0x30 <= b <= 0x39 && v * 10 + (b - 0x30) <= 0xffff_ffff_ffff_ffff {
                Some((v * 10 + (b - 0x30)) as u64)
            } else {
                None
            },
            None => None,
        }),
{
    reveal_with_fuel(digits_value, 2);
    let one = seq![b];
    assert(one.drop_last() =~= Seq::<u8>::empty());
    assert(all_digits(one) <==> is_digit(b)) by {
        assert(one[0] == b);
    }
    assert(decimal_u64(one) == (if is_digit(b) {
        Some((b - 0x30) as u64)
    } else {
        None
    })) by {
        if b == 0x2b {
            assert(one.skip(1) =~= Seq::<u8>::empty());
        }
    }
    let signed = seq![0x2bu8, b];
    assert(signed.skip(1) =~= one);
    assert(all_digits(one) ==> unsigned_digits(one) == one);
    if s.len() > 0 && s != seq![0x2bu8] {
        let digits = unsigned_digits(s);
        let more = unsigned_digits(s.push(b));
        assert(digits.len() > 0) by {
            if digits.len() == 0 {
                assert(s =~= seq![0x2bu8]);
            }
        }
        assert(more =~= digits.push(b));
        assert(more.drop_last() =~= digits);
        assert(more.last() == b);
        assert(all_digits(more) <==> all_digits(digits) && is_digit(b)) by {
            if all_digits(more) {
                assert(is_digit(more[digits.len() as int]));
                assert forall|i: int| 0 <= i < digits.len() implies is_digit(
                    #[trigger] digits[i],
                ) by {
                    assert(more[i] == digits[i]);
                }
            }
            if all_digits(digits) && is_digit(b) {
                assert forall|i: int| 0 <= i < more.len() implies is_digit(#[trigger] more[i]) by {
                    if i < digits.len() {
                        assert(more[i] == digits[i]);
                    }
                }
            }
        }
        if all_digits(more) {
            assert(digits_value(more) == 10 * digits_value(digits) + (b - 0x30));
        }
    }
}

/// The notation of a negative number is a minus sign and that of its opposite.
pub proof fn law_minus_sign(n: int)
    requires
        n > 0,
    ensures
        signed_decimal(n) == decimal(n as nat),
        signed_decimal(-n) == seq!['-'] + decimal(n as nat),
{
}

/// Every byte is written as two characters, the higher half first, each one of `0` to `9` and `a`
/// to `f`.
pub proof fn law_hex_digits(bytes: Seq<u8>, i: int)
    requires
        0 <= i < bytes.len(),
    ensures
        hex(bytes).len() == 2 * bytes.len(),
        ({
            let (high, low) = (bytes[i] as int / 16, bytes[i] as int % 16);
            &&& hex(bytes)[2 * i] as int == if high < 10 {
                0x30 + high
            } else {
                0x61 + (high - 10)
            }
            &&& hex(bytes)[2 * i + 1] as int == if low < 10 {
                0x30 + low
            } else {
                0x61 + (low - 10)
            }
        }),
{
    assert((2 * i) / 2 == i && (2 * i) % 2 == 0);
    assert((2 * i + 1) / 2 == i && (2 * i + 1) % 2 == 1);
}

} // verus!
