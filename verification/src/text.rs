//! Text helpers: bounded C strings as the kernel hands them out, and the
//! number formats used in messages and paths.

use vstd::prelude::*;
use vstd::slice::slice_subrange;
use vstd::string::StringExecFns;
use vstd::utf8::decode_utf8;
use vstd::utf8::valid_utf8;

verus! {

/// The text that lossy UTF-8 decoding makes of a byte sequence: valid input
/// decodes as it stands, every malformed part becomes U+FFFD.
pub uninterp spec fn utf8_lossy(bytes: Seq<u8>) -> Seq<char>;

/// Calls `String::from_utf8_lossy` and takes ownership of what it returns.
///
/// Trusted: the result is the lossy decoding of `bytes`; for well-formed
/// UTF-8 that is the ordinary decoding, with nothing replaced.
#[verifier::external_body]
fn string_from_utf8_lossy(bytes: &[u8]) -> (s: String)
    ensures
        s@ == utf8_lossy(bytes@),
        valid_utf8(bytes@) ==> s@ == decode_utf8(bytes@),
{
    String::from_utf8_lossy(bytes).into_owned()
}

/// Length of the C string stored in `buf`: the position of the first NUL
/// byte, or the whole length when there is none.
pub open spec fn c_str_len(buf: Seq<u8>) -> nat
    decreases buf.len(),
{
    if buf.len() == 0 || buf[0] == 0 {
        0
    } else {
        1 + c_str_len(buf.drop_first())
    }
}

/// The bytes of `buf` before its first NUL byte.
pub open spec fn c_str_bytes(buf: Seq<u8>) -> Seq<u8> {
    buf.take(c_str_len(buf) as int)
}

/// The text held by a fixed-size, NUL-terminated buffer.
pub open spec fn c_str_text(buf: Seq<u8>) -> Seq<char> {
    utf8_lossy(c_str_bytes(buf))
}

/// `c_str_len` is the first position that holds a NUL byte, if any.
pub proof fn lemma_c_str_len(buf: Seq<u8>)
    ensures
        c_str_len(buf) <= buf.len(),
        forall|i: int| 0 <= i < c_str_len(buf) ==> buf[i] != 0,
        c_str_len(buf) < buf.len() ==> buf[c_str_len(buf) as int] == 0,
    decreases buf.len(),
{
    if buf.len() == 0 || buf[0] == 0 {
    } else {
        let rest = buf.drop_first();
        lemma_c_str_len(rest);
        assert forall|i: int| 0 <= i < c_str_len(buf) implies buf[i] != 0 by {
            if i > 0 {
                assert(buf[i] == rest[i - 1]);
            }
        }
        if c_str_len(buf) < buf.len() {
            assert(buf[c_str_len(buf) as int] == rest[c_str_len(rest) as int]);
        }
    }
}

/// Any position with a NUL byte and none before it is `c_str_len`.
pub proof fn lemma_c_str_len_unique(buf: Seq<u8>, n: int)
    requires
        0 <= n <= buf.len(),
        forall|i: int| 0 <= i < n ==> buf[i] != 0,
        n < buf.len() ==> buf[n] == 0,
    ensures
        c_str_len(buf) == n,
{
    lemma_c_str_len(buf);
    let m = c_str_len(buf) as int;
    if m < n {
        assert(buf[m] == 0);
    } else if n < m {
        assert(buf[n] == 0);
    }
}

/// Finds where the C string in `buf` ends.
pub fn c_str_end(buf: &[u8]) -> (n: usize)
    ensures
        n == c_str_len(buf@),
{
    let mut i: usize = 0;
    while i < buf.len() && buf[i] != 0
        invariant
            i <= buf.len(),
            forall|j: int| 0 <= j < i ==> buf@[j] != 0,
        decreases buf.len() - i,
    {
        i = i + 1;
    }
    proof {
        lemma_c_str_len_unique(buf@, i as int);
    }
    i
}

/// Decodes a fixed-size name buffer: the text stops at the first NUL byte,
/// and bytes that are not UTF-8 are replaced rather than refused.
pub fn decode_c_str(buf: &[u8]) -> (s: String)
    ensures
        s@ == c_str_text(buf@),
        valid_utf8(c_str_bytes(buf@)) ==> s@ == decode_utf8(c_str_bytes(buf@)),
{
    let n = c_str_end(buf);
    proof {
        lemma_c_str_len(buf@);
    }
    let head = slice_subrange(buf, 0, n);
    assert(head@ =~= c_str_bytes(buf@));
    string_from_utf8_lossy(head)
}

/// The character that stands for one digit in bases up to sixteen, capitals
/// for the digits past nine.
pub open spec fn digit_char(d: int) -> char {
    if d == 0 {
        '0'
    } else if d == 1 {
        '1'
    } else if d == 2 {
        '2'
    } else if d == 3 {
        '3'
    } else if d == 4 {
        '4'
    } else if d == 5 {
        '5'
    } else if d == 6 {
        '6'
    } else if d == 7 {
        '7'
    } else if d == 8 {
        '8'
    } else if d == 9 {
        '9'
    } else if d == 10 {
        'A'
    } else if d == 11 {
        'B'
    } else if d == 12 {
        'C'
    } else if d == 13 {
        'D'
    } else if d == 14 {
        'E'
    } else {
        'F'
    }
}

/// The digits of `n` in the given base, most significant first, without
/// leading zeros; zero is the single digit `0`.
pub open spec fn digits(n: nat, base: nat) -> Seq<char>
    recommends
        2 <= base <= 16,
    decreases n,
{
    if n < base || base < 2 {
        seq![digit_char(n as int)]
    } else {
        proof {
            assert(n / base < n) by (nonlinear_arith)
                requires
                    2 <= base <= n,
            ;
        }
        digits(n / base, base).push(digit_char((n % base) as int))
    }
}

/// `n` written in decimal.
pub open spec fn decimal(n: nat) -> Seq<char> {
    digits(n, 10)
}

/// `i` written in decimal, with a minus sign when negative.
pub open spec fn signed_decimal(i: int) -> Seq<char> {
    if i < 0 {
        seq!['-'] + decimal((-i) as nat)
    } else {
        decimal(i as nat)
    }
}

/// `n` written in capital hexadecimal digits, at least two of them.
pub open spec fn upper_hex2(n: nat) -> Seq<char> {
    if n < 16 {
        seq!['0'] + digits(n, 16)
    } else {
        digits(n, 16)
    }
}

/// The one-character text of a single digit.
fn digit_str(d: u64) -> (s: &'static str)
    requires
        d < 16,
    ensures
        s@ == seq![digit_char(d as int)],
{
    proof {
        reveal_strlit("0");
        reveal_strlit("1");
        reveal_strlit("2");
        reveal_strlit("3");
        reveal_strlit("4");
        reveal_strlit("5");
        reveal_strlit("6");
        reveal_strlit("7");
        reveal_strlit("8");
        reveal_strlit("9");
        reveal_strlit("A");
        reveal_strlit("B");
        reveal_strlit("C");
        reveal_strlit("D");
        reveal_strlit("E");
        reveal_strlit("F");
    }
    let s = if d == 0 {
        "0"
    } else if d == 1 {
        "1"
    } else if d == 2 {
        "2"
    } else if d == 3 {
        "3"
    } else if d == 4 {
        "4"
    } else if d == 5 {
        "5"
    } else if d == 6 {
        "6"
    } else if d == 7 {
        "7"
    } else if d == 8 {
        "8"
    } else if d == 9 {
        "9"
    } else if d == 10 {
        "A"
    } else if d == 11 {
        "B"
    } else if d == 12 {
        "C"
    } else if d == 13 {
        "D"
    } else if d == 14 {
        "E"
    } else {
        "F"
    };
    assert(s@ =~= seq![digit_char(d as int)]);
    s
}

/// Writes `n` in the given base.
fn format_digits(n: u64, base: u64) -> (s: String)
    requires
        2 <= base <= 16,
    ensures
        s@ == digits(n as nat, base as nat),
{
    let mut s = String::from_str(digit_str(n % base));
    let mut rest = n / base;
    assert(rest == 0 <==> n < base) by (nonlinear_arith)
        requires
            rest == n / base,
            2 <= base,
    ;
    assert(n < base ==> n % base == n) by (nonlinear_arith)
        requires
            2 <= base,
    ;
    assert(digits(n as nat, base as nat) =~= if rest > 0 {
        digits(rest as nat, base as nat) + s@
    } else {
        s@
    });
    while rest > 0
        invariant
            2 <= base <= 16,
            digits(n as nat, base as nat) =~= if rest > 0 {
                digits(rest as nat, base as nat) + s@
            } else {
                s@
            },
        decreases rest,
    {
        let ghost tail = s@;
        let ghost before = rest;
        let head = String::from_str(digit_str(rest % base));
        s = head.concat(s.as_str());
        rest = rest / base;
        assert(rest == 0 <==> before < base) by (nonlinear_arith)
            requires
                rest == before / base,
                2 <= base,
        ;
        assert(before < base ==> before % base == before) by (nonlinear_arith)
            requires
                2 <= base,
        ;
        assert(digits(before as nat, base as nat) + tail =~= if rest > 0 {
            digits(rest as nat, base as nat) + s@
        } else {
            s@
        });
    }
    s
}

/// Writes `n` in decimal.
pub fn format_decimal(n: u64) -> (s: String)
    ensures
        s@ == decimal(n as nat),
{
    format_digits(n, 10)
}

/// Writes `i` in decimal, with a minus sign when negative.
pub fn format_signed_decimal(i: i32) -> (s: String)
    ensures
        s@ == signed_decimal(i as int),
{
    if i < 0 {
        proof {
            reveal_strlit("-");
        }
        let magnitude = format_digits((-(i as i64)) as u64, 10);
        let s = String::from_str("-").concat(magnitude.as_str());
        assert(s@ =~= signed_decimal(i as int));
        s
    } else {
        format_digits(i as u64, 10)
    }
}

/// Writes `n` in capital hexadecimal digits, padded with a zero to two.
pub fn format_upper_hex2(n: u64) -> (s: String)
    ensures
        s@ == upper_hex2(n as nat),
{
    let body = format_digits(n, 16);
    if n < 16 {
        proof {
            reveal_strlit("0");
        }
        let s = String::from_str("0").concat(body.as_str());
        assert(s@ =~= upper_hex2(n as nat));
        s
    } else {
        body
    }
}

} // verus!
