//! Hexadecimal text: the value of a digit, of a run of digits, and of a byte
//! written in digits.

use vstd::prelude::*;
use vstd::string::*;

verus! {

/// Whether `c` is a hexadecimal digit, in either case.
pub open spec fn is_digit(c: char) -> bool {
    ||| '0' <= c <= '9'
    ||| 'a' <= c <= 'f'
    ||| 'A' <= c <= 'F'
}

/// The value of the hexadecimal digit `c`; zero for any other character.
pub open spec fn digit(c: char) -> nat {
    if '0' <= c <= '9' {
        (c as int - '0' as int) as nat
    } else if 'a' <= c <= 'f' {
        (c as int - 'a' as int + 10) as nat
    } else if 'A' <= c <= 'F' {
        (c as int - 'A' as int + 10) as nat
    } else {
        0
    }
}

/// Whether every character of `s` is a hexadecimal digit.
pub open spec fn all_digits(s: Seq<char>) -> bool {
    forall|i: int| 0 <= i < s.len() ==> is_digit(#[trigger] s[i])
}

/// The number that the digits of `s` write in base sixteen, the first digit
/// weighing most.
pub open spec fn number(s: Seq<char>) -> nat
    decreases s.len(),
{
    if s.len() == 0 {
        0
    } else {
        16 * number(s.drop_last()) + digit(s.last())
    }
}

/// The byte that `s` writes: one or more hexadecimal digits, and nothing
/// else, whose number is at most 255.  Any other text writes no byte.
pub open spec fn byte_value(s: Seq<char>) -> Option<u8> {
    if s.len() > 0 && all_digits(s) && number(s) <= 255 {
        Some(number(s) as u8)
    } else {
        None
    }
}

/// One digit writes its own value, and two digits write sixteen times the
/// first plus the second.
pub proof fn lemma_short_numbers(s: Seq<char>)
    ensures
        s.len() == 1 ==> number(s) == digit(s[0]),
        s.len() == 2 ==> number(s) == 16 * digit(s[0]) + digit(s[1]),
        0 <= digit(s[0]) < 16,
{
    reveal_with_fuel(number, 3);
    if s.len() == 1 {
        assert(s.drop_last().len() == 0);
    }
    if s.len() == 2 {
        assert(s.drop_last().drop_last().len() == 0);
        assert(s.drop_last()[0] == s[0]);
    }
}

/// A longer run of digits never writes a smaller number than its beginning.
pub proof fn lemma_number_grows(s: Seq<char>, k: int)
    requires
        0 <= k <= s.len(),
    ensures
        number(s.take(k)) <= number(s),
    decreases s.len() - k,
{
    if k == s.len() {
        assert(s.take(k) =~= s);
    } else {
        assert(s.take(k + 1).drop_last() =~= s.take(k));
        lemma_number_grows(s, k + 1);
    }
}

/// Reads one ASCII byte as a hexadecimal digit.
pub fn digit_of_byte(b: u8) -> (r: Option<u8>)
    ensures
        r is Some <==> is_digit(b as char),
        r matches Some(d) ==> d == digit(b as char) && d < 16,
{
    if b >= 0x30 && b <= 0x39 {
        Some(b - 0x30)
    } else if b >= 0x61 && b <= 0x66 {
        Some(b - 0x61 + 10)
    } else if b >= 0x41 && b <= 0x46 {
        Some(b - 0x41 + 10)
    } else {
        None
    }
}

/// Reads a byte written in hexadecimal digits.
pub fn parse_byte(s: &str) -> (r: Option<u8>)
    ensures
        r == byte_value(s@),
{
    if !s.is_ascii() {
        proof {
            let i = choose|i: int| 0 <= i < s@.len() && !('\0' <= #[trigger] s@[i] <= '\u{7f}');
            assert(!is_digit(s@[i]));
        }
        return None;
    }
    proof {
        is_ascii_spec_bytes(s);
    }
    let bytes = s.as_bytes();
    let n = bytes.len();
    assert(n == s@.len());
    if n == 0 {
        return None;
    }
    let mut value: u8 = 0;
    let mut i: usize = 0;
    while i < n
        invariant
            i <= n,
            n == s@.len(),
            bytes@.len() == n,
            forall|j: int| 0 <= j < n ==> (#[trigger] bytes@[j]) as int == s@[j] as int,
            all_digits(s@.take(i as int)),
            value == number(s@.take(i as int)),
        decreases n - i,
    {
        let b = bytes[i];
        let ghost c = s@[i as int];
        assert(b as int == c as int);
        assert(b as char == c);
        assert(s@.take(i + 1).drop_last() =~= s@.take(i as int));
        match digit_of_byte(b) {
            None => {
                assert(!is_digit(s@[i as int]));
                return None;
            },
            Some(d) => {
                if value >= 16 {
                    proof {
                        lemma_number_grows(s@, i + 1);
                    }
                    return None;
                }
                value = value * 16 + d;
            },
        }
        i += 1;
    }
    assert(s@.take(n as int) =~= s@);
    Some(value)
}

} // verus!
