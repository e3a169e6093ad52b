//! Decimal and hexadecimal numbers as text, and their way back.

use vstd::arithmetic::div_mod::lemma_div_denominator;
use vstd::arithmetic::power::{lemma_pow_positive, pow};
use vstd::prelude::*;

use crate::text::chars_of;

verus! {

/// The decimal digit of a value below ten.
pub open spec fn digit_char(d: int) -> char {
    ('0' as int + d) as char
}

/// The decimal digits of `n`, without leading zeros.
pub open spec fn decimal(n: nat) -> Seq<char>
    decreases n,
{
    if n < 10 {
        seq![digit_char(n as int)]
    } else {
        decimal(n / 10).push(digit_char((n % 10) as int))
    }
}

/// `n` in decimal, with a minus sign where it is negative.
pub open spec fn signed_decimal(n: int) -> Seq<char> {
    if n < 0 {
        seq!['-'] + decimal((-n) as nat)
    } else {
        decimal(n as nat)
    }
}

/// Whether `c` is an ASCII decimal digit.
pub open spec fn digit(c: char) -> bool {
    '0' <= c <= '9'
}

/// `s` holds nothing but decimal digits.
pub open spec fn all_digits(s: Seq<char>) -> bool {
    forall|i: int| 0 <= i < s.len() ==> digit(#[trigger] s[i])
}

/// The number that a run of decimal digits stands for.
pub open spec fn digits_value(s: Seq<char>) -> nat
    decreases s.len(),
{
    if s.len() == 0 {
        0
    } else {
        digits_value(s.drop_last()) * 10 + (s.last() as int - '0' as int) as nat
    }
}

/// The value of a nonempty run of digits that does not exceed `limit`.
pub open spec fn digits_within(s: Seq<char>, limit: nat) -> Option<nat> {
    if s.len() > 0 && all_digits(s) && digits_value(s) <= limit {
        Some(digits_value(s))
    } else {
        None
    }
}

/// The unsigned number that `s` spells: an optional plus sign and digits,
/// within 32 bits.
pub open spec fn parsed_u32(s: Seq<char>) -> Option<u32> {
    let digits = if s.len() > 0 && s[0] == '+' {
        s.skip(1)
    } else {
        s
    };
    match digits_within(digits, u32::MAX as nat) {
        Some(v) => Some(v as u32),
        None => None,
    }
}

/// The signed number that `s` spells: an optional sign and digits, within 32
/// bits.
pub open spec fn parsed_i32(s: Seq<char>) -> Option<i32> {
    if s.len() > 0 && s[0] == '-' {
        match digits_within(s.skip(1), 0x8000_0000) {
            Some(v) => Some((-v) as i32),
            None => None,
        }
    } else {
        let digits = if s.len() > 0 && s[0] == '+' {
            s.skip(1)
        } else {
            s
        };
        match digits_within(digits, 0x7fff_ffff) {
            Some(v) => Some(v as i32),
            None => None,
        }
    }
}

/// More digits never make a number smaller.
proof fn lemma_digits_value_grows(s: Seq<char>, k: int)
    requires
        0 <= k <= s.len(),
        all_digits(s),
    ensures
        digits_value(s.take(k)) <= digits_value(s),
    decreases s.len(),
{
    if k < s.len() {
        let front = s.drop_last();
        assert forall|i: int| 0 <= i < front.len() implies digit(#[trigger] front[i]) by {
            assert(front[i] == s[i]);
        }
        lemma_digits_value_grows(front, k);
        assert(front.take(k) == s.take(k));
        assert(digit(s[s.len() - 1]));
    } else {
        assert(s.take(k) == s);
    }
}

/// The decimal digits of a number stand for that number.
pub proof fn lemma_decimal_value(n: nat)
    ensures
        decimal(n).len() > 0,
        all_digits(decimal(n)),
        digits_value(decimal(n)) == n,
    decreases n,
{
    let s = decimal(n);
    if n < 10 {
        assert(s.drop_last() == Seq::<char>::empty());
        assert(digits_value(s.drop_last()) == 0);
    } else {
        lemma_decimal_value(n / 10);
        assert(s.drop_last() == decimal(n / 10));
    }
}

/// Reading back an unsigned number gives the number that was written.
pub proof fn law_u32_round_trip(n: u32)
    ensures
        parsed_u32(decimal(n as nat)) == Some(n),
{
    lemma_decimal_value(n as nat);
    assert(digit(decimal(n as nat)[0]));
}

/// Reading back a signed number gives the number that was written.
pub proof fn law_i32_round_trip(n: i32)
    ensures
        parsed_i32(signed_decimal(n as int)) == Some(n),
{
    let s = signed_decimal(n as int);
    if n < 0 {
        lemma_decimal_value((-n) as nat);
        assert(s.skip(1) == decimal((-n) as nat));
    } else {
        lemma_decimal_value(n as nat);
        assert(digit(decimal(n as nat)[0]));
    }
}

/// The text of one decimal digit.
fn digit_text(d: u32) -> (r: &'static str)
    requires
        d < 10,
    ensures
        r@ == seq![digit_char(d as int)],
{
    proof {
        reveal_strlit("0");
        reveal_strlit("1");
        reveal_strlit("2");
        reveal_strlit("3");
        reveal_strlit("4");
        reveal_strlit("5");
        reveal_strlit("6");
        reveal_strlit("7");
        reveal_strlit("8");
        reveal_strlit("9");
    }
    match d {
        0 => "0",
        1 => "1",
        2 => "2",
        3 => "3",
        4 => "4",
        5 => "5",
        6 => "6",
        7 => "7",
        8 => "8",
        _ => "9",
    }
}

/// Writes `n` in decimal.
pub fn u32_text(n: u32) -> (r: String)
    ensures
        r@ == decimal(n as nat),
    decreases n,
{
    if n < 10 {
        digit_text(n).to_owned()
    } else {
        let mut r: String = u32_text(n / 10);
        r.append(digit_text(n % 10));
        assert(r@ == decimal(n as nat));
        r
    }
}

/// Writes `n` in decimal.
pub fn i32_text(n: i32) -> (r: String)
    ensures
        r@ == signed_decimal(n as int),
{
    if n < 0 {
        let magnitude: u32 = (-(n as i64)) as u32;
        proof {
            reveal_strlit("-");
        }
        let mut r: String = "-".to_owned();
        r.append(u32_text(magnitude).as_str());
        assert(r@ == signed_decimal(n as int));
        r
    } else {
        u32_text(n as u32)
    }
}

/// Reads the digits of `cs` from `start` on as a number up to `limit`.
fn read_digits(cs: &Vec<char>, start: usize, limit: u32) -> (r: Option<u32>)
    requires
        start <= cs@.len(),
    ensures
        match r {
            Some(v) => digits_within(cs@.skip(start as int), limit as nat) == Some(v as nat),
            None => digits_within(cs@.skip(start as int), limit as nat) is None,
        },
{
    let n: usize = cs.len();
    let ghost s = cs@.skip(start as int);
    let mut acc: u64 = 0;
    let mut i: usize = start;
    if start == n {
        return None;
    }
    while i < n
        invariant
            start <= i <= n,
            n == cs@.len(),
            start < n,
            s == cs@.skip(start as int),
            acc == digits_value(s.take(i - start)),
            acc <= limit,
            all_digits(s.take(i - start)),
        decreases n - i,
    {
        let c: char = cs[i];
        assert(s[i - start] == c);
        if c < '0' || '9' < c {
            assert(!digit(s[i - start]));
            return None;
        }
        let d: u64 = (c as u32 - 48) as u64;
        let ghost next = s.take(i + 1 - start);
        assert(next.drop_last() == s.take(i - start));
        acc = acc * 10 + d;
        assert(acc == digits_value(next));
        assert forall|j: int| 0 <= j < next.len() implies digit(#[trigger] next[j]) by {
            if j < i - start {
                assert(next[j] == s.take(i - start)[j]);
            }
        }
        if acc > limit as u64 {
            proof {
                if all_digits(s) {
                    lemma_digits_value_grows(s, i + 1 - start);
                }
            }
            return None;
        }
        i += 1;
    }
    assert(s.take(n - start) == s);
    Some(acc as u32)
}

/// Reads an unsigned decimal number.
pub fn parse_u32(s: &str) -> (r: Option<u32>)
    ensures
        r == parsed_u32(s@),
{
    let cs: Vec<char> = chars_of(s);
    let start: usize = if cs.len() > 0 && cs[0] == '+' {
        1
    } else {
        0
    };
    assert(s@.skip(0) == s@);
    read_digits(&cs, start, u32::MAX)
}

/// Reads a signed decimal number.
pub fn parse_i32(s: &str) -> (r: Option<i32>)
    ensures
        r == parsed_i32(s@),
{
    let cs: Vec<char> = chars_of(s);
    assert(s@.skip(0) == s@);
    if cs.len() > 0 && cs[0] == '-' {
        match read_digits(&cs, 1, 0x8000_0000) {
            Some(v) => Some((-(v as i64)) as i32),
            None => None,
        }
    } else {
        let start: usize = if cs.len() > 0 && cs[0] == '+' {
            1
        } else {
            0
        };
        match read_digits(&cs, start, 0x7fff_ffff) {
            Some(v) => Some(v as i32),
            None => None,
        }
    }
}

/// The small hexadecimal digit of a value below sixteen.
pub open spec fn hex_char(d: int) -> char {
    if d < 10 {
        digit_char(d)
    } else {
        ('a' as int + d - 10) as char
    }
}

/// The two hexadecimal digits of a byte behind the prefix `0x`.
pub open spec fn hex_byte(b: u8) -> Seq<char> {
    seq!['0', 'x', hex_char(b as int / 16), hex_char(b as int % 16)]
}

/// The text of one hexadecimal digit.
fn hex_digit_text(d: u8) -> (r: &'static str)
    requires
        d < 16,
    ensures
        r@ == seq![hex_char(d as int)],
{
    proof {
        reveal_strlit("a");
        reveal_strlit("b");
        reveal_strlit("c");
        reveal_strlit("d");
        reveal_strlit("e");
        reveal_strlit("f");
    }
    match d {
        10 => "a",
        11 => "b",
        12 => "c",
        13 => "d",
        14 => "e",
        15 => "f",
        _ => digit_text(d as u32),
    }
}

/// Writes a byte as `0x` and two hexadecimal digits.
pub fn hex_byte_text(b: u8) -> (r: String)
    ensures
        r@ == hex_byte(b),
{
    proof {
        reveal_strlit("0x");
    }
    let mut r: String = "0x".to_owned();
    r.append(hex_digit_text(b / 16));
    r.append(hex_digit_text(b % 16));
    assert(r@ == hex_byte(b));
    r
}

/// What a number looks like in decimal: digits that count ones, tens and so on
/// from the end, without a leading zero.
pub proof fn law_decimal_places(n: nat)
    ensures
        decimal(n).len() >= 1,
        decimal(n).len() == 1 || decimal(n)[0] != '0',
        forall|i: int|
            0 <= i < decimal(n).len() ==> #[trigger] decimal(n)[i] as int == 48 + (n as int / pow(
                10,
                (decimal(n).len() - 1 - i) as nat,
            )) % 10,
    decreases n,
{
    let s = decimal(n);
    assert(pow(10, 0) == 1) by {
        reveal(pow);
    }
    if n >= 10 {
        let t = decimal(n / 10);
        law_decimal_places(n / 10);
        assert(t[0] == s[0]);
        if t.len() == 1 {
            // A single digit in front is a number below ten, and not zero.
            if n / 10 >= 10 {
                law_decimal_places(n / 10 / 10);
            }
        }
        assert forall|i: int| 0 <= i < s.len() implies #[trigger] s[i] as int == 48 + (n as int
            / pow(10, (s.len() - 1 - i) as nat)) % 10 by {
            if i < t.len() {
                let k = (t.len() - 1 - i) as nat;
                assert(s[i] == t[i]);
                assert(pow(10, k + 1) == 10 * pow(10, k)) by {
                    reveal(pow);
                }
                lemma_pow_positive(10, k);
                lemma_div_denominator(n as int, 10, pow(10, k));
            }
        }
    }
}

/// `zeros` zeros.
pub open spec fn leading_zeros(zeros: nat) -> Seq<char> {
    Seq::new(zeros, |i: int| '0')
}

/// Leading zeros do not count.
proof fn lemma_leading_zeros(zeros: nat, t: Seq<char>)
    requires
        all_digits(t),
    ensures
        all_digits(leading_zeros(zeros) + t),
        digits_value(leading_zeros(zeros) + t) == digits_value(t),
    decreases zeros + t.len(),
{
    let s = leading_zeros(zeros) + t;
    if t.len() > 0 {
        let front = t.drop_last();
        assert forall|i: int| 0 <= i < front.len() implies digit(#[trigger] front[i]) by {
            assert(front[i] == t[i]);
        }
        lemma_leading_zeros(zeros, front);
        assert(s.drop_last() == leading_zeros(zeros) + front);
    } else if zeros > 0 {
        assert(s.drop_last() == leading_zeros((zeros - 1) as nat) + t);
        lemma_leading_zeros((zeros - 1) as nat, t);
    } else {
        assert(s == t);
    }
}

/// A number is read from its decimal digits, with or without a plus sign and
/// leading zeros, exactly where it fits in 32 bits.
pub proof fn law_u32_read(plus: bool, zeros: nat, m: nat)
    ensures
        parsed_u32(
            (if plus {
                seq!['+']
            } else {
                Seq::empty()
            }) + leading_zeros(zeros) + decimal(m),
        ) == (if m <= 0xffff_ffff {
            Some(m as u32)
        } else {
            None
        }),
{
    let digits = leading_zeros(zeros) + decimal(m);
    let sign = if plus {
        seq!['+']
    } else {
        Seq::empty()
    };
    let s = sign + leading_zeros(zeros) + decimal(m);
    lemma_decimal_value(m);
    lemma_leading_zeros(zeros, decimal(m));
    assert(digit(digits[0]));
    if plus {
        assert(s.skip(1) == digits);
    } else {
        assert(s == digits);
    }
}

/// A signed number is read from its decimal digits, with or without a sign and
/// leading zeros, exactly where it fits in 32 bits.
pub proof fn law_i32_read(plus: bool, minus: bool, zeros: nat, m: nat)
    requires
        !(plus && minus),
    ensures
        parsed_i32(
            (if plus {
                seq!['+']
            } else if minus {
                seq!['-']
            } else {
                Seq::empty()
            }) + leading_zeros(zeros) + decimal(m),
        ) == (if minus && m <= 0x8000_0000 {
            Some((-m) as i32)
        } else if !minus && m <= 0x7fff_ffff {
            Some(m as i32)
        } else {
            None
        }),
{
    let digits = leading_zeros(zeros) + decimal(m);
    let sign = if plus {
        seq!['+']
    } else if minus {
        seq!['-']
    } else {
        Seq::empty()
    };
    let s = sign + leading_zeros(zeros) + decimal(m);
    lemma_decimal_value(m);
    lemma_leading_zeros(zeros, decimal(m));
    assert(digit(digits[0]));
    if plus || minus {
        assert(s.skip(1) == digits);
    } else {
        assert(s == digits);
    }
}

/// A text without digits, or with anything but digits behind a sign, spells no
/// number. Only a signed number takes a minus sign.
pub proof fn law_no_number(s: Seq<char>, i: int)
    requires
        s.len() == 0 || s == seq!['+'] || (0 <= i < s.len() && !('0' <= s[i] <= '9') && (i > 0
            || s[i] != '+')),
    ensures
        parsed_u32(s) is None,
        !(s.len() > 1 && i == 0 && s[0] == '-') ==> parsed_i32(s) is None,
{
    if s.len() > 0 {
        if s != seq!['+'] {
            assert(!digit(s[i]));
            if i > 0 {
                assert(s.skip(1)[i - 1] == s[i]);
            }
        } else {
            assert(s[0] == '+');
            assert(s.skip(1).len() == 0);
        }
    }
}

/// A negative number is written as its magnitude behind a minus sign.
pub proof fn law_minus_sign(m: nat)
    ensures
        signed_decimal(m as int) == decimal(m),
        m > 0 ==> signed_decimal(-(m as int)) == seq!['-'] + decimal(m),
{
}

} // verus!
