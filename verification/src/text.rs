//! Text of scalar values: comparison of strings and the decimal notation of
//! integers.
use vstd::prelude::*;

verus! {

/// Whether two strings hold the same characters.
pub fn same_text(a: &str, b: &str) -> (r: bool)
    ensures
        r == (a@ == b@),
{
    if a.len() != b.len() {
        return false;
    }
    let x: String = a.to_owned();
    let y: String = b.to_owned();
    x == y
}

/// An owned copy of a string.
pub fn owned(s: &str) -> (r: String)
    ensures
        r@ == s@,
{
    s.to_owned()
}

/// Whether a character is a decimal digit.
pub open spec fn is_digit(c: char) -> bool {
    '0' <= c && c <= '9'
}

/// The number that a digit stands for.
pub open spec fn digit_value(c: char) -> nat {
    (c as int - '0' as int) as nat
}

/// The digit that stands for a number below ten.
pub open spec fn digit_char(d: nat) -> char {
    (d + '0' as int) as char
}

/// Whether every character is a decimal digit.
pub open spec fn all_digits(s: Seq<char>) -> bool {
    forall|i: int| 0 <= i < s.len() ==> is_digit(#[trigger] s[i])
}

/// The number read when the digits `d` follow a number `acc` already read.
pub open spec fn extend_value(acc: nat, d: Seq<char>) -> nat
    decreases d.len(),
{
    if d.len() == 0 {
        acc
    } else {
        extend_value(acc, d.drop_last()) * 10 + digit_value(d.last())
    }
}

/// The number that a run of decimal digits denotes.
pub open spec fn digits_value(d: Seq<char>) -> nat {
    extend_value(0, d)
}

/// The decimal digits of a number, without leading zeros.
#[verifier::opaque]
pub open spec fn nat_digits(n: nat) -> Seq<char>
    decreases n,
{
    if n < 10 {
        seq![digit_char(n)]
    } else {
        nat_digits(n / 10).push(digit_char(n % 10))
    }
}

/// A run of `k` zeros.
pub open spec fn zeros(k: nat) -> Seq<char> {
    Seq::new(k, |i: int| '0')
}

/// Reading two runs of digits is reading the first and then the second.
pub proof fn lemma_extend_value_concat(acc: nat, a: Seq<char>, b: Seq<char>)
    ensures
        extend_value(acc, a + b) == extend_value(extend_value(acc, a), b),
    decreases b.len(),
{
    if b.len() == 0 {
        assert(a + b =~= a);
    } else {
        assert((a + b).drop_last() =~= a + b.drop_last());
        assert((a + b).last() == b.last());
        lemma_extend_value_concat(acc, a, b.drop_last());
    }
}

/// Reading more digits gives no smaller a number.
pub proof fn lemma_extend_value_grows(acc: nat, d: Seq<char>, k: int)
    requires
        all_digits(d),
        0 <= k <= d.len(),
    ensures
        extend_value(acc, d.subrange(0, k)) <= extend_value(acc, d),
    decreases d.len() - k,
{
    if k == d.len() {
        assert(d.subrange(0, k) =~= d);
    } else {
        lemma_extend_value_grows(acc, d, k + 1);
        let longer = d.subrange(0, k + 1);
        assert(longer.drop_last() =~= d.subrange(0, k));
        assert(longer.last() == d[k]);
        assert(is_digit(d[k]));
    }
}

/// Zeros denote zero.
pub proof fn lemma_zeros_value(k: nat)
    ensures
        extend_value(0, zeros(k)) == 0,
        all_digits(zeros(k)),
    decreases k,
{
    if k > 0 {
        lemma_zeros_value((k - 1) as nat);
        assert(zeros(k).drop_last() =~= zeros((k - 1) as nat));
    }
}

/// The digits of a number are digits, at least one, and denote the number.
pub proof fn lemma_nat_digits(n: nat)
    ensures
        all_digits(nat_digits(n)),
        nat_digits(n).len() >= 1,
        digits_value(nat_digits(n)) == n,
    decreases n,
{
    reveal(nat_digits);
    if n < 10 {
        let s = nat_digits(n);
        assert(s.drop_last() =~= Seq::<char>::empty());
        assert(extend_value(0, s.drop_last()) == 0);
    } else {
        lemma_nat_digits(n / 10);
        let s = nat_digits(n);
        assert(s.drop_last() =~= nat_digits(n / 10));
        assert(s.last() == digit_char(n % 10));
        assert forall|i: int| 0 <= i < s.len() implies is_digit(#[trigger] s[i]) by {
            if i < s.len() - 1 {
                assert(s[i] == nat_digits(n / 10)[i]);
            }
        }
    }
}

/// The text of the digit `d`.
fn digit_str(d: u64) -> (r: &'static str)
    requires
        d < 10,
    ensures
        r@ == seq![digit_char(d as nat)],
{
    proof {
        reveal_strlit("0");
        reveal_strlit("1");
        reveal_strlit("2");
        reveal_strlit("3");
        reveal_strlit("4");
        reveal_strlit("5");
        reveal_strlit("6");
        reveal_strlit("7");
        reveal_strlit("8");
        reveal_strlit("9");
    }
    let r = if d == 0 {
        "0"
    } else if d == 1 {
        "1"
    } else if d == 2 {
        "2"
    } else if d == 3 {
        "3"
    } else if d == 4 {
        "4"
    } else if d == 5 {
        "5"
    } else if d == 6 {
        "6"
    } else if d == 7 {
        "7"
    } else if d == 8 {
        "8"
    } else {
        "9"
    };
    assert(r@ =~= seq![digit_char(d as nat)]);
    r
}

/// Writes a number in decimal digits.
pub fn format_unsigned(n: u64) -> (r: String)
    ensures
        r@ == nat_digits(n as nat),
    decreases n,
{
    proof {
        reveal(nat_digits);
    }
    if n < 10 {
        owned(digit_str(n))
    } else {
        let mut s = format_unsigned(n / 10);
        s.append(digit_str(n % 10));
        assert(s@ =~= nat_digits(n as nat));
        s
    }
}

/// The characters of `s` from `from` up to `to`, read as digits after `acc`:
/// the number, unless a character is no digit or the number exceeds `max`.
#[verifier::opaque]
pub open spec fn spec_read_digits(s: Seq<char>, from: int, to: int, acc: nat, max: nat) -> Option<
    nat,
> {
    let d = s.subrange(from, to);
    if all_digits(d) && extend_value(acc, d) <= max {
        Some(extend_value(acc, d))
    } else {
        None
    }
}

/// Reads the characters of `s` from `from` up to `to` as decimal digits that
/// continue the number `acc`.
pub(crate) fn read_digits(s: &str, from: usize, to: usize, acc: u64, max: u64) -> (r: Option<u64>)
    requires
        from <= to <= s@.len(),
        acc <= max,
    ensures
        r.is_some() == spec_read_digits(
            s@,
            from as int,
            to as int,
            acc as nat,
            max as nat,
        ).is_some(),
        r matches Some(v) ==> v <= max,
        r matches Some(v) ==> spec_read_digits(
            s@,
            from as int,
            to as int,
            acc as nat,
            max as nat,
        ) == Some(v as nat),
{
    proof {
        reveal(spec_read_digits);
    }
    let ghost d = s@.subrange(from as int, to as int);
    let mut value: u64 = acc;
    let mut i: usize = from;
    proof {
        assert(d.subrange(0, 0) =~= Seq::<char>::empty());
    }
    while i < to
        invariant
            from <= i <= to <= s@.len(),
            d == s@.subrange(from as int, to as int),
            all_digits(d.subrange(0, i - from)),
            value == extend_value(acc as nat, d.subrange(0, i - from)),
            value <= max,
        decreases to - i,
    {
        let c = s.get_char(i);
        let ghost k = i - from;
        proof {
            assert(d[k] == c);
            assert(d.subrange(0, k + 1).drop_last() =~= d.subrange(0, k));
            assert(d.subrange(0, k + 1).last() == c);
        }
        if !('0' <= c && c <= '9') {
            proof {
                reveal(spec_read_digits);
                assert(!is_digit(d[k]));
            }
            return None;
        }
        let digit: u64 = (c as u32 - '0' as u32) as u64;
        assert(digit == digit_value(c));
        proof {
            assert forall|j: int| 0 <= j < k + 1 implies is_digit(
                #[trigger] d.subrange(0, k + 1)[j],
            ) by {
                if j < k {
                    assert(d.subrange(0, k)[j] == d[j]);
                }
            }
        }
        if digit > max || value > (max - digit) / 10 {
            proof {
                reveal(spec_read_digits);
                if all_digits(d) {
                    lemma_extend_value_grows(acc as nat, d, k + 1);
                }
            }
            return None;
        }
        value = value * 10 + digit;
        i = i + 1;
    }
    proof {
        reveal(spec_read_digits);
        assert(d.subrange(0, i - from) =~= d);
    }
    Some(value)
}

/// The value of an unsigned decimal text: an optional `+`, then one digit or
/// more, denoting a number no larger than `max`.
pub open spec fn spec_parse_unsigned(s: Seq<char>, max: nat) -> Option<nat> {
    let start: int = if s.len() > 0 && s[0] == '+' {
        1
    } else {
        0
    };
    if start < s.len() {
        spec_read_digits(s, start, s.len() as int, 0, max)
    } else {
        None
    }
}

/// Reads an unsigned decimal number no larger than `max`.
pub fn parse_unsigned(s: &str, max: u64) -> (r: Option<u64>)
    ensures
        r.is_some() == spec_parse_unsigned(s@, max as nat).is_some(),
        r matches Some(v) ==> v <= max,
        r matches Some(v) ==> spec_parse_unsigned(s@, max as nat) == Some(v as nat),
{
    let n: usize = s.unicode_len();
    let mut start: usize = 0;
    if n > 0 && s.get_char(0) == '+' {
        start = 1;
    }
    if start < n {
        read_digits(s, start, n, 0, max)
    } else {
        None
    }
}

/// The value of a signed decimal text: an optional `+` or `-`, then one
/// digit or more, denoting a number from `-below` to `above`.
pub open spec fn spec_parse_signed(s: Seq<char>, below: nat, above: nat) -> Option<int> {
    if s.len() > 0 && s[0] == '-' {
        if 1 < s.len() {
            match spec_read_digits(s, 1, s.len() as int, 0, below) {
                Some(v) => Some(-(v as int)),
                None => None,
            }
        } else {
            None
        }
    } else {
        match spec_parse_unsigned(s, above) {
            Some(v) => Some(v as int),
            None => None,
        }
    }
}

/// Reads a signed decimal number from `-below` to `above`.
pub fn parse_signed(s: &str, below: u32, above: u32) -> (r: Option<i64>)
    ensures
        r.is_some() == spec_parse_signed(s@, below as nat, above as nat).is_some(),
        r matches Some(v) ==> spec_parse_signed(s@, below as nat, above as nat) == Some(v as int),
{
    let n: usize = s.unicode_len();
    if n > 0 && s.get_char(0) == '-' {
        if 1 < n {
            match read_digits(s, 1, n, 0, below as u64) {
                Some(v) => Some(0 - (v as i64)),
                None => None,
            }
        } else {
            None
        }
    } else {
        match parse_unsigned(s, above as u64) {
            Some(v) => Some(v as i64),
            None => None,
        }
    }
}

/// The text of a signed number: `-` before the digits of a negative one.
#[verifier::opaque]
pub open spec fn int_text(v: int) -> Seq<char> {
    if v < 0 {
        seq!['-'] + nat_digits((-v) as nat)
    } else {
        nat_digits(v as nat)
    }
}

/// Writes a signed number in decimal digits.
pub fn format_signed(v: i64) -> (r: String)
    ensures
        r@ == int_text(v as int),
{
    proof {
        reveal(int_text);
    }
    if v < 0 {
        proof {
            reveal_strlit("-");
        }
        let mut s = owned("-");
        let magnitude: u64 = (-(v + 1)) as u64 + 1;
        let digits = format_unsigned(magnitude);
        s.append(digits.as_str());
        assert(s@ =~= int_text(v as int));
        s
    } else {
        format_unsigned(v as u64)
    }
}

/// Reading the digits of a number gives the number back.
pub proof fn lemma_parse_unsigned_of_digits(n: nat, max: nat)
    requires
        n <= max,
    ensures
        spec_parse_unsigned(nat_digits(n), max) == Some(n),
{
    reveal(spec_read_digits);
    lemma_nat_digits(n);
    let s = nat_digits(n);
    assert(is_digit(s[0]));
    assert(s.subrange(0, s.len() as int) =~= s);
}

/// Reading the text of a signed number gives the number back.
pub proof fn lemma_parse_signed_of_text(v: int, below: nat, above: nat)
    requires
        -(below as int) <= v <= above,
    ensures
        spec_parse_signed(int_text(v), below, above) == Some(v),
{
    reveal(spec_read_digits);
    reveal(int_text);
    if v < 0 {
        let d = nat_digits((-v) as nat);
        let s = int_text(v);
        lemma_nat_digits((-v) as nat);
        assert(s.subrange(1, s.len() as int) =~= d);
    } else {
        lemma_parse_unsigned_of_digits(v as nat, above);
        lemma_nat_digits(v as nat);
        assert(is_digit(nat_digits(v as nat)[0]));
    }
}

} // verus!
