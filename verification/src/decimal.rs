//! Decimal numbers in fixed point, as the format writes lengths, offsets and
//! sizes.
use crate::text::{
    all_digits, extend_value, format_unsigned, is_digit, lemma_extend_value_concat,
    lemma_extend_value_grows, lemma_nat_digits, lemma_zeros_value, nat_digits, read_digits,
    spec_read_digits, zeros,
};
use vstd::prelude::*;

verus! {

/// A decimal number: `magnitude` divided by ten to the power `scale`, negated
/// when `negative` is set. `scale` is the number of digits written after the
/// decimal point.
#[derive(Clone, Copy, Debug, PartialEq, Eq, Structural)]
pub struct Decimal {
    pub negative: bool,
    pub magnitude: u64,
    pub scale: u8,
}

/// The index of the first `.` of `s` at or after `from`, or the length of `s`
/// where there is none.
pub open spec fn first_dot(s: Seq<char>, from: int) -> int
    decreases s.len() - from,
{
    if from < 0 || from >= s.len() {
        s.len() as int
    } else if s[from] == '.' {
        from
    } else {
        first_dot(s, from + 1)
    }
}

/// The first `.` stands where a `.` stands with none before it.
pub proof fn lemma_first_dot(s: Seq<char>, from: int, at: int)
    requires
        0 <= from <= at <= s.len(),
        forall|j: int| from <= j < at ==> s[j] != '.',
        at < s.len() ==> s[at] == '.',
    ensures
        first_dot(s, from) == at,
    decreases at - from,
{
    if from < at {
        lemma_first_dot(s, from + 1, at);
    }
}

impl Decimal {
    /// A whole number.
    pub fn from_integer(value: u64) -> (r: Decimal)
        ensures
            r == (Decimal { negative: false, magnitude: value, scale: 0 }),
    {
        Decimal { negative: false, magnitude: value, scale: 0 }
    }

    /// Whether the number is zero.
    pub fn is_zero(&self) -> (r: bool)
        ensures
            r == (self.magnitude == 0),
    {
        self.magnitude == 0
    }

    /// The digits of the magnitude, with zeros in front until one digit
    /// stands before the decimal point.
    pub open spec fn padded_digits(self) -> Seq<char> {
        let d = nat_digits(self.magnitude as nat);
        if d.len() <= self.scale {
            zeros((self.scale + 1 - d.len()) as nat) + d
        } else {
            d
        }
    }

    /// The text of the number: a `-` where it is negative, the digits before
    /// the point and, where `scale` is positive, a point and `scale` digits.
    #[verifier::opaque]
    pub open spec fn text(self) -> Seq<char> {
        let p = self.padded_digits();
        let cut = p.len() - self.scale;
        let sign = if self.negative {
            seq!['-']
        } else {
            Seq::<char>::empty()
        };
        if self.scale == 0 {
            sign + p
        } else {
            sign + p.subrange(0, cut) + seq!['.'] + p.subrange(cut, p.len() as int)
        }
    }

    /// The number that a text denotes: an optional sign, digits, and
    /// optionally a point and further digits; one digit at least, no more
    /// than 255 after the point, and a magnitude that fits 64 bits.
    #[verifier::opaque]
    pub open spec fn parse(s: Seq<char>) -> Option<Decimal> {
        let negative = s.len() > 0 && s[0] == '-';
        let start: int = if s.len() > 0 && (s[0] == '-' || s[0] == '+') {
            1
        } else {
            0
        };
        let dot = first_dot(s, start);
        let after: int = if dot < s.len() {
            dot + 1
        } else {
            dot
        };
        if (dot - start) + (s.len() - after) == 0 || s.len() - after > 255 {
            None
        } else {
            match spec_read_digits(s, start, dot, 0, u64::MAX as nat) {
                None => None,
                Some(whole) => match spec_read_digits(
                    s,
                    after,
                    s.len() as int,
                    whole,
                    u64::MAX as nat,
                ) {
                    None => None,
                    Some(m) => Some(
                        Decimal { negative, magnitude: m as u64, scale: (s.len() - after) as u8 },
                    ),
                },
            }
        }
    }

    /// Reads a decimal number.
    pub fn from_str(s: &str) -> (r: Option<Decimal>)
        ensures
            r == Decimal::parse(s@),
    {
        proof {
            reveal(Decimal::parse);
        }
        let n: usize = s.unicode_len();
        let mut negative = false;
        let mut start: usize = 0;
        if n > 0 {
            let c = s.get_char(0);
            if c == '-' {
                negative = true;
                start = 1;
            } else if c == '+' {
                start = 1;
            }
        }
        let mut dot: usize = start;
        while dot < n && s.get_char(dot) != '.'
            invariant
                start <= dot <= n,
                n == s@.len(),
                forall|j: int| start <= j < dot ==> s@[j] != '.',
            decreases n - dot,
        {
            dot = dot + 1;
        }
        proof {
            lemma_first_dot(s@, start as int, dot as int);
        }
        let after: usize = if dot < n {
            dot + 1
        } else {
            dot
        };
        if (dot - start) + (n - after) == 0 || n - after > 255 {
            return None;
        }
        match read_digits(s, start, dot, 0, u64::MAX) {
            None => None,
            Some(whole) => match read_digits(s, after, n, whole, u64::MAX) {
                None => None,
                Some(m) => Some(Decimal { negative, magnitude: m, scale: (n - after) as u8 }),
            },
        }
    }

    /// Writes the number.
    pub fn format(&self) -> (r: String)
        ensures
            r@ == self.text(),
    {
        proof {
            reveal(Decimal::text);
            reveal_strlit("-");
            reveal_strlit(".");
            reveal_strlit("0");
            lemma_nat_digits(self.magnitude as nat);
        }
        let digits = format_unsigned(self.magnitude);
        let len: usize = digits.as_str().unicode_len();
        let scale: usize = self.scale as usize;
        let mut out = String::new();
        if self.negative {
            out.append("-");
        }
        let ghost sign = out@;
        if scale == 0 {
            out.append(digits.as_str());
        } else if len > scale {
            out.append(digits.as_str().substring_char(0, len - scale));
            out.append(".");
            out.append(digits.as_str().substring_char(len - scale, len));
        } else {
            out.append("0");
            out.append(".");
            let mut j: usize = 0;
            while j < scale - len
                invariant
                    j <= scale - len,
                    len <= scale,
                    out@ == sign + seq!['0'] + seq!['.'] + zeros(j as nat),
                decreases scale - len - j,
            {
                proof {
                    reveal_strlit("0");
                }
                out.append("0");
                j = j + 1;
                assert(out@ =~= sign + seq!['0'] + seq!['.'] + zeros(j as nat));
            }
            out.append(digits.as_str());
            proof {
                let p = self.padded_digits();
                assert(p.subrange(0, 1) =~= seq!['0']);
                assert(p.subrange(1, p.len() as int) =~= zeros((scale - len) as nat) + digits@);
            }
        }
        assert(out@ =~= self.text());
        out
    }

    /// Reading the text of a number gives the number back.
    pub proof fn lemma_parse_text(d: Decimal)
        ensures
            Decimal::parse(d.text()) == Some(d),
    {
        reveal(Decimal::parse);
        reveal(Decimal::text);
        reveal(spec_read_digits);
        let t = d.text();
        let digits = nat_digits(d.magnitude as nat);
        let p = d.padded_digits();
        let cut = p.len() - d.scale;
        let start: int = if d.negative {
            1
        } else {
            0
        };
        lemma_nat_digits(d.magnitude as nat);
        if digits.len() <= d.scale {
            lemma_zeros_value((d.scale + 1 - digits.len()) as nat);
            lemma_extend_value_concat(0, zeros((d.scale + 1 - digits.len()) as nat), digits);
        }
        assert(all_digits(p)) by {
            if digits.len() <= d.scale {
                let z = zeros((d.scale + 1 - digits.len()) as nat);
                assert forall|i: int| 0 <= i < p.len() implies is_digit(#[trigger] p[i]) by {
                    if i < z.len() {
                        assert(p[i] == z[i]);
                    } else {
                        assert(p[i] == digits[i - z.len()]);
                    }
                }
            }
        }
        assert(extend_value(0, p) == d.magnitude);
        assert(is_digit(p[0]));
        assert(t[start] == p[0]);
        assert forall|j: int| start <= j < start + cut implies t[j] != '.' by {
            assert(t[j] == p[j - start]);
            assert(is_digit(p[j - start]));
        }
        lemma_first_dot(t, start, start + cut);
        let dot = start + cut;
        let after: int = if d.scale == 0 {
            dot
        } else {
            dot + 1
        };
        let whole_digits = p.subrange(0, cut);
        let fraction_digits = p.subrange(cut, p.len() as int);
        assert(t.subrange(start, dot) =~= whole_digits);
        assert(t.subrange(after, t.len() as int) =~= fraction_digits);
        assert(whole_digits + fraction_digits =~= p);
        lemma_extend_value_grows(0, p, cut);
        lemma_extend_value_concat(0, whole_digits, fraction_digits);
        assert(all_digits(whole_digits)) by {
            assert forall|i: int| 0 <= i < whole_digits.len() implies is_digit(
                #[trigger] whole_digits[i],
            ) by {
                assert(whole_digits[i] == p[i]);
            }
        }
        assert(all_digits(fraction_digits)) by {
            assert forall|i: int| 0 <= i < fraction_digits.len() implies is_digit(
                #[trigger] fraction_digits[i],
            ) by {
                assert(fraction_digits[i] == p[cut + i]);
            }
        }
    }
}

} // verus!
