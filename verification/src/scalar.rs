//! Values that the format writes as one text: names, numbers and the closed
//! sets of words.
use crate::decimal::Decimal;
use crate::text::{
    format_signed, format_unsigned, int_text, lemma_parse_signed_of_text,
    lemma_parse_unsigned_of_digits, nat_digits, owned, parse_signed, parse_unsigned, same_text,
    spec_parse_signed, spec_parse_unsigned,
};
use vstd::prelude::*;

verus! {

/// A value with a text form.
pub trait Scalar: Sized + DeepView {
    /// The value that a text denotes, if it denotes one.
    spec fn parse(s: Seq<char>) -> Option<Self::V>;

    /// The text of a value.
    spec fn text(v: Self::V) -> Seq<char>;

    /// The value taken where none is written.
    spec fn initial() -> Self::V;

    /// Reading the text of a value gives the value back.
    proof fn parse_text(v: Self::V)
        ensures
            Self::parse(Self::text(v)) == Some(v),
    ;

    /// Reads a value.
    fn from_text(s: &str) -> (r: Option<Self>)
        ensures
            r.deep_view() == Self::parse(s@),
    ;

    /// Writes a value.
    fn to_text(&self) -> (r: String)
        ensures
            r@ == Self::text(self.deep_view()),
    ;

    /// Whether two values are the same.
    fn same(&self, other: &Self) -> (r: bool)
        ensures
            r == (self.deep_view() == other.deep_view()),
    ;

    /// The value taken where none is written.
    fn make_initial() -> (r: Self)
        ensures
            r.deep_view() == Self::initial(),
    ;
}

impl Scalar for String {
    open spec fn parse(s: Seq<char>) -> Option<Seq<char>> {
        Some(s)
    }

    open spec fn text(v: Seq<char>) -> Seq<char> {
        v
    }

    open spec fn initial() -> Seq<char> {
        Seq::empty()
    }

    proof fn parse_text(v: Seq<char>) {
    }

    fn from_text(s: &str) -> (r: Option<String>) {
        Some(owned(s))
    }

    fn to_text(&self) -> (r: String) {
        self.clone()
    }

    fn same(&self, other: &String) -> (r: bool) {
        same_text(self.as_str(), other.as_str())
    }

    fn make_initial() -> (r: String) {
        String::new()
    }
}

impl Scalar for u8 {
    open spec fn parse(s: Seq<char>) -> Option<u8> {
        match spec_parse_unsigned(s, u8::MAX as nat) {
            Some(v) => Some(v as u8),
            None => None,
        }
    }

    open spec fn text(v: u8) -> Seq<char> {
        nat_digits(v as nat)
    }

    open spec fn initial() -> u8 {
        0
    }

    proof fn parse_text(v: u8) {
        lemma_parse_unsigned_of_digits(v as nat, u8::MAX as nat);
    }

    fn from_text(s: &str) -> (r: Option<u8>) {
        match parse_unsigned(s, u8::MAX as u64) {
            Some(v) => Some(v as u8),
            None => None,
        }
    }

    fn to_text(&self) -> (r: String) {
        format_unsigned(*self as u64)
    }

    fn same(&self, other: &u8) -> (r: bool) {
        *self == *other
    }

    fn make_initial() -> (r: u8) {
        0
    }
}

impl Scalar for usize {
    open spec fn parse(s: Seq<char>) -> Option<usize> {
        match spec_parse_unsigned(s, usize::MAX as nat) {
            Some(v) => Some(v as usize),
            None => None,
        }
    }

    open spec fn text(v: usize) -> Seq<char> {
        nat_digits(v as nat)
    }

    open spec fn initial() -> usize {
        0
    }

    proof fn parse_text(v: usize) {
        lemma_parse_unsigned_of_digits(v as nat, usize::MAX as nat);
    }

    fn from_text(s: &str) -> (r: Option<usize>) {
        match parse_unsigned(s, usize::MAX as u64) {
            Some(v) => Some(v as usize),
            None => None,
        }
    }

    fn to_text(&self) -> (r: String) {
        format_unsigned(*self as u64)
    }

    fn same(&self, other: &usize) -> (r: bool) {
        *self == *other
    }

    fn make_initial() -> (r: usize) {
        0
    }
}

impl Scalar for i8 {
    open spec fn parse(s: Seq<char>) -> Option<i8> {
        match spec_parse_signed(s, 128, 127) {
            Some(v) => Some(v as i8),
            None => None,
        }
    }

    open spec fn text(v: i8) -> Seq<char> {
        int_text(v as int)
    }

    open spec fn initial() -> i8 {
        0
    }

    proof fn parse_text(v: i8) {
        lemma_parse_signed_of_text(v as int, 128, 127);
    }

    fn from_text(s: &str) -> (r: Option<i8>) {
        match parse_signed(s, 128, 127) {
            Some(v) => Some(v as i8),
            None => None,
        }
    }

    fn to_text(&self) -> (r: String) {
        format_signed(*self as i64)
    }

    fn same(&self, other: &i8) -> (r: bool) {
        *self == *other
    }

    fn make_initial() -> (r: i8) {
        0
    }
}

impl DeepView for Decimal {
    type V = Decimal;

    open spec fn deep_view(&self) -> Decimal {
        *self
    }
}

impl Scalar for Decimal {
    open spec fn parse(s: Seq<char>) -> Option<Decimal> {
        Decimal::parse(s)
    }

    open spec fn text(v: Decimal) -> Seq<char> {
        v.text()
    }

    open spec fn initial() -> Decimal {
        Decimal { negative: false, magnitude: 0, scale: 0 }
    }

    proof fn parse_text(v: Decimal) {
        Decimal::lemma_parse_text(v);
    }

    fn from_text(s: &str) -> (r: Option<Decimal>) {
        Decimal::from_str(s)
    }

    fn to_text(&self) -> (r: String) {
        self.format()
    }

    fn same(&self, other: &Decimal) -> (r: bool) {
        self.negative == other.negative && self.magnitude == other.magnitude && self.scale
            == other.scale
    }

    fn make_initial() -> (r: Decimal) {
        Decimal { negative: false, magnitude: 0, scale: 0 }
    }
}

/// `char::to_string` of std: the string of the one character.
#[verifier::external_body]
fn char_text(c: char) -> (r: String)
    ensures
        r@ == seq![c],
{
    c.to_string()
}

impl Scalar for char {
    open spec fn parse(s: Seq<char>) -> Option<char> {
        if s.len() == 1 {
            Some(s[0])
        } else {
            None
        }
    }

    open spec fn text(v: char) -> Seq<char> {
        seq![v]
    }

    open spec fn initial() -> char {
        '\0'
    }

    proof fn parse_text(v: char) {
    }

    fn from_text(s: &str) -> (r: Option<char>) {
        if s.unicode_len() == 1 {
            Some(s.get_char(0))
        } else {
            None
        }
    }

    fn to_text(&self) -> (r: String) {
        char_text(*self)
    }

    fn same(&self, other: &char) -> (r: bool) {
        *self == *other
    }

    fn make_initial() -> (r: char) {
        '\0'
    }
}

} // verus!
