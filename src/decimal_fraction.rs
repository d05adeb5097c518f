//! An exact decimal number: a mantissa scaled by a power of ten, with its
//! canonical text form and its tagged wire form.

use vstd::prelude::*;
use dcbor::CBOR;
use crate::decode::{integer_within, number_error, tagged_pair, untag_pair, DecodeError};
use crate::tags::TAG_DECIMAL_FRACTION;
use crate::wire::{
    case_of, cbor_from_array, cbor_from_i64, cbor_tagged, cbor_to_i64, cbor_to_i8, int_case, CborCase,
};

verus! {

/// The exact number `mantissa * 10^exponent`.
///
/// No normal form is imposed: `(1, 5)` and `(0, 50)` denote one number but
/// are different values, and compare unequal.
#[derive(Clone, Copy, Debug, PartialEq, Eq, Structural)]
pub struct DecimalFraction {
    pub exponent: i8,
    pub mantissa: i64,
}

/// The character of a decimal digit.
pub open spec fn digit_char(d: nat) -> char {
    if d == 0 { '0' }
    else if d == 1 { '1' }
    else if d == 2 { '2' }
    else if d == 3 { '3' }
    else if d == 4 { '4' }
    else if d == 5 { '5' }
    else if d == 6 { '6' }
    else if d == 7 { '7' }
    else if d == 8 { '8' }
    else { '9' }
}

/// `c` is one of the characters `0` to `9`.
pub open spec fn is_digit(c: char) -> bool {
    '0' <= c <= '9'
}

/// The decimal numeral of `n`, without leading zeros (`0` is `"0"`).
pub open spec fn decimal_digits(n: nat) -> Seq<char>
    decreases n,
{
    if n < 10 {
        seq![digit_char(n)]
    } else {
        decimal_digits(n / 10).push(digit_char(n % 10))
    }
}

/// `k` zero characters.
pub open spec fn zeros(k: nat) -> Seq<char> {
    Seq::new(k, |_i: int| '0')
}

/// The absolute value of a mantissa.
pub open spec fn magnitude(m: i64) -> nat {
    if m < 0 { (-m) as nat } else { m as nat }
}

/// The canonical text of a decimal fraction: `"0"` for a zero mantissa;
/// otherwise a `-` for a negative one, then the digits of its magnitude,
/// followed by `exponent` zeros when the exponent is not negative, or with a
/// decimal point placed `-exponent` digits from the right, padded on the left
/// with zeros to `"0."` when the digits do not reach that far.
pub open spec fn render(d: DecimalFraction) -> Seq<char> {
    if d.mantissa == 0 {
        seq!['0']
    } else {
        let sign: Seq<char> = if d.mantissa < 0 { seq!['-'] } else { seq![] };
        let digits = decimal_digits(magnitude(d.mantissa));
        if d.exponent >= 0 {
            sign + digits + zeros(d.exponent as nat)
        } else {
            let frac_len = -d.exponent;
            if digits.len() <= frac_len {
                sign + seq!['0', '.'] + zeros((frac_len - digits.len()) as nat) + digits
            } else {
                let point = digits.len() - frac_len;
                sign + digits.subrange(0, point) + seq!['.'] + digits.subrange(point, digits.len() as int)
            }
        }
    }
}

/// A numeral is never empty, and holds digits only.
proof fn lemma_digits_are_digits(n: nat)
    ensures
        decimal_digits(n).len() >= 1,
        forall|i: int| 0 <= i < decimal_digits(n).len() ==> is_digit(#[trigger] decimal_digits(n)[i]),
    decreases n,
{
    if n >= 10 {
        lemma_digits_are_digits(n / 10);
    }
}

/// The character of the digit `d`.
fn digit_of(d: u64) -> (c: char)
    requires
        d < 10,
    ensures
        c == digit_char(d as nat),
{
    if d == 0 { '0' }
    else if d == 1 { '1' }
    else if d == 2 { '2' }
    else if d == 3 { '3' }
    else if d == 4 { '4' }
    else if d == 5 { '5' }
    else if d == 6 { '6' }
    else if d == 7 { '7' }
    else if d == 8 { '8' }
    else { '9' }
}

/// The one-character text of a digit.
fn digit_text(c: char) -> (s: &'static str)
    requires
        is_digit(c),
    ensures
        s@ == seq![c],
{
    proof {
        reveal_strlit("0");
        reveal_strlit("1");
        reveal_strlit("2");
        reveal_strlit("3");
        reveal_strlit("4");
        reveal_strlit("5");
        reveal_strlit("6");
        reveal_strlit("7");
        reveal_strlit("8");
        reveal_strlit("9");
    }
    if c == '0' { "0" }
    else if c == '1' { "1" }
    else if c == '2' { "2" }
    else if c == '3' { "3" }
    else if c == '4' { "4" }
    else if c == '5' { "5" }
    else if c == '6' { "6" }
    else if c == '7' { "7" }
    else if c == '8' { "8" }
    else { "9" }
}

/// Appends the decimal numeral of `n` to `v`.
fn push_digits(v: &mut Vec<char>, n: u64)
    ensures
        final(v)@ == old(v)@ + decimal_digits(n as nat),
    decreases n,
{
    if n >= 10 {
        push_digits(v, n / 10);
    }
    v.push(digit_of(n % 10));
    assert(final(v)@ =~= old(v)@ + decimal_digits(n as nat));
}

/// Appends the digits `cs[from..to]` to `s`.
fn append_digits(s: &mut String, cs: &Vec<char>, from: usize, to: usize)
    requires
        from <= to <= cs@.len(),
        forall|i: int| 0 <= i < cs@.len() ==> is_digit(#[trigger] cs@[i]),
    ensures
        final(s)@ == old(s)@ + cs@.subrange(from as int, to as int),
{
    let mut i: usize = from;
    while i < to
        invariant
            from <= i <= to <= cs@.len(),
            forall|j: int| 0 <= j < cs@.len() ==> is_digit(#[trigger] cs@[j]),
            s@ == old(s)@ + cs@.subrange(from as int, i as int),
        decreases to - i,
    {
        s.append(digit_text(cs[i]));
        i = i + 1;
        assert(s@ =~= old(s)@ + cs@.subrange(from as int, i as int));
    }
}

/// Appends `k` zeros to `s`.
fn append_zeros(s: &mut String, k: usize)
    ensures
        final(s)@ == old(s)@ + zeros(k as nat),
{
    let zero = "0";
    proof {
        reveal_strlit("0");
        assert(zero@ =~= seq!['0']);
    }
    let mut i: usize = 0;
    while i < k
        invariant
            i <= k,
            zero@ == seq!['0'],
            s@ == old(s)@ + zeros(i as nat),
        decreases k - i,
    {
        s.append(zero);
        i = i + 1;
        assert(s@ =~= old(s)@ + zeros(i as nat));
    }
}

/// `c` is the wire form of `d`: tagged as a decimal fraction, holding an
/// array of the exponent and the mantissa as integers.
pub open spec fn encodes_decimal(c: CborCase, d: DecimalFraction) -> bool {
    tagged_pair(c, TAG_DECIMAL_FRACTION) == Ok::<(CborCase, CborCase), DecodeError>(
        (int_case(d.exponent as int), int_case(d.mantissa as int)),
    )
}

/// What reading `c` as a decimal fraction gives: the tag, then an array of
/// two items, then the exponent as an `i8` and the mantissa as an `i64`, and
/// the first of these that fails decides the error.
pub open spec fn decimal_decoding(c: CborCase) -> Result<DecimalFraction, DecodeError> {
    match tagged_pair(c, TAG_DECIMAL_FRACTION) {
        Err(e) => Err(e),
        Ok((e, m)) => match integer_within(e, i8::MIN as int, i8::MAX as int) {
            Err(err) => Err(err),
            Ok(exponent) => match integer_within(m, i64::MIN as int, i64::MAX as int) {
                Err(err) => Err(err),
                Ok(mantissa) => Ok(DecimalFraction { exponent: exponent as i8, mantissa: mantissa as i64 }),
            },
        },
    }
}

/// Reading the wire form of a decimal fraction gives back the same exponent
/// and mantissa, for every pair.
pub proof fn lemma_decimal_round_trip(d: DecimalFraction, c: CborCase)
    requires
        encodes_decimal(c, d),
    ensures
        decimal_decoding(c) == Ok::<DecimalFraction, DecodeError>(d),
{
}

/// A value tagged with any other tag is refused as a decimal fraction with
/// `TagMismatch`, whatever it holds.
pub proof fn lemma_decimal_wrong_tag(tag: u64, item: CBOR)
    requires
        tag != TAG_DECIMAL_FRACTION,
    ensures
        decimal_decoding(CborCase::Tagged(tag, item)) == Err::<DecimalFraction, DecodeError>(
            DecodeError::TagMismatch,
        ),
{
}

/// A decimal fraction whose mantissa is text is refused with
/// `TypeMismatch`. (An exponent that is an integer outside the range of `i8`
/// is read first, and is refused with `RangeOverflow` instead.)
pub proof fn lemma_text_mantissa(c: CborCase, exponent: CborCase, text: Seq<char>)
    requires
        tagged_pair(c, TAG_DECIMAL_FRACTION) == Ok::<(CborCase, CborCase), DecodeError>(
            (exponent, CborCase::Text(text)),
        ),
        integer_within(exponent, i8::MIN as int, i8::MAX as int) != Err::<int, DecodeError>(
            DecodeError::RangeOverflow,
        ),
    ensures
        decimal_decoding(c) == Err::<DecimalFraction, DecodeError>(DecodeError::TypeMismatch),
{
}

impl DecimalFraction {
    /// The decimal fraction `mantissa * 10^exponent`; every pair is accepted.
    pub fn new(exponent: i8, mantissa: i64) -> (r: Self)
        ensures
            r.exponent == exponent,
            r.mantissa == mantissa,
    {
        DecimalFraction { exponent, mantissa }
    }

    /// The canonical text of this number (see [`render`]), computed on its
    /// digits alone, never through floating point.
    pub fn to_string(&self) -> (r: String)
        ensures
            r@ == render(*self),
    {
        proof {
            reveal_strlit("0");
            reveal_strlit("-");
            reveal_strlit("0.");
            reveal_strlit(".");
        }
        if self.mantissa == 0 {
            return String::from_str("0");
        }
        let mut s = String::new();
        if self.mantissa < 0 {
            s.append("-");
        }
        let abs_value: u64 = if self.mantissa < 0 {
            (-(self.mantissa + 1)) as u64 + 1
        } else {
            self.mantissa as u64
        };
        let mut digits: Vec<char> = Vec::new();
        push_digits(&mut digits, abs_value);
        proof {
            lemma_digits_are_digits(abs_value as nat);
            assert(digits@ =~= decimal_digits(magnitude(self.mantissa)));
        }
        let len = digits.len();
        if self.exponent >= 0 {
            append_digits(&mut s, &digits, 0, len);
            append_zeros(&mut s, self.exponent as usize);
        } else {
            let frac_len = (-(self.exponent as i16)) as usize;
            if len <= frac_len {
                s.append("0.");
                append_zeros(&mut s, frac_len - len);
                append_digits(&mut s, &digits, 0, len);
            } else {
                let point = len - frac_len;
                append_digits(&mut s, &digits, 0, point);
                s.append(".");
                append_digits(&mut s, &digits, point, len);
            }
        }
        proof {
            assert(digits@.subrange(0, len as int) =~= digits@);
            assert(s@ =~= render(*self));
        }
        s
    }

    /// The wire form: the tag of decimal fractions over the array
    /// `[exponent, mantissa]`.
    pub fn to_cbor(&self) -> (r: CBOR)
        ensures
            encodes_decimal(case_of(r), *self),
    {
        let items = vec![cbor_from_i64(self.exponent as i64), cbor_from_i64(self.mantissa)];
        let r = cbor_tagged(TAG_DECIMAL_FRACTION, cbor_from_array(items));
        proof {
            assert(tagged_pair(case_of(r), TAG_DECIMAL_FRACTION) == Ok::<(CborCase, CborCase), DecodeError>(
                (int_case(self.exponent as int), int_case(self.mantissa as int))));
        }
        r
    }

    /// Reads a decimal fraction from its wire form; fails on the first
    /// step that does not match (see [`decimal_decoding`]).
    pub fn from_cbor(cbor: CBOR) -> (r: Result<Self, DecodeError>)
        ensures
            r == decimal_decoding(case_of(cbor)),
    {
        let (e, m) = untag_pair(cbor, TAG_DECIMAL_FRACTION)?;
        let exponent = match cbor_to_i8(e) {
            Ok(x) => x,
            Err(err) => return Err(number_error(err)),
        };
        let mantissa = match cbor_to_i64(m) {
            Ok(x) => x,
            Err(err) => return Err(number_error(err)),
        };
        Ok(DecimalFraction::new(exponent, mantissa))
    }
}

} // verus!
