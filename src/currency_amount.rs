//! A currency amount: a currency code and an exact decimal, tagged on the
//! wire as a pair of their own wire forms.

use vstd::prelude::*;
use dcbor::CBOR;
use crate::currency_code::{code_decoding, encodes_code, lemma_code_round_trip, CurrencyCode};
use crate::decimal_fraction::{
    decimal_decoding, encodes_decimal, lemma_decimal_round_trip, render, DecimalFraction,
};
use crate::decode::{tagged_pair, untag_pair, DecodeError};
use crate::tags::TAG_CURRENCY_AMOUNT;
use crate::wire::{case_of, cbor_from_array, cbor_tagged, CborCase};

verus! {

/// An amount of money: a currency and an exact decimal, in that order.
#[derive(Clone, Debug, PartialEq, Eq)]
pub struct CurrencyAmount(CurrencyCode, DecimalFraction);

impl View for CurrencyAmount {
    type V = (Seq<char>, DecimalFraction);

    closed spec fn view(&self) -> (Seq<char>, DecimalFraction) {
        (self.0@, self.1)
    }
}

/// `c` is the wire form of the amount `v`: the tag of currency amounts over
/// an array of the wire forms of the code and of the decimal.
pub open spec fn encodes_amount(c: CborCase, v: (Seq<char>, DecimalFraction)) -> bool {
    match tagged_pair(c, TAG_CURRENCY_AMOUNT) {
        Ok((code, amount)) => encodes_code(code, v.0) && encodes_decimal(amount, v.1),
        Err(_) => false,
    }
}

/// What reading `c` as a currency amount gives: the tag and an array of two
/// items, then the first item read as a currency code and the second as a
/// decimal fraction; the first step that fails decides the error, and an
/// error of an item is passed on as it is.
pub open spec fn amount_decoding(c: CborCase) -> Result<(Seq<char>, DecimalFraction), DecodeError> {
    match tagged_pair(c, TAG_CURRENCY_AMOUNT) {
        Err(e) => Err(e),
        Ok((code, amount)) => match code_decoding(code) {
            Err(e) => Err(e),
            Ok(s) => match decimal_decoding(amount) {
                Err(e) => Err(e),
                Ok(d) => Ok((s, d)),
            },
        },
    }
}

/// The text form of an amount: the code, a space, and the decimal's
/// canonical text.
pub open spec fn render_amount(v: (Seq<char>, DecimalFraction)) -> Seq<char> {
    v.0 + seq![' '] + render(v.1)
}

/// Reading the wire form of a currency amount gives back the same code and
/// the same decimal, for every code and every decimal.
pub proof fn lemma_amount_round_trip(v: (Seq<char>, DecimalFraction), c: CborCase)
    requires
        encodes_amount(c, v),
    ensures
        amount_decoding(c) == Ok::<(Seq<char>, DecimalFraction), DecodeError>(v),
{
    let (code, amount) = tagged_pair(c, TAG_CURRENCY_AMOUNT).unwrap();
    lemma_code_round_trip(v.0, code);
    lemma_decimal_round_trip(v.1, amount);
}

/// A value tagged with any other tag is refused as a currency amount with
/// `TagMismatch`, whatever it holds.
pub proof fn lemma_amount_wrong_tag(tag: u64, item: CBOR)
    requires
        tag != TAG_CURRENCY_AMOUNT,
    ensures
        amount_decoding(CborCase::Tagged(tag, item)) == Err::<(Seq<char>, DecimalFraction), DecodeError>(
            DecodeError::TagMismatch,
        ),
{
}

/// A currency amount whose payload is an array of one item, or of three, is
/// refused with `ShapeMismatch`, whatever the items are.
pub proof fn lemma_amount_wrong_length(item: CBOR)
    requires
        match case_of(item) {
            CborCase::Array(items) => items.len() == 1 || items.len() == 3,
            _ => false,
        },
    ensures
        amount_decoding(CborCase::Tagged(TAG_CURRENCY_AMOUNT, item)) == Err::<
            (Seq<char>, DecimalFraction),
            DecodeError,
        >(DecodeError::ShapeMismatch),
{
}

impl CurrencyAmount {
    /// The amount `amount` in the currency `currency`.
    pub fn new(currency: CurrencyCode, amount: DecimalFraction) -> (r: Self)
        ensures
            r@ == (currency@, amount),
    {
        CurrencyAmount(currency, amount)
    }

    /// The currency of this amount.
    pub fn currency(&self) -> (r: &CurrencyCode)
        ensures
            r@ == self@.0,
    {
        &self.0
    }

    /// The number of this amount.
    pub fn amount(&self) -> (r: &DecimalFraction)
        ensures
            *r == self@.1,
    {
        &self.1
    }

    /// The text form: the currency's text, a space, and the amount's
    /// canonical text (`USD 1.1`).
    pub fn to_string(&self) -> (r: String)
        ensures
            r@ == render_amount(self@),
    {
        proof {
            reveal_strlit(" ");
        }
        let mut s = self.0.to_string();
        s.append(" ");
        let amount = self.1.to_string();
        s.append(amount.as_str());
        s
    }

    /// The wire form: the tag of currency amounts over the array of the
    /// currency's wire form and the amount's wire form.
    pub fn to_cbor(&self) -> (r: CBOR)
        ensures
            encodes_amount(case_of(r), self@),
    {
        let items = vec![self.0.to_cbor(), self.1.to_cbor()];
        let r = cbor_tagged(TAG_CURRENCY_AMOUNT, cbor_from_array(items));
        proof {
            assert(tagged_pair(case_of(r), TAG_CURRENCY_AMOUNT) == Ok::<(CborCase, CborCase), DecodeError>(
                (case_of(items@[0]), case_of(items@[1]))));
        }
        r
    }

    /// Reads a currency amount from its wire form (see [`amount_decoding`]).
    pub fn from_cbor(cbor: CBOR) -> (r: Result<Self, DecodeError>)
        ensures
            match r {
                Ok(v) => amount_decoding(case_of(cbor)) == Ok::<(Seq<char>, DecimalFraction), DecodeError>(v@),
                Err(e) => amount_decoding(case_of(cbor)) == Err::<(Seq<char>, DecimalFraction), DecodeError>(e),
            },
    {
        let (code, amount) = untag_pair(cbor, TAG_CURRENCY_AMOUNT)?;
        let currency = CurrencyCode::from_cbor(code)?;
        let amount = DecimalFraction::from_cbor(amount)?;
        Ok(CurrencyAmount(currency, amount))
    }
}

} // verus!
