//! A currency code: an opaque text identifier, tagged on the wire.

use vstd::prelude::*;
use dcbor::CBOR;
use crate::decode::DecodeError;
use crate::tags::TAG_CURRENCY_CODE;
use crate::wire::{case_of, cbor_expect_tagged, cbor_from_text, cbor_tagged, cbor_to_text, CborCase};

verus! {

/// A currency code, kept as the text it was made from: no case, length or
/// character set is checked.
#[derive(Clone, Debug, PartialEq, Eq)]
pub struct CurrencyCode(String);

impl View for CurrencyCode {
    type V = Seq<char>;

    closed spec fn view(&self) -> Seq<char> {
        self.0@
    }
}

/// `c` is the wire form of the code `s`: the tag of currency codes over the
/// text `s`.
pub open spec fn encodes_code(c: CborCase, s: Seq<char>) -> bool {
    match c {
        CborCase::Tagged(t, item) => t == TAG_CURRENCY_CODE && case_of(item) == CborCase::Text(s),
        _ => false,
    }
}

/// What reading `c` as a currency code gives: `TagMismatch` unless it is
/// tagged as a currency code, then `TypeMismatch` unless the payload is text.
pub open spec fn code_decoding(c: CborCase) -> Result<Seq<char>, DecodeError> {
    match c {
        CborCase::Tagged(t, item) => if t != TAG_CURRENCY_CODE {
            Err(DecodeError::TagMismatch)
        } else {
            match case_of(item) {
                CborCase::Text(s) => Ok(s),
                _ => Err(DecodeError::TypeMismatch),
            }
        },
        _ => Err(DecodeError::TagMismatch),
    }
}

/// Reading the wire form of a currency code gives back the same text.
pub proof fn lemma_code_round_trip(s: Seq<char>, c: CborCase)
    requires
        encodes_code(c, s),
    ensures
        code_decoding(c) == Ok::<Seq<char>, DecodeError>(s),
{
}

/// A value tagged with any other tag is refused as a currency code with
/// `TagMismatch`, whatever it holds.
pub proof fn lemma_code_wrong_tag(tag: u64, item: CBOR)
    requires
        tag != TAG_CURRENCY_CODE,
    ensures
        code_decoding(CborCase::Tagged(tag, item)) == Err::<Seq<char>, DecodeError>(
            DecodeError::TagMismatch,
        ),
{
}

impl CurrencyCode {
    /// The currency code `code`, taken as it is.
    pub fn new(code: &str) -> (r: Self)
        ensures
            r@ == code@,
    {
        CurrencyCode(code.to_owned())
    }

    /// The text of this code.
    pub fn code(&self) -> (r: &str)
        ensures
            r@ == self@,
    {
        self.0.as_str()
    }

    /// The text form of this code: the code itself.
    pub fn to_string(&self) -> (r: String)
        ensures
            r@ == self@,
    {
        self.0.clone()
    }

    /// The wire form: the tag of currency codes over the code as text.
    pub fn to_cbor(&self) -> (r: CBOR)
        ensures
            encodes_code(case_of(r), self@),
    {
        cbor_tagged(TAG_CURRENCY_CODE, cbor_from_text(self.0.clone()))
    }

    /// Reads a currency code from its wire form (see [`code_decoding`]).
    pub fn from_cbor(cbor: CBOR) -> (r: Result<Self, DecodeError>)
        ensures
            match r {
                Ok(v) => code_decoding(case_of(cbor)) == Ok::<Seq<char>, DecodeError>(v@),
                Err(e) => code_decoding(case_of(cbor)) == Err::<Seq<char>, DecodeError>(e),
            },
    {
        let item = match cbor_expect_tagged(cbor, TAG_CURRENCY_CODE) {
            Ok(item) => item,
            Err(_) => return Err(DecodeError::TagMismatch),
        };
        match cbor_to_text(item) {
            Ok(code) => Ok(CurrencyCode(code)),
            Err(_) => Err(DecodeError::TypeMismatch),
        }
    }
}

} // verus!
