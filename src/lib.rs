//! Exact decimals, currency codes and currency amounts, with their tagged
//! CBOR wire forms (built and read through `dcbor`) and their canonical text.

mod currency_amount;
mod currency_code;
mod decimal_fraction;
mod decode;
mod tags;
mod wire;

pub use currency_amount::{
    amount_decoding, encodes_amount, lemma_amount_round_trip, lemma_amount_wrong_length,
    lemma_amount_wrong_tag, render_amount, CurrencyAmount,
};
pub use currency_code::{
    code_decoding, encodes_code, lemma_code_round_trip, lemma_code_wrong_tag, CurrencyCode,
};
pub use decimal_fraction::{
    decimal_decoding, decimal_digits, digit_char, encodes_decimal, is_digit,
    lemma_decimal_round_trip, lemma_decimal_wrong_tag, lemma_text_mantissa, magnitude, render, zeros,
    DecimalFraction,
};
pub use decode::{integer_within, tagged_pair, DecodeError};
pub use tags::{
    library_tags, TAG_CURRENCY_AMOUNT, TAG_CURRENCY_CODE, TAG_DECIMAL_FRACTION,
    TAG_NAME_CURRENCY_AMOUNT, TAG_NAME_CURRENCY_CODE, TAG_NAME_DECIMAL_FRACTION,
};
pub use wire::{case_of, int_case, int_value, CborCase};
