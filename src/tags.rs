//! The CBOR tags of this library's types, and their names for annotated
//! diagnostic output.

use vstd::prelude::*;

verus! {

/// The tag of an exact decimal: the standard tag for decimal fractions.
pub const TAG_DECIMAL_FRACTION: u64 = 4;

/// The name shown for [`TAG_DECIMAL_FRACTION`] in annotated output.
pub const TAG_NAME_DECIMAL_FRACTION: &'static str = "DecimalFraction";

/// The tag of a currency code, from the range open to private use.
pub const TAG_CURRENCY_CODE: u64 = 33000;

/// The name shown for [`TAG_CURRENCY_CODE`] in annotated output.
pub const TAG_NAME_CURRENCY_CODE: &'static str = "CurrencyCode";

/// The tag of a currency amount, from the range open to private use.
pub const TAG_CURRENCY_AMOUNT: u64 = 33001;

/// The name shown for [`TAG_CURRENCY_AMOUNT`] in annotated output.
pub const TAG_NAME_CURRENCY_AMOUNT: &'static str = "CurrencyAmount";

/// The number and the name of each of this library's tags, in the order
/// decimal fraction, currency code, currency amount: what a caller hands to
/// dcbor's tag registry so that annotated output names them. Encoding and
/// decoding do not depend on that registration.
pub fn library_tags() -> (r: Vec<(u64, &'static str)>)
    ensures
        r@.len() == 3,
        r@[0].0 == TAG_DECIMAL_FRACTION && r@[0].1@ == TAG_NAME_DECIMAL_FRACTION@,
        r@[1].0 == TAG_CURRENCY_CODE && r@[1].1@ == TAG_NAME_CURRENCY_CODE@,
        r@[2].0 == TAG_CURRENCY_AMOUNT && r@[2].1@ == TAG_NAME_CURRENCY_AMOUNT@,
{
    vec![
        (TAG_DECIMAL_FRACTION, TAG_NAME_DECIMAL_FRACTION),
        (TAG_CURRENCY_CODE, TAG_NAME_CURRENCY_CODE),
        (TAG_CURRENCY_AMOUNT, TAG_NAME_CURRENCY_AMOUNT),
    ]
}

} // verus!
