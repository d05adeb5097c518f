//! What this library knows of `dcbor`: the value type it carries, the model
//! under which contracts speak of it, and the few operations it performs on
//! it, each with the contract that dcbor's source gives it.

use vstd::prelude::*;
use dcbor::CBOR;

verus! {

/// dcbor's value type, opaque here: contracts read it through [`case_of`].
#[verifier::external_type_specification]
#[verifier::external_body]
pub struct ExCbor(CBOR);

/// dcbor's tag type, opaque here; it appears only inside `dcbor::Error`.
#[verifier::external_type_specification]
#[verifier::external_body]
pub struct ExTag(dcbor::Tag);

/// std's UTF-8 error, opaque here; it appears only inside `dcbor::Error`.
#[verifier::external_type_specification]
#[verifier::external_body]
pub struct ExUtf8Error(core::str::Utf8Error);

/// dcbor's error, with its variants visible, so that a decoder can tell
/// `OutOfRange` from `WrongType`.
#[verifier::external_type_specification]
pub struct ExCborError(dcbor::Error);

/// A CBOR value as this library reads it: dcbor's `CBORCase`, with a tag
/// given by its number, and byte strings, maps and simple values together
/// as `Other`.
pub enum CborCase {
    Unsigned(u64),
    Negative(u64),
    Text(Seq<char>),
    Array(Seq<CBOR>),
    Tagged(u64, CBOR),
    Other,
}

/// What a CBOR value holds: the case that `CBOR::as_case` returns for it,
/// read as a [`CborCase`]. It depends on the value alone; a clone holds the
/// same case.
pub uninterp spec fn case_of(c: CBOR) -> CborCase;

/// The integer that a CBOR case stands for, if it is an integer.
pub open spec fn int_value(c: CborCase) -> Option<int> {
    match c {
        CborCase::Unsigned(n) => Some(n as int),
        CborCase::Negative(n) => Some(-1 - n),
        _ => None,
    }
}

/// The case in which dcbor holds the integer `v`: `Negative(-1 - v)` for a
/// negative one, `Unsigned(v)` for any other.
pub open spec fn int_case(v: int) -> CborCase {
    if v < 0 {
        CborCase::Negative((-1 - v) as u64)
    } else {
        CborCase::Unsigned(v as u64)
    }
}

/// Two lists of CBOR values of one length whose items have the same cases,
/// place by place.
pub open spec fn same_cases(a: Seq<CBOR>, b: Seq<CBOR>) -> bool {
    &&& a.len() == b.len()
    &&& forall|i: int| 0 <= i < a.len() ==> case_of(#[trigger] a[i]) == case_of(b[i])
}

/// Relies on `CBOR::from(i64)`: a negative `n` becomes `Negative(-1 - n)`,
/// any other `Unsigned(n)`.
#[verifier::external_body]
pub(crate) fn cbor_from_i64(n: i64) -> (r: CBOR)
    ensures
        case_of(r) == int_case(n as int),
{
    CBOR::from(n)
}

/// Relies on `<i8 as TryFrom<CBOR>>::try_from`: an integer case in the
/// range of `i8` gives its value, another integer `OutOfRange`, anything
/// else `WrongType`.
#[verifier::external_body]
pub(crate) fn cbor_to_i8(c: CBOR) -> (r: Result<i8, dcbor::Error>)
    ensures
        match int_value(case_of(c)) {
            Some(v) => if i8::MIN <= v <= i8::MAX {
                r == Ok::<i8, dcbor::Error>(v as i8)
            } else {
                r == Err::<i8, dcbor::Error>(dcbor::Error::OutOfRange)
            },
            None => r == Err::<i8, dcbor::Error>(dcbor::Error::WrongType),
        },
{
    i8::try_from(c)
}

/// Relies on `<i64 as TryFrom<CBOR>>::try_from`: an integer case in the
/// range of `i64` gives its value, another integer `OutOfRange`, anything
/// else `WrongType`.
#[verifier::external_body]
pub(crate) fn cbor_to_i64(c: CBOR) -> (r: Result<i64, dcbor::Error>)
    ensures
        match int_value(case_of(c)) {
            Some(v) => if i64::MIN <= v <= i64::MAX {
                r == Ok::<i64, dcbor::Error>(v as i64)
            } else {
                r == Err::<i64, dcbor::Error>(dcbor::Error::OutOfRange)
            },
            None => r == Err::<i64, dcbor::Error>(dcbor::Error::WrongType),
        },
{
    i64::try_from(c)
}

/// Relies on `CBOR::from(String)`: the result is the case `Text` of the
/// same characters.
#[verifier::external_body]
pub(crate) fn cbor_from_text(s: String) -> (r: CBOR)
    ensures
        case_of(r) == CborCase::Text(s@),
{
    CBOR::from(s)
}

/// Relies on `<String as TryFrom<CBOR>>::try_from`: a `Text` case gives its
/// characters, anything else `WrongType`.
#[verifier::external_body]
pub(crate) fn cbor_to_text(c: CBOR) -> (r: Result<String, dcbor::Error>)
    ensures
        match case_of(c) {
            CborCase::Text(t) => r is Ok && r.unwrap()@ == t,
            _ => r == Err::<String, dcbor::Error>(dcbor::Error::WrongType),
        },
{
    String::try_from(c)
}

/// Relies on `CBOR::from(Vec<CBOR>)`: the result is the case `Array` of the
/// same items, in order.
#[verifier::external_body]
pub(crate) fn cbor_from_array(items: Vec<CBOR>) -> (r: CBOR)
    ensures
        case_of(r) == CborCase::Array(items@),
{
    CBOR::from(items)
}

/// Relies on `CBOR::try_into_array`: an `Array` case gives its items (each
/// the same value, or a clone of it), anything else `WrongType`.
#[verifier::external_body]
pub(crate) fn cbor_into_array(c: CBOR) -> (r: Result<Vec<CBOR>, dcbor::Error>)
    ensures
        match case_of(c) {
            CborCase::Array(items) => r is Ok && same_cases(r.unwrap()@, items),
            _ => r == Err::<Vec<CBOR>, dcbor::Error>(dcbor::Error::WrongType),
        },
{
    c.try_into_array()
}

/// Relies on `CBOR::try_into_expected_tagged_value`: a `Tagged` case with
/// the expected tag gives its item (the same value, or a clone of it); one
/// with another tag gives `WrongTag`, anything else `WrongType`.
#[verifier::external_body]
pub(crate) fn cbor_expect_tagged(c: CBOR, tag: u64) -> (r: Result<CBOR, dcbor::Error>)
    ensures
        match case_of(c) {
            CborCase::Tagged(t, item) => if t == tag {
                r is Ok && case_of(r.unwrap()) == case_of(item)
            } else {
                r is Err && r->Err_0 is WrongTag
            },
            _ => r == Err::<CBOR, dcbor::Error>(dcbor::Error::WrongType),
        },
{
    c.try_into_expected_tagged_value(tag)
}

/// Relies on `CBOR::to_tagged_value`: the result is the case
/// `Tagged(tag, item)`.
#[verifier::external_body]
pub(crate) fn cbor_tagged(tag: u64, item: CBOR) -> (r: CBOR)
    ensures
        case_of(r) == CborCase::Tagged(tag, item),
{
    CBOR::to_tagged_value(tag, item)
}

} // verus!
