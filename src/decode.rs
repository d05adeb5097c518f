//! The ways a decode can fail, and the steps that the composite types share
//! when they read their wire form.

use vstd::prelude::*;
use dcbor::CBOR;
use crate::wire::{case_of, cbor_expect_tagged, cbor_into_array, int_value, CborCase};

verus! {

/// Why a CBOR value is not the wire form of the type it was read as.
#[derive(Clone, Copy, Debug, PartialEq, Eq, Structural)]
pub enum DecodeError {
    /// The value is not tagged with the type's tag: it carries another tag,
    /// or none.
    TagMismatch,
    /// The payload is not an array, or an array of the wrong length.
    ShapeMismatch,
    /// An element is not of the kind expected there: not an integer where a
    /// number belongs, not text where a currency code belongs.
    TypeMismatch,
    /// A number does not fit the width of the field it is read into.
    RangeOverflow,
}

/// The two items of a value that is tagged with `tag` and holds an array of
/// exactly two elements, as their cases; else the error that reading it
/// stops at.
pub open spec fn tagged_pair(c: CborCase, tag: u64) -> Result<(CborCase, CborCase), DecodeError> {
    match c {
        CborCase::Tagged(t, item) => if t != tag {
            Err(DecodeError::TagMismatch)
        } else {
            match case_of(item) {
                CborCase::Array(items) => if items.len() == 2 {
                    Ok((case_of(items[0]), case_of(items[1])))
                } else {
                    Err(DecodeError::ShapeMismatch)
                },
                _ => Err(DecodeError::ShapeMismatch),
            }
        },
        _ => Err(DecodeError::TagMismatch),
    }
}

/// The integer that a case holds, if it lies in `lo..=hi`; `TypeMismatch`
/// for a case that is no integer, `RangeOverflow` for one outside the range.
pub open spec fn integer_within(c: CborCase, lo: int, hi: int) -> Result<int, DecodeError> {
    match int_value(c) {
        Some(v) => if lo <= v <= hi {
            Ok(v)
        } else {
            Err(DecodeError::RangeOverflow)
        },
        None => Err(DecodeError::TypeMismatch),
    }
}

/// The error of this library for a failed integer conversion of dcbor.
pub(crate) fn number_error(e: dcbor::Error) -> (r: DecodeError)
    ensures
        e is OutOfRange ==> r == DecodeError::RangeOverflow,
        e is WrongType ==> r == DecodeError::TypeMismatch,
{
    match e {
        dcbor::Error::OutOfRange => DecodeError::RangeOverflow,
        _ => DecodeError::TypeMismatch,
    }
}

/// Reads a value tagged with `tag` whose payload is an array of two items,
/// and hands the two items back.
pub(crate) fn untag_pair(cbor: CBOR, tag: u64) -> (r: Result<(CBOR, CBOR), DecodeError>)
    ensures
        match r {
            Ok((a, b)) => tagged_pair(case_of(cbor), tag) == Ok::<(CborCase, CborCase), DecodeError>(
                (case_of(a), case_of(b)),
            ),
            Err(e) => tagged_pair(case_of(cbor), tag) == Err::<(CborCase, CborCase), DecodeError>(e),
        },
{
    let item = match cbor_expect_tagged(cbor, tag) {
        Ok(item) => item,
        Err(_) => return Err(DecodeError::TagMismatch),
    };
    let mut items = match cbor_into_array(item) {
        Ok(items) => items,
        Err(_) => return Err(DecodeError::ShapeMismatch),
    };
    if items.len() != 2 {
        return Err(DecodeError::ShapeMismatch);
    }
    let second = items.pop().unwrap();
    let first = items.pop().unwrap();
    Ok((first, second))
}

} // verus!
