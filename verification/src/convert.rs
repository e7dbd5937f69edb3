//! Checked conversions between Rust sizes and the 32-bit integers of the C ABI.

use crate::error::failure;
use crate::error::invalid;
use crate::error::Error;
use crate::error::ErrorModel;
use crate::text::decimal;
use crate::text::labelled;
use crate::text::number;
use crate::text::signed_decimal;
use crate::text::signed_number;
use vstd::prelude::*;
use vstd::string::StringExecFns;

verus! {

/// Why `value` cannot be passed as the C ABI integer `name`, if it cannot.
pub open spec fn i32_error(value: usize, name: Seq<char>) -> Option<ErrorModel> {
    if value > i32::MAX {
        invalid(name + " does not fit in i32: "@ + decimal(value as nat))
    } else {
        None
    }
}

/// Why `value` cannot be passed as the stride `name`, if it cannot.
pub open spec fn stride_error(value: usize, name: Seq<char>) -> Option<ErrorModel> {
    if value == 0 {
        invalid(name + " must be non-zero"@)
    } else {
        i32_error(value, name)
    }
}

/// Why `value` cannot be passed as the stride `name`, which may be zero unless it is required.
pub open spec fn optional_stride_error(value: usize, name: Seq<char>, required: bool) -> Option<
    ErrorModel,
> {
    if required {
        stride_error(value, name)
    } else {
        i32_error(value, name)
    }
}

/// Why the C ABI integer `name` is not a size, if it is not.
pub open spec fn negative_error(value: i32, name: Seq<char>) -> Option<ErrorModel> {
    if value < 0 {
        invalid(name + " is negative: "@ + signed_decimal(value as int))
    } else {
        None
    }
}

/// Whether `value` can be passed as a stride: positive and within the C ABI's integers.
pub open spec fn is_stride(value: usize) -> bool {
    0 < value <= i32::MAX
}

/// Converts a size to a C ABI integer.
pub fn checked_i32(value: usize, name: &str) -> (r: Result<i32, Error>)
    ensures
        failure(r) == i32_error(value, name@),
        r matches Ok(v) ==> v == value,
{
    if value > i32::MAX as usize {
        Err(
            Error::InvalidArgument(
                labelled(name, " does not fit in i32: ").concat(number(value).as_str()),
            ),
        )
    } else {
        Ok(value as i32)
    }
}

/// Converts a C ABI integer to a size.
pub fn checked_usize(value: i32, name: &str) -> (r: Result<usize, Error>)
    ensures
        failure(r) == negative_error(value, name@),
        r matches Ok(v) ==> v == value,
{
    if value < 0 {
        Err(
            Error::InvalidArgument(
                labelled(name, " is negative: ").concat(signed_number(value).as_str()),
            ),
        )
    } else {
        Ok(value as usize)
    }
}

/// Converts a stride to a C ABI integer. A stride is positive.
pub fn checked_stride(value: usize, name: &str) -> (r: Result<i32, Error>)
    ensures
        failure(r) == stride_error(value, name@),
        r is Ok <==> is_stride(value),
        r matches Ok(v) ==> v == value,
{
    if value == 0 {
        return Err(Error::InvalidArgument(labelled(name, " must be non-zero")));
    }
    checked_i32(value, name)
}

/// Converts a stride to a C ABI integer. The stride may be zero unless it is required.
pub fn checked_optional_stride(value: usize, name: &str, required: bool) -> (r: Result<i32, Error>)
    ensures
        failure(r) == optional_stride_error(value, name@, required),
        r matches Ok(v) ==> v == value,
{
    if required {
        checked_stride(value, name)
    } else {
        checked_i32(value, name)
    }
}

/// A size is converted if and only if it is at most the largest 32-bit integer, a stride if and only
/// if it is positive besides, an optional stride as what it is required to be, and a C ABI integer
/// is a size if and only if it is not negative.
pub proof fn convertible_values(size: usize, value: i32, required: bool, name: Seq<char>)
    ensures
        i32_error(size, name) is None <==> size <= 0x7fff_ffff,
        stride_error(size, name) is None <==> 1 <= size <= 0x7fff_ffff,
        is_stride(size) <==> 1 <= size <= 0x7fff_ffff,
        optional_stride_error(size, name, required) is None <==> size <= 0x7fff_ffff && (required
            ==> size >= 1),
        negative_error(value, name) is None <==> value >= 0,
{
}

/// A value that is refused is refused by its name and, unless it is a missing stride, with the value
/// itself.
pub proof fn refusals_name_the_value(size: usize, value: i32, name: Seq<char>)
    ensures
        size > 0x7fff_ffff ==> i32_error(size, name) == Some(
            ErrorModel::InvalidArgument(name + " does not fit in i32: "@ + decimal(size as nat)),
        ),
        size > 0x7fff_ffff ==> stride_error(size, name) == i32_error(size, name),
        size == 0 ==> stride_error(size, name) == Some(
            ErrorModel::InvalidArgument(name + " must be non-zero"@),
        ),
        value < 0 ==> negative_error(value, name) == Some(
            ErrorModel::InvalidArgument(name + " is negative: -"@ + decimal((-value) as nat)),
        ),
{
    reveal_strlit(" is negative: ");
    reveal_strlit(" is negative: -");
    if value < 0 {
        let n = decimal((-value) as nat);
        assert(name + " is negative: -"@ + n == name + " is negative: "@ + (seq!['-'] + n));
    }
}

} // verus!
