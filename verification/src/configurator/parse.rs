//! Reading whole numbers typed into the editor's form fields.
use vstd::prelude::*;

use crate::configurator::error::FormError;
use crate::text::{
    int_error_message, parse_unsigned, parse_unsigned_spec, str_chars, str_to_string, trim_chars,
    trim_seq,
};

verus! {

/// The form's errors after reading `value` into a field of largest value
/// `max`: one more error naming the field, with the parse error's message,
/// when the trimmed text is not such a number.
pub open spec fn field_parse_ok(errors_before: Seq<FormError>, errors_after: Seq<FormError>, field: Seq<char>, value: Seq<char>, max: nat, r: Option<nat>) -> bool {
    match parse_unsigned_spec(trim_seq(value), max) {
        Ok(v) => r == Some(v) && errors_after == errors_before,
        Err(k) => {
            &&& r is None
            &&& errors_after.len() == errors_before.len() + 1
            &&& errors_after.take(errors_before.len() as int) == errors_before
            &&& errors_after.last().field@ == field
            &&& errors_after.last().message@ == int_error_message(k)
        },
    }
}

fn parse_bounded_field(value: &str, field: &str, max: u64, errors: &mut Vec<FormError>) -> (r: Option<u64>)
    ensures
        match r {
            Some(v) => v <= max,
            None => true,
        },
        field_parse_ok(
            old(errors)@,
            final(errors)@,
            field@,
            value@,
            max as nat,
            match r {
                Some(v) => Some(v as nat),
                None => None,
            },
        ),
{
    let chars = str_chars(value);
    let trimmed = trim_chars(&chars);
    match parse_unsigned(&trimmed, max) {
        Ok(v) => Some(v),
        Err(kind) => {
            let message = str_to_string(kind.message());
            let name = str_to_string(field);
            let ghost before = errors@;
            errors.push(FormError::new(name, message));
            proof {
                assert(errors@.take(before.len() as int) =~= before);
            }
            None
        },
    }
}

/// Reads a `usize` from the trimmed text of a form field, recording an error
/// for the field when it is not one.
pub fn parse_usize_field(value: &str, field: &str, errors: &mut Vec<FormError>) -> (r: Option<usize>)
    ensures
        field_parse_ok(
            old(errors)@,
            final(errors)@,
            field@,
            value@,
            usize::MAX as nat,
            match r {
                Some(v) => Some(v as nat),
                None => None,
            },
        ),
{
    match parse_bounded_field(value, field, usize::MAX as u64, errors) {
        Some(v) => Some(v as usize),
        None => None,
    }
}

/// Reads a `u64` from the trimmed text of a form field, recording an error
/// for the field when it is not one.
pub fn parse_u64_field(value: &str, field: &str, errors: &mut Vec<FormError>) -> (r: Option<u64>)
    ensures
        field_parse_ok(
            old(errors)@,
            final(errors)@,
            field@,
            value@,
            u64::MAX as nat,
            match r {
                Some(v) => Some(v as nat),
                None => None,
            },
        ),
{
    parse_bounded_field(value, field, u64::MAX, errors)
}

} // verus!
