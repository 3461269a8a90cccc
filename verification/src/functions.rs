use vstd::prelude::*;
use crate::ast::{DateTimeFunctionKind, Identifier};
use crate::error::{Error, ErrorView};
use crate::text::{chars_eq_ignore_ascii_case, chars_of, eq_ignore_ascii_case, push_str, string_from_chars};

verus! {

/// Whether `name`, in any case, names an aggregate function.
pub open spec fn spec_is_aggregate_function_name(name: Seq<char>) -> bool {
    ||| eq_ignore_ascii_case(name, "COUNT"@)
    ||| eq_ignore_ascii_case(name, "AVG"@)
    ||| eq_ignore_ascii_case(name, "MAX"@)
    ||| eq_ignore_ascii_case(name, "MIN"@)
    ||| eq_ignore_ascii_case(name, "SUM"@)
    ||| eq_ignore_ascii_case(name, "COLLECT_LIST"@)
    ||| eq_ignore_ascii_case(name, "STDDEV_SAMP"@)
    ||| eq_ignore_ascii_case(name, "STDDEV_POP"@)
    ||| eq_ignore_ascii_case(name, "PERCENTILE_CONT"@)
    ||| eq_ignore_ascii_case(name, "PERCENTILE_DISC"@)
}

/// Whether `name`, in any case, names a general set function.
pub open spec fn spec_is_general_set_function_name(name: Seq<char>) -> bool {
    ||| eq_ignore_ascii_case(name, "AVG"@)
    ||| eq_ignore_ascii_case(name, "COUNT"@)
    ||| eq_ignore_ascii_case(name, "MAX"@)
    ||| eq_ignore_ascii_case(name, "MIN"@)
    ||| eq_ignore_ascii_case(name, "SUM"@)
    ||| eq_ignore_ascii_case(name, "COLLECT_LIST"@)
    ||| eq_ignore_ascii_case(name, "STDDEV_SAMP"@)
    ||| eq_ignore_ascii_case(name, "STDDEV_POP"@)
}

/// Whether `name`, in any case, names an aggregate function.
pub fn is_aggregate_function_name(name: &str) -> (r: bool)
    ensures
        r == spec_is_aggregate_function_name(name@),
{
    let t = chars_of(name);
    chars_eq_ignore_ascii_case(&t, "COUNT") || chars_eq_ignore_ascii_case(&t, "AVG")
        || chars_eq_ignore_ascii_case(&t, "MAX") || chars_eq_ignore_ascii_case(&t, "MIN")
        || chars_eq_ignore_ascii_case(&t, "SUM") || chars_eq_ignore_ascii_case(&t, "COLLECT_LIST")
        || chars_eq_ignore_ascii_case(&t, "STDDEV_SAMP") || chars_eq_ignore_ascii_case(&t, "STDDEV_POP")
        || chars_eq_ignore_ascii_case(&t, "PERCENTILE_CONT") || chars_eq_ignore_ascii_case(
        &t,
        "PERCENTILE_DISC",
    )
}

/// Whether `name`, in any case, names a general set function.
pub fn is_general_set_function_name(name: &str) -> (r: bool)
    ensures
        r == spec_is_general_set_function_name(name@),
{
    let t = chars_of(name);
    chars_eq_ignore_ascii_case(&t, "AVG") || chars_eq_ignore_ascii_case(&t, "COUNT")
        || chars_eq_ignore_ascii_case(&t, "MAX") || chars_eq_ignore_ascii_case(&t, "MIN")
        || chars_eq_ignore_ascii_case(&t, "SUM") || chars_eq_ignore_ascii_case(&t, "COLLECT_LIST")
        || chars_eq_ignore_ascii_case(&t, "STDDEV_SAMP") || chars_eq_ignore_ascii_case(&t, "STDDEV_POP")
}

/// Whether a function named `name` is refused as a value function: every name but an
/// aggregate's, and `OVERLAY`, `POSITION` and `SUBSTRING`, in any case.
pub open spec fn is_refused_value_function(name: Seq<char>) -> bool {
    !spec_is_aggregate_function_name(name) || eq_ignore_ascii_case(name, "OVERLAY"@)
        || eq_ignore_ascii_case(name, "POSITION"@) || eq_ignore_ascii_case(name, "SUBSTRING"@)
}

/// Refuses, at `offset`, a function name that is not a standard GQL value function.
pub fn reject_non_standard_value_function(name: &Identifier, offset: usize) -> (r: Result<(), Error>)
    ensures
        !is_refused_value_function(name@) ==> r is Ok,
        is_refused_value_function(name@) ==> (r matches Err(e) && e@ == (ErrorView::Message {
            offset: offset as int,
            message: "function "@ + name@ + " is not a standard GQL value function"@,
        })),
{
    let t = chars_of(name.value.as_str());
    if !is_aggregate_function_name(name.value.as_str()) || chars_eq_ignore_ascii_case(&t, "OVERLAY")
        || chars_eq_ignore_ascii_case(&t, "POSITION") || chars_eq_ignore_ascii_case(&t, "SUBSTRING") {
        let mut m = chars_of("function ");
        push_str(&mut m, name.value.as_str());
        push_str(&mut m, " is not a standard GQL value function");
        return Err(Error::Message { offset, message: string_from_chars(&m) });
    }
    Ok(())
}

/// The name of a datetime function kind.
pub open spec fn spec_datetime_function_name(kind: DateTimeFunctionKind) -> Seq<char> {
    match kind {
        DateTimeFunctionKind::Date => "DATE"@,
        DateTimeFunctionKind::ZonedTime => "ZONED_TIME"@,
        DateTimeFunctionKind::ZonedDateTime => "ZONED_DATETIME"@,
        DateTimeFunctionKind::LocalTime => "LOCAL_TIME"@,
        DateTimeFunctionKind::LocalDateTime => "LOCAL_DATETIME"@,
    }
}

impl DateTimeFunctionKind {
    /// The name of the function: `DATE`, `ZONED_TIME`, `ZONED_DATETIME`, `LOCAL_TIME` or
    /// `LOCAL_DATETIME`.
    pub fn name(self) -> (s: &'static str)
        ensures
            s@ == spec_datetime_function_name(self),
    {
        match self {
            DateTimeFunctionKind::Date => "DATE",
            DateTimeFunctionKind::ZonedTime => "ZONED_TIME",
            DateTimeFunctionKind::ZonedDateTime => "ZONED_DATETIME",
            DateTimeFunctionKind::LocalTime => "LOCAL_TIME",
            DateTimeFunctionKind::LocalDateTime => "LOCAL_DATETIME",
        }
    }
}

} // verus!
