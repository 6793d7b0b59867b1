//! The metric resolver: decides whether a raw metric text is a signed
//! integer, a double, or a float, honouring explicit type flags.
//!
//! The library holds no floating point values of its own: the `Double`
//! and `Float` variants carry IEEE-754 bit patterns as plain integers.
//! Reading a text as a float happens at the caller's boundary, and the
//! outcomes are handed in as [`FloatReadings`].

use vstd::prelude::*;

use crate::errors::CliError;
use crate::numtext::{int_text_value, is_i64_text, parse_i64};

verus! {

/// The single numeric value attached to an event: exactly one of a
/// signed 64-bit integer, a 64-bit double, or a 32-bit float.  The
/// `Double` and `Float` variants hold the IEEE-754 bit pattern of the
/// value they stand for.
#[derive(Clone, Copy, Debug, PartialEq, Eq, Structural)]
pub enum Metric {
    Int(i64),
    Double(u64),
    Float(u32),
}

/// The explicit metric type flags of one invocation.
#[derive(Clone, Copy, Debug, PartialEq, Eq, Structural)]
pub struct TypeHints {
    pub int64: bool,
    pub float: bool,
    pub double: bool,
}

/// How many explicit type flags are set.
pub open spec fn hint_count(hints: TypeHints) -> int {
    (if hints.int64 {
        1int
    } else {
        0int
    }) + (if hints.float {
        1int
    } else {
        0int
    }) + (if hints.double {
        1int
    } else {
        0int
    })
}

/// The outcomes of reading one text as a 32-bit float and as a 64-bit
/// double, each the IEEE-754 bit pattern on success and nothing when
/// the text did not parse.  The caller computes these at its boundary,
/// since the library holds no floating point values.
#[derive(Clone, Copy, Debug, PartialEq, Eq, Structural)]
pub struct FloatReadings {
    pub bits32: Option<u32>,
    pub bits64: Option<u64>,
}

/// What the metric resolver returns for a raw text, the explicit type
/// flags, and the float readings of that text.  Conflicting flags are
/// rejected centrally before any parse; a single flag demands its one
/// type; with no flag the text is tried as a signed integer first and
/// as a double second.
pub open spec fn resolved_metric(
    value: Seq<char>,
    hints: TypeHints,
    readings: FloatReadings,
) -> Result<Metric, CliError> {
    if hint_count(hints) >= 2 {
        Err(CliError::ConflictingTypeHints)
    } else if hints.int64 {
        if is_i64_text(value) {
            Ok(Metric::Int(int_text_value(value) as i64))
        } else {
            Err(CliError::ParseError)
        }
    } else if hints.float {
        match readings.bits32 {
            Some(b) => Ok(Metric::Float(b)),
            None => Err(CliError::ParseError),
        }
    } else if hints.double {
        match readings.bits64 {
            Some(b) => Ok(Metric::Double(b)),
            None => Err(CliError::ParseError),
        }
    } else {
        if is_i64_text(value) {
            Ok(Metric::Int(int_text_value(value) as i64))
        } else {
            match readings.bits64 {
                Some(b) => Ok(Metric::Double(b)),
                None => Err(CliError::UnresolvedMetricType),
            }
        }
    }
}

/// Resolves the metric for a raw text.  `readings` must be the
/// boundary's outcomes of reading `value` as a 32-bit float and as a
/// 64-bit double; the resolver decides everything else itself.
pub fn parse_metric(value: &String, hints: &TypeHints, readings: &FloatReadings) -> (r: Result<
    Metric,
    CliError,
>)
    ensures
        r == resolved_metric(value@, *hints, *readings),
{
    let explicit: u32 = (if hints.int64 {
        1u32
    } else {
        0u32
    }) + (if hints.float {
        1u32
    } else {
        0u32
    }) + (if hints.double {
        1u32
    } else {
        0u32
    });
    if explicit >= 2 {
        return Err(CliError::ConflictingTypeHints);
    }
    if hints.int64 {
        match parse_i64(value.as_str()) {
            Some(i) => Ok(Metric::Int(i)),
            None => Err(CliError::ParseError),
        }
    } else if hints.float {
        match readings.bits32 {
            Some(b) => Ok(Metric::Float(b)),
            None => Err(CliError::ParseError),
        }
    } else if hints.double {
        match readings.bits64 {
            Some(b) => Ok(Metric::Double(b)),
            None => Err(CliError::ParseError),
        }
    } else {
        match parse_i64(value.as_str()) {
            Some(i) => Ok(Metric::Int(i)),
            None => match readings.bits64 {
                Some(b) => Ok(Metric::Double(b)),
                None => Err(CliError::UnresolvedMetricType),
            },
        }
    }
}

/// For every valid signed-integer text, an explicit `--int64` request
/// alone yields exactly the parsed integer, never a double or a float.
pub proof fn lemma_int64_hint_exact(value: Seq<char>, readings: FloatReadings)
    requires
        is_i64_text(value),
    ensures
        resolved_metric(
            value,
            TypeHints { int64: true, float: false, double: false },
            readings,
        ) == Ok::<Metric, CliError>(Metric::Int(int_text_value(value) as i64)),
{
}

/// Setting two or more of the metric type flags is always rejected as a
/// conflict, whichever flags they are and whatever the value reads as.
pub proof fn lemma_conflicting_hints(value: Seq<char>, hints: TypeHints, readings: FloatReadings)
    requires
        hint_count(hints) >= 2,
    ensures
        resolved_metric(value, hints, readings) == Err::<Metric, CliError>(
            CliError::ConflictingTypeHints,
        ),
{
}

/// With no type flag set, a signed-integer text always resolves to that
/// integer; a text readable only as a double resolves to that double;
/// a text readable as neither is rejected as unresolvable.
pub proof fn lemma_implicit_inference(value: Seq<char>, readings: FloatReadings)
    ensures
        is_i64_text(value) ==> resolved_metric(
            value,
            TypeHints { int64: false, float: false, double: false },
            readings,
        ) == Ok::<Metric, CliError>(Metric::Int(int_text_value(value) as i64)),
        !is_i64_text(value) && readings.bits64 is Some ==> resolved_metric(
            value,
            TypeHints { int64: false, float: false, double: false },
            readings,
        ) == Ok::<Metric, CliError>(Metric::Double(readings.bits64->0)),
        !is_i64_text(value) && readings.bits64 is None ==> resolved_metric(
            value,
            TypeHints { int64: false, float: false, double: false },
            readings,
        ) == Err::<Metric, CliError>(CliError::UnresolvedMetricType),
{
}

} // verus!
