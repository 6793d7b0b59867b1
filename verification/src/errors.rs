//! The error taxonomy shared by every stage of the pipeline.

use vstd::prelude::*;

verus! {

/// A field whose supplied value failed validation.
#[derive(Clone, Copy, Debug, PartialEq, Eq, Structural)]
pub enum Field {
    /// The event timestamp option.
    Time,
    /// The event time-to-live option.
    Ttl,
    /// The collector port option.
    RiemannPort,
    /// A `key=value` attribute occurrence.
    Attribute,
}

/// Every failure the pipeline can report.  Each stage returns the first
/// error it meets; nothing is retried.
#[derive(Clone, Copy, Debug, PartialEq, Eq, Structural)]
pub enum CliError {
    /// A metric value was not convertible to the requested numeric type.
    ParseError,
    /// More than one of the metric type flags was set.
    ConflictingTypeHints,
    /// No type flag was set and the metric value parsed neither as a
    /// signed integer nor as a double.
    UnresolvedMetricType,
    /// A named option value failed validation.
    InvalidField(Field),
    /// The collector endpoint could not be reached.
    ConnectionError,
    /// The serialized record could not be written in full.
    TransmitError,
}

impl CliError {
    /// A user-visible description of the error.
    pub fn message(&self) -> (r: &'static str)
        ensures
            r@.len() > 0,
    {
        let m: &'static str = match self {
            CliError::ParseError => "could not parse the metric value as the requested type",
            CliError::ConflictingTypeHints => "you can only set one of --int64, --double, --float",
            CliError::UnresolvedMetricType => "could not determine the metric type",
            CliError::InvalidField(Field::Time) => "the value for --time must be an integer",
            CliError::InvalidField(Field::Ttl) => "the value for --ttl must be a number",
            CliError::InvalidField(Field::RiemannPort) => "--riemann-port must be a positive integer",
            CliError::InvalidField(Field::Attribute) => "an attribute must have the form key=value",
            CliError::ConnectionError => "could not connect to the collector",
            CliError::TransmitError => "could not write the event to the collector",
        };
        proof {
            reveal_strlit("could not parse the metric value as the requested type");
            reveal_strlit("you can only set one of --int64, --double, --float");
            reveal_strlit("could not determine the metric type");
            reveal_strlit("the value for --time must be an integer");
            reveal_strlit("the value for --ttl must be a number");
            reveal_strlit("--riemann-port must be a positive integer");
            reveal_strlit("an attribute must have the form key=value");
            reveal_strlit("could not connect to the collector");
            reveal_strlit("could not write the event to the collector");
        }
        m
    }
}

} // verus!
