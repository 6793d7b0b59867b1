//! The flat table of parsed option values that the pipeline consumes.
//!
//! The option schema itself (flag names, usage text, argument splitting)
//! is an external collaborator; it hands over one value of
//! [`OptionTable`] holding plain strings, flags, and positional
//! arguments.  Values that are floating point on the wire (the ttl, the
//! metric read as a float or double) cross the boundary as IEEE-754 bit
//! patterns, since the library holds no floating point values itself.

use vstd::prelude::*;

use crate::metric::{FloatReadings, TypeHints};

verus! {

/// The ttl option as it crosses the boundary: absent, present with the
/// IEEE-754 bit pattern of its 32-bit float reading, or present but not
/// readable as a float.
#[derive(Clone, Copy, Debug, PartialEq, Eq, Structural)]
pub enum TtlArg {
    Absent,
    Bits(u32),
    Unreadable,
}

/// One invocation's parsed options: every recognized flag value, the
/// metric type flags, and the positional arguments in order.
/// `metric_readings` holds the boundary's float and double readings of
/// the second positional argument, when there is one.
pub struct OptionTable {
    pub riemann_host: Option<String>,
    pub riemann_port: Option<String>,
    pub time: Option<String>,
    pub state: Option<String>,
    pub host: Option<String>,
    pub description: Option<String>,
    pub tags: Vec<String>,
    pub attributes: Vec<String>,
    pub ttl: TtlArg,
    pub hints: TypeHints,
    pub free: Vec<String>,
    pub metric_readings: FloatReadings,
}

/// The mathematical model of an option table: each string a sequence of
/// characters.
#[verifier::ext_equal]
pub ghost struct TableView {
    pub riemann_host: Option<Seq<char>>,
    pub riemann_port: Option<Seq<char>>,
    pub time: Option<Seq<char>>,
    pub state: Option<Seq<char>>,
    pub host: Option<Seq<char>>,
    pub description: Option<Seq<char>>,
    pub tags: Seq<Seq<char>>,
    pub attributes: Seq<Seq<char>>,
    pub ttl: TtlArg,
    pub hints: TypeHints,
    pub free: Seq<Seq<char>>,
    pub metric_readings: FloatReadings,
}

impl View for OptionTable {
    type V = TableView;

    open spec fn view(&self) -> TableView {
        TableView {
            riemann_host: self.riemann_host.deep_view(),
            riemann_port: self.riemann_port.deep_view(),
            time: self.time.deep_view(),
            state: self.state.deep_view(),
            host: self.host.deep_view(),
            description: self.description.deep_view(),
            tags: self.tags.deep_view(),
            attributes: self.attributes.deep_view(),
            ttl: self.ttl,
            hints: self.hints,
            free: self.free.deep_view(),
            metric_readings: self.metric_readings,
        }
    }
}

impl OptionTable {
    /// A table with nothing supplied: no option values, no flags, no
    /// positional arguments.
    pub fn empty() -> (t: OptionTable)
        ensures
            t@ == (TableView {
                riemann_host: None,
                riemann_port: None,
                time: None,
                state: None,
                host: None,
                description: None,
                tags: Seq::empty(),
                attributes: Seq::empty(),
                ttl: TtlArg::Absent,
                hints: TypeHints { int64: false, float: false, double: false },
                free: Seq::empty(),
                metric_readings: FloatReadings { bits32: None, bits64: None },
            }),
    {
        let t = OptionTable {
            riemann_host: None,
            riemann_port: None,
            time: None,
            state: None,
            host: None,
            description: None,
            tags: Vec::new(),
            attributes: Vec::new(),
            ttl: TtlArg::Absent,
            hints: TypeHints { int64: false, float: false, double: false },
            free: Vec::new(),
            metric_readings: FloatReadings { bits32: None, bits64: None },
        };
        proof {
            assert(t@ =~~= (TableView {
                riemann_host: None,
                riemann_port: None,
                time: None,
                state: None,
                host: None,
                description: None,
                tags: Seq::empty(),
                attributes: Seq::empty(),
                ttl: TtlArg::Absent,
                hints: TypeHints { int64: false, float: false, double: false },
                free: Seq::empty(),
                metric_readings: FloatReadings { bits32: None, bits64: None },
            }));
        }
        t
    }
}

} // verus!
