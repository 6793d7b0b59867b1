//! The canonical event record and the builder that assembles it from an
//! option table.
//!
//! The builder copies plain fields verbatim, validates the numeric ones,
//! applies the fixed default origin host, keeps tag order, splits
//! `key=value` attributes, and resolves the metric from the positional
//! arguments.  Every step short-circuits on its first failure.

use vstd::prelude::*;

use crate::errors::{CliError, Field};
use crate::metric::{parse_metric, resolved_metric, Metric};
use crate::numtext::{int_text_value, is_i64_text, parse_i64};
use crate::options::{OptionTable, TableView, TtlArg};

verus! {

/// One `key=value` attribute of an event.
#[derive(Clone, Debug, PartialEq, Eq)]
pub struct Attribute {
    pub key: String,
    pub value: String,
}

/// The mathematical model of an attribute.
#[verifier::ext_equal]
pub ghost struct AttributeView {
    pub key: Seq<char>,
    pub value: Seq<char>,
}

impl View for Attribute {
    type V = AttributeView;

    open spec fn view(&self) -> AttributeView {
        AttributeView { key: self.key@, value: self.value@ }
    }
}

impl DeepView for Attribute {
    type V = AttributeView;

    open spec fn deep_view(&self) -> AttributeView {
        self.view()
    }
}

/// The canonical monitoring record submitted to the collector.  The
/// `ttl` field holds the IEEE-754 bit pattern of a 32-bit float; the
/// metric holds at most one numeric representation by construction.
#[derive(Clone, Debug, PartialEq, Eq)]
pub struct Event {
    pub time: Option<i64>,
    pub state: Option<String>,
    pub service: Option<String>,
    pub host: Option<String>,
    pub description: Option<String>,
    pub tags: Vec<String>,
    pub ttl: Option<u32>,
    pub attributes: Vec<Attribute>,
    pub metric: Option<Metric>,
}

/// The mathematical model of an event record.
#[verifier::ext_equal]
pub ghost struct EventView {
    pub time: Option<i64>,
    pub state: Option<Seq<char>>,
    pub service: Option<Seq<char>>,
    pub host: Option<Seq<char>>,
    pub description: Option<Seq<char>>,
    pub tags: Seq<Seq<char>>,
    pub ttl: Option<u32>,
    pub attributes: Seq<AttributeView>,
    pub metric: Option<Metric>,
}

impl View for Event {
    type V = EventView;

    open spec fn view(&self) -> EventView {
        EventView {
            time: self.time,
            state: self.state.deep_view(),
            service: self.service.deep_view(),
            host: self.host.deep_view(),
            description: self.description.deep_view(),
            tags: self.tags.deep_view(),
            ttl: self.ttl,
            attributes: self.attributes.deep_view(),
            metric: self.metric,
        }
    }
}

/// The model of a record with nothing set.
pub open spec fn empty_event() -> EventView {
    EventView {
        time: None,
        state: None,
        service: None,
        host: None,
        description: None,
        tags: Seq::empty(),
        ttl: None,
        attributes: Seq::empty(),
        metric: None,
    }
}

impl Event {
    /// A record with nothing set.
    pub fn new() -> (e: Event)
        ensures
            e@ == empty_event(),
    {
        let e = Event {
            time: None,
            state: None,
            service: None,
            host: None,
            description: None,
            tags: Vec::new(),
            ttl: None,
            attributes: Vec::new(),
            metric: None,
        };
        proof {
            assert(e@ =~~= empty_event());
        }
        e
    }
}

/// The fixed placeholder used as the origin host when none is supplied.
pub open spec fn default_host_text() -> Seq<char> {
    "dummy hostname..."@
}

/// The fixed placeholder used as the origin host when none is supplied.
pub fn default_host() -> (r: String)
    ensures
        r@ == default_host_text(),
{
    let r = "dummy hostname...".to_owned();
    r
}

/// True when some character of `s` is `=`.
pub open spec fn has_eq(s: Seq<char>) -> bool {
    exists|i: int| 0 <= i < s.len() && s[i] == '='
}

/// The index of the first `=` in `s`, or the length of `s` when there
/// is none.
pub open spec fn first_eq(s: Seq<char>) -> int
    decreases s.len(),
{
    if s.len() == 0 {
        0
    } else if s[0] == '=' {
        0
    } else {
        1 + first_eq(s.skip(1))
    }
}

/// The key part of a `key=value` text: everything before the first `=`.
pub open spec fn attr_key(s: Seq<char>) -> Seq<char>
    recommends
        has_eq(s),
{
    s.take(first_eq(s))
}

/// The value part of a `key=value` text: everything after the first `=`.
pub open spec fn attr_value(s: Seq<char>) -> Seq<char>
    recommends
        has_eq(s),
{
    s.skip(first_eq(s) + 1)
}

/// An `=` at `i` with none before it is the first `=`.
proof fn lemma_first_eq_at(s: Seq<char>, i: int)
    requires
        0 <= i < s.len(),
        s[i] == '=',
        forall|k: int| 0 <= k < i ==> s[k] != '=',
    ensures
        first_eq(s) == i,
        has_eq(s),
    decreases i,
{
    if i > 0 {
        lemma_first_eq_at(s.skip(1), i - 1);
    }
}

/// Splits one `key=value` occurrence at its first `=`.  Returns the two
/// parts exactly when an `=` is present, and nothing otherwise.
pub fn split_attribute(s: &String) -> (r: Option<Attribute>)
    ensures
        has_eq(s@) ==> (r matches Some(a) && a@ == (AttributeView {
            key: attr_key(s@),
            value: attr_value(s@),
        })),
        !has_eq(s@) ==> r is None,
{
    let n: usize = s.as_str().unicode_len();
    let mut i: usize = 0;
    while i < n
        invariant
            0 <= i <= n == s@.len(),
            forall|k: int| 0 <= k < i ==> s@[k] != '=',
        decreases n - i,
    {
        let c: char = s.as_str().get_char(i);
        if c == '=' {
            proof {
                lemma_first_eq_at(s@, i as int);
            }
            let key: String = s.as_str().substring_char(0, i).to_owned();
            let value: String = s.as_str().substring_char(i + 1, n).to_owned();
            proof {
                assert(key@ =~= attr_key(s@));
                assert(value@ =~= attr_value(s@));
            }
            return Some(Attribute { key, value });
        }
        i = i + 1;
    }
    None
}

/// True when every attribute occurrence has a `key=value` shape.
pub open spec fn attrs_ok(attrs: Seq<Seq<char>>) -> bool {
    forall|i: int| 0 <= i < attrs.len() ==> has_eq(#[trigger] attrs[i])
}

/// The attribute models obtained by splitting each occurrence.
pub open spec fn split_attrs(attrs: Seq<Seq<char>>) -> Seq<AttributeView> {
    Seq::new(attrs.len(), |i: int| AttributeView { key: attr_key(attrs[i]), value: attr_value(attrs[i]) })
}

/// True when the time option, if present, is a signed 64-bit integer
/// text.
pub open spec fn time_ok(t: TableView) -> bool {
    match t.time {
        None => true,
        Some(s) => is_i64_text(s),
    }
}

/// True when the ttl option, if present, was readable as a 32-bit
/// float.
pub open spec fn ttl_ok(t: TableView) -> bool {
    !(t.ttl is Unreadable)
}

/// True when a metric value was supplied: exactly two positional
/// arguments.
pub open spec fn metric_requested(t: TableView) -> bool {
    t.free.len() == 2
}

/// What the metric resolver decides for the second positional argument.
pub open spec fn table_metric(t: TableView) -> Result<Metric, CliError>
    recommends
        metric_requested(t),
{
    resolved_metric(t.free[1], t.hints, t.metric_readings)
}

/// True when building an event from this table succeeds.
pub open spec fn build_ok(t: TableView) -> bool {
    &&& time_ok(t)
    &&& ttl_ok(t)
    &&& attrs_ok(t.attributes)
    &&& (metric_requested(t) ==> table_metric(t) is Ok)
}

/// The first error the builder meets when building fails, in processing
/// order: time, ttl, attributes, metric.
pub open spec fn build_err(t: TableView) -> CliError
    recommends
        !build_ok(t),
{
    if !time_ok(t) {
        CliError::InvalidField(Field::Time)
    } else if !ttl_ok(t) {
        CliError::InvalidField(Field::Ttl)
    } else if !attrs_ok(t.attributes) {
        CliError::InvalidField(Field::Attribute)
    } else {
        table_metric(t)->Err_0
    }
}

/// The record built from table `t` on top of base record `base`:
/// supplied fields replace the base's, the origin host falls back to
/// the fixed placeholder, tags and attributes are appended in order,
/// the first positional argument becomes the service and the second,
/// when present, the metric.
pub open spec fn built_event(t: TableView, base: EventView) -> EventView
    recommends
        build_ok(t),
{
    EventView {
        time: match t.time {
            None => base.time,
            Some(s) => Some(int_text_value(s) as i64),
        },
        state: match t.state {
            None => base.state,
            Some(s) => Some(s),
        },
        service: if t.free.len() >= 1 {
            Some(t.free[0])
        } else {
            base.service
        },
        host: match t.host {
            None => Some(default_host_text()),
            Some(h) => Some(h),
        },
        description: match t.description {
            None => base.description,
            Some(d) => Some(d),
        },
        tags: base.tags + t.tags,
        ttl: match t.ttl {
            TtlArg::Absent => base.ttl,
            TtlArg::Bits(b) => Some(b),
            TtlArg::Unreadable => base.ttl,
        },
        attributes: base.attributes + split_attrs(t.attributes),
        metric: if t.free.len() == 2 {
            Some(table_metric(t)->Ok_0)
        } else {
            base.metric
        },
    }
}

/// Builds the canonical record from `table` on top of `event`,
/// validating the time, ttl, attribute, and metric fields, and
/// returning the first failure.
pub fn marshall_onto(table: &OptionTable, event: Event) -> (r: Result<Event, CliError>)
    ensures
        build_ok(table@) ==> (r matches Ok(e) && e@ == built_event(table@, event@)),
        !build_ok(table@) ==> r == Err::<Event, CliError>(build_err(table@)),
{
    let ghost base: EventView = event@;
    let mut event = event;

    match &table.time {
        Some(t) => {
            match parse_i64(t.as_str()) {
                Some(i) => {
                    event.time = Some(i);
                },
                None => {
                    return Err(CliError::InvalidField(Field::Time));
                },
            }
        },
        None => {},
    }

    match &table.state {
        Some(s) => {
            event.state = Some(s.clone());
        },
        None => {},
    }

    match &table.host {
        Some(h) => {
            event.host = Some(h.clone());
        },
        None => {
            event.host = Some(default_host());
        },
    }

    match &table.description {
        Some(d) => {
            event.description = Some(d.clone());
        },
        None => {},
    }

    let ghost mid: Event = event;
    let mut k: usize = 0;
    while k < table.tags.len()
        invariant
            0 <= k <= table.tags@.len(),
            event.time == mid.time,
            event.state == mid.state,
            event.service == mid.service,
            event.host == mid.host,
            event.description == mid.description,
            event.ttl == mid.ttl,
            event.attributes == mid.attributes,
            event.metric == mid.metric,
            event.tags.deep_view() =~= mid.tags.deep_view() + table@.tags.take(k as int),
        decreases table.tags@.len() - k,
    {
        let s: String = table.tags[k].clone();
        event.tags.push(s);
        proof {
            assert(s@ == table@.tags[k as int]);
            assert(table@.tags.take(k as int + 1) =~= table@.tags.take(k as int).push(s@));
            assert(event.tags.deep_view() =~= (mid.tags.deep_view() + table@.tags.take(
                k as int,
            )).push(s@));
            assert(event.tags.deep_view() =~= mid.tags.deep_view() + table@.tags.take(
                k as int + 1,
            ));
        }
        k = k + 1;
    }
    proof {
        assert(table@.tags.take(table.tags@.len() as int) =~= table@.tags);
    }

    match table.ttl {
        TtlArg::Absent => {},
        TtlArg::Bits(b) => {
            event.ttl = Some(b);
        },
        TtlArg::Unreadable => {
            return Err(CliError::InvalidField(Field::Ttl));
        },
    }

    let ghost mid2: Event = event;
    let mut k2: usize = 0;
    while k2 < table.attributes.len()
        invariant
            0 <= k2 <= table.attributes@.len(),
            event.time == mid2.time,
            event.state == mid2.state,
            event.service == mid2.service,
            event.host == mid2.host,
            event.description == mid2.description,
            event.ttl == mid2.ttl,
            event.tags == mid2.tags,
            event.metric == mid2.metric,
            time_ok(table@),
            ttl_ok(table@),
            forall|i: int| 0 <= i < k2 ==> has_eq(#[trigger] table@.attributes[i]),
            event.attributes.deep_view() =~= mid2.attributes.deep_view() + split_attrs(
                table@.attributes.take(k2 as int),
            ),
        decreases table.attributes@.len() - k2,
    {
        match split_attribute(&table.attributes[k2]) {
            Some(a) => {
                let ghost av: AttributeView = a@;
                event.attributes.push(a);
                proof {
                    assert(table@.attributes[k2 as int] == table.attributes@[k2 as int]@);
                    assert(has_eq(table@.attributes[k2 as int]));
                    assert(split_attrs(table@.attributes.take(k2 as int + 1)) =~= split_attrs(
                        table@.attributes.take(k2 as int),
                    ).push(av));
                    assert(event.attributes.deep_view() =~= (mid2.attributes.deep_view()
                        + split_attrs(table@.attributes.take(k2 as int))).push(av));
                    assert(event.attributes.deep_view() =~= mid2.attributes.deep_view()
                        + split_attrs(table@.attributes.take(k2 as int + 1)));
                }
            },
            None => {
                proof {
                    assert(table@.attributes[k2 as int] == table.attributes@[k2 as int]@);
                    assert(!attrs_ok(table@.attributes));
                }
                return Err(CliError::InvalidField(Field::Attribute));
            },
        }
        k2 = k2 + 1;
    }
    proof {
        assert(table@.attributes.take(table.attributes@.len() as int) =~= table@.attributes);
        assert(attrs_ok(table@.attributes));
    }

    if table.free.len() > 0 {
        event.service = Some(table.free[0].clone());
        if table.free.len() == 2 {
            match parse_metric(&table.free[1], &table.hints, &table.metric_readings) {
                Ok(m) => {
                    event.metric = Some(m);
                },
                Err(e) => {
                    return Err(e);
                },
            }
        }
    }

    proof {
        assert(event@ =~~= built_event(table@, base));
    }
    Ok(event)
}

/// Builds the canonical record from `table` alone, starting from a
/// record with nothing set.
pub fn marshall(table: &OptionTable) -> (r: Result<Event, CliError>)
    ensures
        build_ok(table@) ==> (r matches Ok(e) && e@ == built_event(table@, empty_event())),
        !build_ok(table@) ==> r == Err::<Event, CliError>(build_err(table@)),
{
    marshall_onto(table, Event::new())
}

/// With zero positional arguments the built record has neither service
/// nor metric; with exactly one it has only the service; with exactly
/// two it has both, the metric being what the resolver decided.
pub proof fn lemma_positionals(t: TableView)
    requires
        build_ok(t),
    ensures
        t.free.len() == 0 ==> built_event(t, empty_event()).service is None && built_event(
            t,
            empty_event(),
        ).metric is None,
        t.free.len() == 1 ==> built_event(t, empty_event()).service == Some(t.free[0])
            && built_event(t, empty_event()).metric is None,
        t.free.len() == 2 ==> built_event(t, empty_event()).service == Some(t.free[0])
            && built_event(t, empty_event()).metric == Some(table_metric(t)->Ok_0),
{
}

/// The built record's origin host is the supplied one, or the fixed
/// placeholder when none was supplied; it is never left unset.
pub proof fn lemma_host_default(t: TableView, base: EventView)
    requires
        build_ok(t),
    ensures
        t.host is None ==> built_event(t, base).host == Some(default_host_text()),
        t.host matches Some(h) ==> built_event(t, base).host == Some(h),
        built_event(t, base).host is Some,
{
}

/// Tag order is preserved: the built record carries the base record's
/// tags followed by the supplied tags, in occurrence order.
pub proof fn lemma_tag_order(t: TableView, base: EventView)
    requires
        build_ok(t),
    ensures
        built_event(t, base).tags == base.tags + t.tags,
        built_event(t, base).tags.len() == base.tags.len() + t.tags.len(),
        forall|i: int|
            0 <= i < t.tags.len() ==> built_event(t, base).tags[base.tags.len() + i] == t.tags[i],
{
}

} // verus!
