//! Event building from an option table.

use riemann_cli::errors::{CliError, Field};
use riemann_cli::event::{marshall, marshall_onto, Event};
use riemann_cli::metric::{FloatReadings, Metric, TypeHints};
use riemann_cli::options::{OptionTable, TtlArg};

fn readings_of(s: &str) -> FloatReadings {
    FloatReadings {
        bits32: s.parse::<f32>().ok().map(f32::to_bits),
        bits64: s.parse::<f64>().ok().map(f64::to_bits),
    }
}

const DEFAULT_HOST: &str = "dummy hostname...";

#[test]
fn empty_table_builds_empty_record_but_host() {
    let e = marshall(&OptionTable::empty()).unwrap();
    assert_eq!(e.service, None);
    assert_eq!(e.metric, None);
    assert_eq!(e.time, None);
    assert_eq!(e.state, None);
    assert_eq!(e.description, None);
    assert_eq!(e.ttl, None);
    assert!(e.tags.is_empty());
    assert!(e.attributes.is_empty());
    assert_eq!(e.host, Some(DEFAULT_HOST.to_string()));
}

#[test]
fn one_positional_sets_only_service() {
    let mut t = OptionTable::empty();
    t.free = vec!["myservice".to_string()];
    let e = marshall(&t).unwrap();
    assert_eq!(e.service, Some("myservice".to_string()));
    assert_eq!(e.metric, None);
}

#[test]
fn two_positionals_set_service_and_metric() {
    let mut t = OptionTable::empty();
    t.free = vec!["myservice".to_string(), "42".to_string()];
    t.metric_readings = readings_of("42");
    let e = marshall(&t).unwrap();
    assert_eq!(e.service, Some("myservice".to_string()));
    assert_eq!(e.metric, Some(Metric::Int(42)));
}

#[test]
fn supplied_host_wins_over_default() {
    let mut t = OptionTable::empty();
    t.host = Some("foo".to_string());
    let e = marshall(&t).unwrap();
    assert_eq!(e.host, Some("foo".to_string()));
}

#[test]
fn tag_order_is_preserved() {
    let mut t = OptionTable::empty();
    t.tags = vec!["a".to_string(), "b".to_string(), "c".to_string()];
    let e = marshall(&t).unwrap();
    assert_eq!(e.tags, vec!["a".to_string(), "b".to_string(), "c".to_string()]);
}

#[test]
fn building_onto_appends_tags() {
    let mut base = Event::new();
    base.tags = vec!["x".to_string()];
    let mut t = OptionTable::empty();
    t.tags = vec!["y".to_string()];
    let e = marshall_onto(&t, base).unwrap();
    assert_eq!(e.tags, vec!["x".to_string(), "y".to_string()]);
}

#[test]
fn building_onto_keeps_base_fields_not_supplied() {
    let mut base = Event::new();
    base.time = Some(7);
    base.state = Some("old".to_string());
    let t = OptionTable::empty();
    let e = marshall_onto(&t, base).unwrap();
    assert_eq!(e.time, Some(7));
    assert_eq!(e.state, Some("old".to_string()));
    assert_eq!(e.host, Some(DEFAULT_HOST.to_string()));
}

#[test]
fn more_than_two_positionals_set_only_service() {
    let mut t = OptionTable::empty();
    t.free = vec!["a".to_string(), "42".to_string(), "extra".to_string()];
    let e = marshall(&t).unwrap();
    assert_eq!(e.service, Some("a".to_string()));
    assert_eq!(e.metric, None);
}

#[test]
fn time_is_parsed_or_rejected() {
    let mut t = OptionTable::empty();
    t.time = Some("1234567890".to_string());
    let e = marshall(&t).unwrap();
    assert_eq!(e.time, Some(1234567890));

    let mut t = OptionTable::empty();
    t.time = Some("notanumber".to_string());
    assert_eq!(marshall(&t), Err(CliError::InvalidField(Field::Time)));
}

#[test]
fn ttl_carries_float_bits_or_rejects() {
    let mut t = OptionTable::empty();
    t.ttl = TtlArg::Bits(2.5f32.to_bits());
    let e = marshall(&t).unwrap();
    assert_eq!(e.ttl, Some(2.5f32.to_bits()));

    let mut t = OptionTable::empty();
    t.ttl = TtlArg::Unreadable;
    assert_eq!(marshall(&t), Err(CliError::InvalidField(Field::Ttl)));
}

#[test]
fn attributes_split_at_first_equals() {
    let mut t = OptionTable::empty();
    t.attributes = vec!["color=red".to_string(), "k=a=b".to_string(), "empty=".to_string()];
    let e = marshall(&t).unwrap();
    assert_eq!(e.attributes.len(), 3);
    assert_eq!(e.attributes[0].key, "color");
    assert_eq!(e.attributes[0].value, "red");
    assert_eq!(e.attributes[1].key, "k");
    assert_eq!(e.attributes[1].value, "a=b");
    assert_eq!(e.attributes[2].key, "empty");
    assert_eq!(e.attributes[2].value, "");
}

#[test]
fn attribute_with_leading_equals_gets_empty_key() {
    let mut t = OptionTable::empty();
    t.attributes = vec!["=x".to_string()];
    let e = marshall(&t).unwrap();
    assert_eq!(e.attributes[0].key, "");
    assert_eq!(e.attributes[0].value, "x");
}

#[test]
fn attribute_without_equals_is_rejected() {
    let mut t = OptionTable::empty();
    t.attributes = vec!["colorred".to_string()];
    assert_eq!(marshall(&t), Err(CliError::InvalidField(Field::Attribute)));
}

#[test]
fn state_and_description_copied_verbatim() {
    let mut t = OptionTable::empty();
    t.state = Some("ok".to_string());
    t.description = Some("all is well".to_string());
    let e = marshall(&t).unwrap();
    assert_eq!(e.state, Some("ok".to_string()));
    assert_eq!(e.description, Some("all is well".to_string()));
}

#[test]
fn scenario_int_metric_with_state_and_tags() {
    let mut t = OptionTable::empty();
    t.state = Some("ok".to_string());
    t.tags = vec!["web".to_string(), "prod".to_string()];
    t.free = vec!["myservice".to_string(), "42".to_string()];
    t.metric_readings = readings_of("42");
    let e = marshall(&t).unwrap();
    assert_eq!(e.service, Some("myservice".to_string()));
    assert_eq!(e.metric, Some(Metric::Int(42)));
    assert_eq!(e.state, Some("ok".to_string()));
    assert_eq!(e.tags, vec!["web".to_string(), "prod".to_string()]);
    assert_eq!(e.host, Some(DEFAULT_HOST.to_string()));
}

#[test]
fn scenario_double_metric() {
    let mut t = OptionTable::empty();
    t.hints = TypeHints { int64: false, float: false, double: true };
    t.free = vec!["myservice".to_string(), "3.14".to_string()];
    t.metric_readings = readings_of("3.14");
    let e = marshall(&t).unwrap();
    assert_eq!(e.service, Some("myservice".to_string()));
    assert_eq!(e.metric, Some(Metric::Double(3.14f64.to_bits())));
}

#[test]
fn scenario_int64_hint_on_real_number_fails() {
    let mut t = OptionTable::empty();
    t.hints = TypeHints { int64: true, float: false, double: false };
    t.free = vec!["myservice".to_string(), "3.14".to_string()];
    t.metric_readings = readings_of("3.14");
    assert_eq!(marshall(&t), Err(CliError::ParseError));
}
