//! Wire encoding: exact bytes, and a round trip through the external
//! protobuf reader.

use protobuf::CodedInputStream;
use riemann_cli::codec::encode_event;
use riemann_cli::event::{marshall, Attribute, Event};
use riemann_cli::metric::{FloatReadings, Metric, TypeHints};
use riemann_cli::options::{OptionTable, TtlArg};

fn empty_event() -> Event {
    Event {
        time: None,
        state: None,
        service: None,
        host: None,
        description: None,
        tags: Vec::new(),
        ttl: None,
        attributes: Vec::new(),
        metric: None,
    }
}

#[test]
fn empty_record_encodes_to_nothing() {
    assert_eq!(encode_event(&empty_event()), Vec::<u8>::new());
}

#[test]
fn service_field_bytes() {
    let mut e = empty_event();
    e.service = Some("ab".to_string());
    assert_eq!(encode_event(&e), vec![26, 2, 97, 98]);
}

#[test]
fn non_ascii_service_encodes_as_utf8() {
    let mut e = empty_event();
    e.service = Some("\u{e9}".to_string());
    assert_eq!(encode_event(&e), vec![26, 2, 195, 169]);
}

#[test]
fn long_field_gets_two_byte_length() {
    let mut e = empty_event();
    e.service = Some("a".repeat(200));
    let mut expected = vec![26, 200, 1];
    expected.extend(std::iter::repeat(97).take(200));
    assert_eq!(encode_event(&e), expected);
}

#[test]
fn tag_field_bytes() {
    let mut e = empty_event();
    e.tags = vec!["x".to_string()];
    assert_eq!(encode_event(&e), vec![58, 1, 120]);
}

#[test]
fn negative_time_is_ten_byte_varint() {
    let mut e = empty_event();
    e.time = Some(-1);
    assert_eq!(encode_event(&e), vec![8, 255, 255, 255, 255, 255, 255, 255, 255, 255, 1]);
}

#[test]
fn positive_time_is_plain_varint() {
    let mut e = empty_event();
    e.time = Some(300);
    assert_eq!(encode_event(&e), vec![8, 172, 2]);
}

#[test]
fn integer_metric_is_zigzag_coded() {
    let mut e = empty_event();
    e.metric = Some(Metric::Int(5));
    assert_eq!(encode_event(&e), vec![104, 10]);
    e.metric = Some(Metric::Int(-2));
    assert_eq!(encode_event(&e), vec![104, 3]);
    e.metric = Some(Metric::Int(0));
    assert_eq!(encode_event(&e), vec![104, 0]);
}

#[test]
fn double_metric_is_little_endian_bits() {
    let mut e = empty_event();
    e.metric = Some(Metric::Double(3.14f64.to_bits()));
    let mut expected = vec![113];
    expected.extend(3.14f64.to_le_bytes());
    assert_eq!(encode_event(&e), expected);
}

#[test]
fn float_metric_is_little_endian_bits() {
    let mut e = empty_event();
    e.metric = Some(Metric::Float(2.5f32.to_bits()));
    let mut expected = vec![125];
    expected.extend(2.5f32.to_le_bytes());
    assert_eq!(encode_event(&e), expected);
}

#[test]
fn ttl_is_fixed32_field() {
    let mut e = empty_event();
    e.ttl = Some(2.5f32.to_bits());
    let mut expected = vec![69];
    expected.extend(2.5f32.to_le_bytes());
    assert_eq!(encode_event(&e), expected);
}

#[test]
fn empty_tag_encodes_with_zero_length() {
    let mut e = empty_event();
    e.tags = vec!["".to_string()];
    assert_eq!(encode_event(&e), vec![58, 0]);
}

#[test]
fn attribute_is_nested_message() {
    let mut e = empty_event();
    e.attributes = vec![Attribute { key: "a".to_string(), value: "b".to_string() }];
    assert_eq!(encode_event(&e), vec![74, 6, 10, 1, 97, 18, 1, 98]);
}

#[test]
fn fields_come_in_field_number_order() {
    let mut e = empty_event();
    e.time = Some(1);
    e.state = Some("ok".to_string());
    e.metric = Some(Metric::Int(1));
    assert_eq!(encode_event(&e), vec![8, 1, 18, 2, 111, 107, 104, 2]);
}

#[test]
fn round_trip_preserves_fields() {
    let mut t = OptionTable::empty();
    t.time = Some("1234567890".to_string());
    t.state = Some("ok".to_string());
    t.host = Some("web01".to_string());
    t.description = Some("load is high".to_string());
    t.tags = vec!["web".to_string(), "prod".to_string()];
    t.ttl = TtlArg::Bits(2.5f32.to_bits());
    t.attributes = vec!["color=red".to_string()];
    t.hints = TypeHints { int64: false, float: false, double: true };
    t.free = vec!["myservice".to_string(), "3.14".to_string()];
    t.metric_readings = FloatReadings {
        bits32: "3.14".parse::<f32>().ok().map(f32::to_bits),
        bits64: "3.14".parse::<f64>().ok().map(f64::to_bits),
    };
    let event = marshall(&t).unwrap();
    let bytes = encode_event(&event);

    let mut decoded = empty_event();
    let mut input = CodedInputStream::from_bytes(&bytes);
    while let Some(tag) = input.read_raw_tag_or_eof().unwrap() {
        match tag {
            8 => decoded.time = Some(input.read_int64().unwrap()),
            18 => decoded.state = Some(input.read_string().unwrap()),
            26 => decoded.service = Some(input.read_string().unwrap()),
            34 => decoded.host = Some(input.read_string().unwrap()),
            42 => decoded.description = Some(input.read_string().unwrap()),
            58 => decoded.tags.push(input.read_string().unwrap()),
            69 => decoded.ttl = Some(input.read_float().unwrap().to_bits()),
            74 => {
                let payload = input.read_bytes().unwrap();
                let mut nested = CodedInputStream::from_bytes(&payload);
                let mut key = String::new();
                let mut value = String::new();
                while let Some(ntag) = nested.read_raw_tag_or_eof().unwrap() {
                    match ntag {
                        10 => key = nested.read_string().unwrap(),
                        18 => value = nested.read_string().unwrap(),
                        other => panic!("unexpected attribute tag {other}"),
                    }
                }
                decoded.attributes.push(Attribute { key, value });
            }
            104 => decoded.metric = Some(Metric::Int(input.read_sint64().unwrap())),
            113 => decoded.metric = Some(Metric::Double(input.read_double().unwrap().to_bits())),
            125 => decoded.metric = Some(Metric::Float(input.read_float().unwrap().to_bits())),
            other => panic!("unexpected tag {other}"),
        }
    }

    assert_eq!(decoded, event);
    assert_eq!(decoded.metric, Some(Metric::Double(3.14f64.to_bits())));
    assert_eq!(decoded.ttl, Some(2.5f32.to_bits()));
}
