//! The wire encoding of an event record.
//!
//! An event is written as a sequence of tagged fields: each field a
//! one-byte key holding the field number and wire type, followed by a
//! varint, a little-endian fixed-width value, or a length-prefixed
//! payload.  Strings travel as their UTF-8 bytes; the timestamp as the
//! varint of its two's-complement value; the integer metric zigzag
//! coded; the double and float metrics and the ttl as their IEEE-754
//! bit patterns, little endian.  Absent fields are not written.

use vstd::prelude::*;
use vstd::utf8::encode_utf8;

use crate::event::{AttributeView, Event, EventView};
use crate::metric::Metric;

verus! {

/// The base-128 varint coding of `n`: seven value bits per byte, least
/// significant group first, the high bit marking a continuation.
pub open spec fn varint(n: nat) -> Seq<u8>
    decreases n,
{
    if n < 128 {
        seq![n as u8]
    } else {
        seq![(128 + (n % 128)) as u8] + varint(n / 128)
    }
}

/// The one-varint key of a field: its number and its wire type.
pub open spec fn key_bytes(field: nat, wire: nat) -> Seq<u8> {
    varint(field * 8 + wire)
}

/// The two's-complement value of a signed 64-bit integer, as the
/// unsigned value its varint coding carries.
pub open spec fn u64_of_i64(n: i64) -> nat {
    if n >= 0 {
        n as nat
    } else {
        (n + 0x1_0000_0000_0000_0000) as nat
    }
}

/// The zigzag coding of a signed 64-bit integer: small magnitudes of
/// either sign become small unsigned values.
pub open spec fn zigzag(n: i64) -> nat {
    if n >= 0 {
        (2 * n) as nat
    } else {
        (-2 * n - 1) as nat
    }
}

/// The four bytes of a 32-bit value, least significant first.
pub open spec fn le_bytes_32(b: u32) -> Seq<u8> {
    seq![
        (b % 256) as u8,
        ((b / 256) % 256) as u8,
        ((b / 65536) % 256) as u8,
        ((b / 16777216) % 256) as u8,
    ]
}

/// The eight bytes of a 64-bit value, least significant first.
pub open spec fn le_bytes_64(b: u64) -> Seq<u8> {
    seq![
        (b % 256) as u8,
        ((b / 256) % 256) as u8,
        ((b / 65536) % 256) as u8,
        ((b / 16777216) % 256) as u8,
        ((b / 4294967296) % 256) as u8,
        ((b / 1099511627776) % 256) as u8,
        ((b / 281474976710656) % 256) as u8,
        ((b / 72057594037927936) % 256) as u8,
    ]
}

/// A length-prefixed field: its key, the payload length as a varint,
/// then the payload.
pub open spec fn len_prefixed(field: nat, payload: Seq<u8>) -> Seq<u8> {
    key_bytes(field, 2) + varint(payload.len()) + payload
}

/// A string field: the UTF-8 bytes of the text, length prefixed.
pub open spec fn string_field(field: nat, s: Seq<char>) -> Seq<u8> {
    len_prefixed(field, encode_utf8(s))
}

/// A string field that is absent or present.
pub open spec fn opt_string_field(field: nat, s: Option<Seq<char>>) -> Seq<u8> {
    match s {
        None => Seq::empty(),
        Some(t) => string_field(field, t),
    }
}

/// The tag fields of a record, one string field each, in order.
pub open spec fn tags_bytes(tags: Seq<Seq<char>>) -> Seq<u8>
    decreases tags.len(),
{
    if tags.len() == 0 {
        Seq::empty()
    } else {
        tags_bytes(tags.drop_last()) + string_field(7, tags.last())
    }
}

/// The payload of one attribute: its key and value as string fields.
pub open spec fn attribute_payload(a: AttributeView) -> Seq<u8> {
    string_field(1, a.key) + string_field(2, a.value)
}

/// The attribute fields of a record, one length-prefixed message each,
/// in order.
pub open spec fn attributes_bytes(attrs: Seq<AttributeView>) -> Seq<u8>
    decreases attrs.len(),
{
    if attrs.len() == 0 {
        Seq::empty()
    } else {
        attributes_bytes(attrs.drop_last()) + len_prefixed(9, attribute_payload(attrs.last()))
    }
}

/// The metric field of a record: the variant decides the field number
/// and wire coding.
pub open spec fn metric_bytes(m: Option<Metric>) -> Seq<u8> {
    match m {
        None => Seq::empty(),
        Some(Metric::Int(i)) => key_bytes(13, 0) + varint(zigzag(i)),
        Some(Metric::Double(b)) => key_bytes(14, 1) + le_bytes_64(b),
        Some(Metric::Float(b)) => key_bytes(15, 5) + le_bytes_32(b),
    }
}

/// The timestamp field of a record.
pub open spec fn time_bytes(t: Option<i64>) -> Seq<u8> {
    match t {
        None => Seq::empty(),
        Some(v) => key_bytes(1, 0) + varint(u64_of_i64(v)),
    }
}

/// The ttl field of a record: the float's bit pattern, little endian.
pub open spec fn ttl_bytes(t: Option<u32>) -> Seq<u8> {
    match t {
        None => Seq::empty(),
        Some(b) => key_bytes(8, 5) + le_bytes_32(b),
    }
}

/// The complete wire coding of an event record: every present field in
/// field-number order.
pub open spec fn event_bytes(e: EventView) -> Seq<u8> {
    time_bytes(e.time) + opt_string_field(2, e.state) + opt_string_field(3, e.service)
        + opt_string_field(4, e.host) + opt_string_field(5, e.description) + tags_bytes(e.tags)
        + ttl_bytes(e.ttl) + attributes_bytes(e.attributes) + metric_bytes(e.metric)
}

/// Appends the varint coding of `n`.
fn push_varint(out: &mut Vec<u8>, n: u64)
    ensures
        final(out)@ == old(out)@ + varint(n as nat),
{
    let mut cur: u64 = n;
    while cur >= 128
        invariant
            out@ + varint(cur as nat) == old(out)@ + varint(n as nat),
        decreases cur,
    {
        let ghost prev: u64 = cur;
        let ghost pre: Seq<u8> = out@;
        out.push((cur % 128 + 128) as u8);
        cur = cur / 128;
        proof {
            assert(varint(prev as nat) == seq![(128 + (prev as nat % 128)) as u8] + varint(
                prev as nat / 128,
            ));
            assert(cur as nat == prev as nat / 128);
            assert(out@ + varint(cur as nat) =~= pre + varint(prev as nat));
        }
    }
    let ghost pre2: Seq<u8> = out@;
    out.push(cur as u8);
    proof {
        assert(varint(cur as nat) == seq![cur as u8]);
        assert(out@ =~= pre2 + varint(cur as nat));
    }
}

/// Appends the one-byte key of a field.
fn push_key(out: &mut Vec<u8>, field: u64, wire: u64)
    requires
        1 <= field <= 15,
        wire <= 5,
    ensures
        final(out)@ == old(out)@ + key_bytes(field as nat, wire as nat),
{
    push_varint(out, field * 8 + wire);
}

/// Appends the four little-endian bytes of a 32-bit value.
fn push_le_32(out: &mut Vec<u8>, b: u32)
    ensures
        final(out)@ == old(out)@ + le_bytes_32(b),
{
    let ghost pre: Seq<u8> = out@;
    out.push((b % 256) as u8);
    out.push((b / 256 % 256) as u8);
    out.push((b / 65536 % 256) as u8);
    out.push((b / 16777216 % 256) as u8);
    proof {
        assert(out@ =~= pre + le_bytes_32(b));
    }
}

/// Appends the eight little-endian bytes of a 64-bit value.
fn push_le_64(out: &mut Vec<u8>, b: u64)
    ensures
        final(out)@ == old(out)@ + le_bytes_64(b),
{
    let ghost pre: Seq<u8> = out@;
    out.push((b % 256) as u8);
    out.push((b / 256 % 256) as u8);
    out.push((b / 65536 % 256) as u8);
    out.push((b / 16777216 % 256) as u8);
    out.push((b / 4294967296 % 256) as u8);
    out.push((b / 1099511627776 % 256) as u8);
    out.push((b / 281474976710656 % 256) as u8);
    out.push((b / 72057594037927936 % 256) as u8);
    proof {
        assert(out@ =~= pre + le_bytes_64(b));
    }
}

/// The zigzag coding of a signed 64-bit integer, as the unsigned value
/// written on the wire.
fn zigzag_encode(n: i64) -> (r: u64)
    ensures
        r as nat == zigzag(n),
{
    if n >= 0 {
        (n as u64) * 2
    } else {
        let m: u64 = (-(n + 1)) as u64;
        m * 2 + 1
    }
}

/// The two's-complement value of a signed 64-bit integer, as the
/// unsigned value written on the wire.
fn u64_from_i64(n: i64) -> (r: u64)
    ensures
        r as nat == u64_of_i64(n),
{
    if n >= 0 {
        n as u64
    } else {
        let m: u64 = (-(n + 1)) as u64;
        u64::MAX - m
    }
}

/// Appends one string field: key, UTF-8 byte length, bytes.
fn push_string_field(out: &mut Vec<u8>, field: u64, s: &String)
    requires
        1 <= field <= 15,
    ensures
        final(out)@ == old(out)@ + string_field(field as nat, s@),
{
    let ghost pre: Seq<u8> = out@;
    push_key(out, field, 2);
    let mut bytes: Vec<u8> = s.as_str().as_bytes_vec();
    proof {
        assert(bytes@ == encode_utf8(s@));
    }
    push_varint(out, bytes.len() as u64);
    out.append(&mut bytes);
    proof {
        assert(out@ =~= pre + string_field(field as nat, s@));
    }
}

/// Appends every tag of a record, in order.
fn push_tags(out: &mut Vec<u8>, tags: &Vec<String>)
    ensures
        final(out)@ == old(out)@ + tags_bytes(tags.deep_view()),
{
    let mut k: usize = 0;
    while k < tags.len()
        invariant
            0 <= k <= tags@.len(),
            out@ == old(out)@ + tags_bytes(tags.deep_view().take(k as int)),
        decreases tags@.len() - k,
    {
        push_string_field(out, 7, &tags[k]);
        proof {
            let dv = tags.deep_view();
            assert(dv.take(k as int + 1).drop_last() =~= dv.take(k as int));
            assert(dv.take(k as int + 1).last() == dv[k as int]);
            assert(tags_bytes(dv.take(k as int + 1)) == tags_bytes(dv.take(k as int))
                + string_field(7, dv[k as int]));
            assert(out@ =~= old(out)@ + tags_bytes(dv.take(k as int + 1)));
        }
        k = k + 1;
    }
    proof {
        assert(tags.deep_view().take(tags@.len() as int) =~= tags.deep_view());
    }
}

/// Appends every attribute of a record as a length-prefixed message, in
/// order.
fn push_attributes(out: &mut Vec<u8>, attrs: &Vec<crate::event::Attribute>)
    ensures
        final(out)@ == old(out)@ + attributes_bytes(attrs.deep_view()),
{
    let mut k: usize = 0;
    while k < attrs.len()
        invariant
            0 <= k <= attrs@.len(),
            out@ == old(out)@ + attributes_bytes(attrs.deep_view().take(k as int)),
        decreases attrs@.len() - k,
    {
        let mut payload: Vec<u8> = Vec::new();
        push_string_field(&mut payload, 1, &attrs[k].key);
        push_string_field(&mut payload, 2, &attrs[k].value);
        proof {
            assert(payload@ =~= attribute_payload(attrs.deep_view()[k as int]));
        }
        push_key(out, 9, 2);
        push_varint(out, payload.len() as u64);
        out.append(&mut payload);
        proof {
            let dv = attrs.deep_view();
            assert(dv.take(k as int + 1).drop_last() =~= dv.take(k as int));
            assert(dv.take(k as int + 1).last() == dv[k as int]);
            assert(attributes_bytes(dv.take(k as int + 1)) == attributes_bytes(dv.take(k as int))
                + len_prefixed(9, attribute_payload(dv[k as int])));
            assert(out@ =~= old(out)@ + attributes_bytes(dv.take(k as int + 1)));
        }
        k = k + 1;
    }
    proof {
        assert(attrs.deep_view().take(attrs@.len() as int) =~= attrs.deep_view());
    }
}

/// Encodes a finished event record into its wire bytes.
#[verifier::rlimit(60)]
pub fn encode_event(e: &Event) -> (r: Vec<u8>)
    ensures
        r@ == event_bytes(e@),
{
    let mut out: Vec<u8> = Vec::new();

    match &e.time {
        Some(t) => {
            push_key(&mut out, 1, 0);
            let v: u64 = u64_from_i64(*t);
            push_varint(&mut out, v);
        },
        None => {},
    }
    let ghost b1: Seq<u8> = out@;
    proof {
        assert(b1 =~= time_bytes(e@.time));
    }

    match &e.state {
        Some(s) => push_string_field(&mut out, 2, s),
        None => {},
    }
    let ghost b2: Seq<u8> = out@;
    proof {
        assert(b2 =~= b1 + opt_string_field(2, e@.state));
    }

    match &e.service {
        Some(s) => push_string_field(&mut out, 3, s),
        None => {},
    }
    let ghost b3: Seq<u8> = out@;
    proof {
        assert(b3 =~= b2 + opt_string_field(3, e@.service));
    }

    match &e.host {
        Some(s) => push_string_field(&mut out, 4, s),
        None => {},
    }
    let ghost b4: Seq<u8> = out@;
    proof {
        assert(b4 =~= b3 + opt_string_field(4, e@.host));
    }

    match &e.description {
        Some(s) => push_string_field(&mut out, 5, s),
        None => {},
    }
    let ghost b5: Seq<u8> = out@;
    proof {
        assert(b5 =~= b4 + opt_string_field(5, e@.description));
    }

    push_tags(&mut out, &e.tags);
    let ghost b6: Seq<u8> = out@;
    proof {
        assert(b6 =~= b5 + tags_bytes(e@.tags));
    }

    match e.ttl {
        Some(b) => {
            push_key(&mut out, 8, 5);
            push_le_32(&mut out, b);
        },
        None => {},
    }
    let ghost b7: Seq<u8> = out@;
    proof {
        assert(b7 =~= b6 + ttl_bytes(e@.ttl));
    }

    push_attributes(&mut out, &e.attributes);
    let ghost b8: Seq<u8> = out@;
    proof {
        assert(b8 =~= b7 + attributes_bytes(e@.attributes));
    }

    match e.metric {
        Some(Metric::Int(i)) => {
            push_key(&mut out, 13, 0);
            let z: u64 = zigzag_encode(i);
            push_varint(&mut out, z);
        },
        Some(Metric::Double(b)) => {
            push_key(&mut out, 14, 1);
            push_le_64(&mut out, b);
        },
        Some(Metric::Float(b)) => {
            push_key(&mut out, 15, 5);
            push_le_32(&mut out, b);
        },
        None => {},
    }
    proof {
        assert(out@ =~= b8 + metric_bytes(e@.metric));
        assert(out@ =~= event_bytes(e@));
    }
    out
}

} // verus!
