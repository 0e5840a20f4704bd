//! Forensic signal metadata as the payload of a point in the embedding
//! store: the integer and text fields written with each embedding, and how
//! a payload read back is turned into metadata again (a missing or
//! mistyped field reads as zero or empty). Point ids are numbers, or UUIDs
//! hashed to a number.

use vstd::prelude::*;
use std::collections::hash_map::DefaultHasher;
use std::hash::{Hash, Hasher};
use crate::memo::str_equals;
use vstd::std_specs::hash::DefaultHasherAdditionalSpecFns;

verus! {

/// Mamba latent dimension: the length of every stored embedding.
pub const EMBEDDING_DIM: usize = 32;

pub const KEY_TIMESTAMP_MS: &'static str = "timestamp_ms";
pub const KEY_CHANNEL_ID: &'static str = "channel_id";
pub const KEY_FREQUENCY_HZ: &'static str = "frequency_hz";
pub const KEY_CONFIDENCE: &'static str = "confidence";
pub const KEY_GRAPH_NODE_ID: &'static str = "graph_node_id";
pub const KEY_MODE: &'static str = "mode";
pub const KEY_SAMPLE_RATE: &'static str = "sample_rate";

/// A payload value as the metadata fields read it.
#[derive(Debug, Clone)]
pub enum PayloadValue {
    Integer(i64),
    Text(String),
    /// Any other kind of value (a floating-point number, a list, ...).
    Other,
}

/// The mathematical value of a `PayloadValue`.
pub enum ValueView {
    Integer(i64),
    Text(Seq<char>),
    Other,
}

impl View for PayloadValue {
    type V = ValueView;

    open spec fn view(&self) -> ValueView {
        match self {
            PayloadValue::Integer(n) => ValueView::Integer(*n),
            PayloadValue::Text(s) => ValueView::Text(s@),
            PayloadValue::Other => ValueView::Other,
        }
    }
}

/// The integer and text fields of a signal's metadata.
#[derive(Debug, Clone)]
pub struct SignalFields {
    pub timestamp_ms: i64,
    pub channel_id: u32,
    pub graph_node_id: Option<String>,
    pub mode: String,
    pub sample_rate: u32,
}

/// The mathematical value of `SignalFields`.
pub struct FieldsView {
    pub timestamp_ms: i64,
    pub channel_id: u32,
    pub graph_node_id: Option<Seq<char>>,
    pub mode: Seq<char>,
    pub sample_rate: u32,
}

pub open spec fn opt_text_view(s: Option<String>) -> Option<Seq<char>> {
    match s {
        Some(t) => Some(t@),
        None => None,
    }
}

impl View for SignalFields {
    type V = FieldsView;

    open spec fn view(&self) -> FieldsView {
        FieldsView {
            timestamp_ms: self.timestamp_ms,
            channel_id: self.channel_id,
            graph_node_id: opt_text_view(self.graph_node_id),
            mode: self.mode@,
            sample_rate: self.sample_rate,
        }
    }
}

/// Payload entries as (key, value) pairs.
pub open spec fn entries_view(entries: Seq<(String, PayloadValue)>) -> Seq<(Seq<char>, ValueView)> {
    entries.map_values(|e: (String, PayloadValue)| (e.0@, e.1@))
}

/// The value under `key`: that of the first entry with this key.
pub open spec fn lookup(entries: Seq<(Seq<char>, ValueView)>, key: Seq<char>) -> Option<ValueView>
    decreases entries.len(),
{
    if entries.len() == 0 {
        None
    } else if entries[0].0 == key {
        Some(entries[0].1)
    } else {
        lookup(entries.drop_first(), key)
    }
}

/// An integer field, zero when missing or not an integer.
pub open spec fn integer_or_zero(v: Option<ValueView>) -> i64 {
    match v {
        Some(ValueView::Integer(n)) => n,
        _ => 0,
    }
}

/// A text field, `None` when missing or not text.
pub open spec fn text_of(v: Option<ValueView>) -> Option<Seq<char>> {
    match v {
        Some(ValueView::Text(s)) => Some(s),
        _ => None,
    }
}

/// The fields read from a payload. Integers are truncated to 32 bits
/// where the field is 32 bits wide.
pub open spec fn fields_of(entries: Seq<(Seq<char>, ValueView)>) -> FieldsView {
    FieldsView {
        timestamp_ms: integer_or_zero(lookup(entries, KEY_TIMESTAMP_MS@)),
        channel_id: integer_or_zero(lookup(entries, KEY_CHANNEL_ID@)) as u32,
        graph_node_id: text_of(lookup(entries, KEY_GRAPH_NODE_ID@)),
        mode: match text_of(lookup(entries, KEY_MODE@)) {
            Some(s) => s,
            None => Seq::empty(),
        },
        sample_rate: integer_or_zero(lookup(entries, KEY_SAMPLE_RATE@)) as u32,
    }
}

/// The payload entries written for `f` (the graph node only when linked).
pub open spec fn payload_of(f: FieldsView) -> Seq<(Seq<char>, ValueView)> {
    let link = match f.graph_node_id {
        Some(id) => seq![(KEY_GRAPH_NODE_ID@, ValueView::Text(id))],
        None => Seq::empty(),
    };
    seq![
        (KEY_TIMESTAMP_MS@, ValueView::Integer(f.timestamp_ms)),
        (KEY_CHANNEL_ID@, ValueView::Integer(f.channel_id as i64)),
    ] + link + seq![
        (KEY_MODE@, ValueView::Text(f.mode)),
        (KEY_SAMPLE_RATE@, ValueView::Integer(f.sample_rate as i64)),
    ]
}

/// The value stored under `key`, if any.
pub fn lookup_value<'a>(entries: &'a Vec<(String, PayloadValue)>, key: &str) -> (r: Option<&'a PayloadValue>)
    ensures
        match r {
            Some(v) => lookup(entries_view(entries@), key@) == Some(v@),
            None => lookup(entries_view(entries@), key@) is None,
        },
{
    let n = entries.len();
    let ghost all = entries_view(entries@);
    assert(all.subrange(0, n as int) =~= all);
    for i in 0..n
        invariant
            n == entries@.len(),
            all == entries_view(entries@),
            lookup(all, key@) == lookup(all.subrange(i as int, n as int), key@),
    {
        let ghost rest = all.subrange(i as int, n as int);
        assert(rest.drop_first() =~= all.subrange(i + 1, n as int));
        if str_equals(entries[i].0.as_str(), key) {
            return Some(&entries[i].1);
        }
    }
    assert(all.subrange(n as int, n as int).len() == 0);
    None
}

/// Read the integer and text fields of a payload.
pub fn signal_fields(entries: &Vec<(String, PayloadValue)>) -> (r: SignalFields)
    ensures
        r@ == fields_of(entries_view(entries@)),
{
    let timestamp_ms = match lookup_value(entries, KEY_TIMESTAMP_MS) {
        Some(PayloadValue::Integer(n)) => *n,
        _ => 0,
    };
    let channel_id = match lookup_value(entries, KEY_CHANNEL_ID) {
        Some(PayloadValue::Integer(n)) => *n as u32,
        _ => 0,
    };
    let graph_node_id = match lookup_value(entries, KEY_GRAPH_NODE_ID) {
        Some(PayloadValue::Text(s)) => Some(s.clone()),
        _ => None,
    };
    let mode = match lookup_value(entries, KEY_MODE) {
        Some(PayloadValue::Text(s)) => s.clone(),
        _ => String::new(),
    };
    let sample_rate = match lookup_value(entries, KEY_SAMPLE_RATE) {
        Some(PayloadValue::Integer(n)) => *n as u32,
        _ => 0,
    };
    let r = SignalFields { timestamp_ms, channel_id, graph_node_id, mode, sample_rate };
    assert(r@.mode =~= fields_of(entries_view(entries@)).mode);
    r
}

/// The integer and text entries of the payload stored with a signal's
/// embedding (the host adds the frequency and confidence).
pub fn signal_payload(fields: &SignalFields) -> (r: Vec<(String, PayloadValue)>)
    ensures
        entries_view(r@) == payload_of(fields@),
{
    let mut r: Vec<(String, PayloadValue)> = Vec::new();
    r.push((KEY_TIMESTAMP_MS.to_owned(), PayloadValue::Integer(fields.timestamp_ms)));
    r.push((KEY_CHANNEL_ID.to_owned(), PayloadValue::Integer(fields.channel_id as i64)));
    match &fields.graph_node_id {
        Some(id) => r.push((KEY_GRAPH_NODE_ID.to_owned(), PayloadValue::Text(id.clone()))),
        None => {},
    }
    r.push((KEY_MODE.to_owned(), PayloadValue::Text(fields.mode.clone())));
    r.push((KEY_SAMPLE_RATE.to_owned(), PayloadValue::Integer(fields.sample_rate as i64)));
    assert(entries_view(r@) =~= payload_of(fields@));
    r
}

/// The payload that links a stored point to a graph node.
pub fn graph_link_payload(graph_node_id: String) -> (r: Vec<(String, PayloadValue)>)
    ensures
        entries_view(r@) == seq![(KEY_GRAPH_NODE_ID@, ValueView::Text(graph_node_id@))],
{
    let ghost id = graph_node_id@;
    let mut r: Vec<(String, PayloadValue)> = Vec::new();
    r.push((KEY_GRAPH_NODE_ID.to_owned(), PayloadValue::Text(graph_node_id)));
    assert(entries_view(r@) =~= seq![(KEY_GRAPH_NODE_ID@, ValueView::Text(id))]);
    r
}

/// Identifier of a stored point: a number, or a UUID.
#[derive(Debug, Clone)]
pub enum PointIdValue {
    Num(u64),
    Uuid(String),
}

/// The writes that hashing the text `s` makes on a hasher (its bytes and a
/// terminator); they depend on the text alone.
pub uninterp spec fn str_hash_writes(s: Seq<char>) -> Seq<Seq<u8>>;

/// `<str as std::hash::Hash>::hash` on a `DefaultHasher`: feeds `s` to
/// `h`, appending to the hasher's record of writes what the text
/// determines (named by `str_hash_writes`, not described).
#[verifier::external_body]
fn hash_str(s: &str, h: &mut DefaultHasher)
    ensures
        final(h)@ == old(h)@ + str_hash_writes(s@),
{
    s.hash(h)
}

/// The number of a stored point: its own number, or the 64-bit hash of
/// its UUID text by a fresh `DefaultHasher`.
pub fn point_number(id: &PointIdValue) -> (r: u64)
    ensures
        id matches PointIdValue::Num(n) ==> r == n,
        id matches PointIdValue::Uuid(u) ==> r == DefaultHasher::spec_finish(str_hash_writes(u@)),
{
    match id {
        PointIdValue::Num(n) => *n,
        PointIdValue::Uuid(uuid) => {
            let mut h = DefaultHasher::new();
            hash_str(uuid.as_str(), &mut h);
            assert(h@ =~= str_hash_writes(uuid@));
            h.finish()
        },
    }
}

/// Reading back the payload written for a signal's fields gives the same
/// fields: what is stored with an embedding is what a search returns.
pub proof fn law_payload_roundtrip(f: FieldsView)
    ensures
        fields_of(payload_of(f)) == f,
{
    reveal_strlit("timestamp_ms");
    reveal_strlit("channel_id");
    reveal_strlit("graph_node_id");
    reveal_strlit("mode");
    reveal_strlit("sample_rate");
    reveal_with_fuel(lookup, 6);
    assert(KEY_TIMESTAMP_MS@.len() == 12);
    assert(KEY_CHANNEL_ID@.len() == 10);
    assert(KEY_GRAPH_NODE_ID@.len() == 13);
    assert(KEY_MODE@.len() == 4);
    assert(KEY_SAMPLE_RATE@.len() == 11);
}

} // verus!
