use synesthesia::vector::{
    graph_link_payload, lookup_value, point_number, signal_fields, signal_payload, PayloadValue, PointIdValue,
    SignalFields, EMBEDDING_DIM, KEY_CHANNEL_ID, KEY_GRAPH_NODE_ID, KEY_MODE, KEY_SAMPLE_RATE, KEY_TIMESTAMP_MS,
};

fn fields(node: Option<&str>) -> SignalFields {
    SignalFields {
        timestamp_ms: 1_700_000_000_123,
        channel_id: 7,
        graph_node_id: node.map(|s| s.to_string()),
        mode: "ANC".to_string(),
        sample_rate: 192_000,
    }
}

fn same(a: &SignalFields, b: &SignalFields) -> bool {
    a.timestamp_ms == b.timestamp_ms
        && a.channel_id == b.channel_id
        && a.graph_node_id == b.graph_node_id
        && a.mode == b.mode
        && a.sample_rate == b.sample_rate
}

fn integer(entries: &Vec<(String, PayloadValue)>, key: &str) -> Option<i64> {
    match lookup_value(entries, key) {
        Some(PayloadValue::Integer(n)) => Some(*n),
        _ => None,
    }
}

#[test]
fn payload_round_trips() {
    for node in [None, Some("node-42")] {
        let f = fields(node);
        let payload = signal_payload(&f);
        assert_eq!(payload.len(), if node.is_some() { 5 } else { 4 });
        assert!(same(&signal_fields(&payload), &f));
    }
}

#[test]
fn payload_entries() {
    let payload = signal_payload(&fields(Some("n1")));
    assert_eq!(integer(&payload, KEY_TIMESTAMP_MS), Some(1_700_000_000_123));
    assert_eq!(integer(&payload, KEY_CHANNEL_ID), Some(7));
    assert_eq!(integer(&payload, KEY_SAMPLE_RATE), Some(192_000));
    assert!(matches!(lookup_value(&payload, KEY_MODE), Some(PayloadValue::Text(s)) if s == "ANC"));
    assert!(matches!(lookup_value(&payload, KEY_GRAPH_NODE_ID), Some(PayloadValue::Text(s)) if s == "n1"));
    assert!(lookup_value(&payload, "frequency_hz").is_none());
}

#[test]
fn missing_or_mistyped_fields_read_as_defaults() {
    let payload: Vec<(String, PayloadValue)> = vec![
        ("timestamp_ms".to_string(), PayloadValue::Text("soon".to_string())),
        ("mode".to_string(), PayloadValue::Integer(3)),
        ("frequency_hz".to_string(), PayloadValue::Other),
    ];
    let f = signal_fields(&payload);
    assert_eq!(f.timestamp_ms, 0);
    assert_eq!(f.channel_id, 0);
    assert_eq!(f.graph_node_id, None);
    assert_eq!(f.mode, "");
    assert_eq!(f.sample_rate, 0);
    assert!(same(&signal_fields(&Vec::new()), &f));
}

#[test]
fn wide_integers_are_truncated_to_32_bits() {
    let payload: Vec<(String, PayloadValue)> = vec![
        ("channel_id".to_string(), PayloadValue::Integer((1i64 << 32) + 5)),
        ("sample_rate".to_string(), PayloadValue::Integer(-1)),
    ];
    let f = signal_fields(&payload);
    assert_eq!(f.channel_id, 5);
    assert_eq!(f.sample_rate, u32::MAX);
}

#[test]
fn first_entry_with_a_key_wins() {
    let payload: Vec<(String, PayloadValue)> = vec![
        ("mode".to_string(), PayloadValue::Text("MUSIC".to_string())),
        ("mode".to_string(), PayloadValue::Text("ANC".to_string())),
    ];
    assert_eq!(signal_fields(&payload).mode, "MUSIC");
}

#[test]
fn graph_link_has_one_entry() {
    let payload = graph_link_payload("g-7".to_string());
    assert_eq!(payload.len(), 1);
    assert_eq!(payload[0].0, "graph_node_id");
    assert!(matches!(&payload[0].1, PayloadValue::Text(s) if s == "g-7"));
}

#[test]
fn point_numbers() {
    assert_eq!(point_number(&PointIdValue::Num(99)), 99);
    let a = point_number(&PointIdValue::Uuid("5c56c793-69f3-4fbf-87e6-c4bf54c28c26".to_string()));
    let b = point_number(&PointIdValue::Uuid("5c56c793-69f3-4fbf-87e6-c4bf54c28c26".to_string()));
    assert_eq!(a, b);
    assert_eq!(EMBEDDING_DIM, 32);
}
