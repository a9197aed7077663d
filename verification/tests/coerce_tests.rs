use query_core::JsonValue;
use query_core::coerce::{ProbeKind, RawCell, coerce, probe_order};

fn cell(
    text: Option<&str>,
    int32: Option<i32>,
    int64: Option<i64>,
    boolean: Option<bool>,
    float_bits: Option<u64>,
) -> RawCell {
    RawCell {
        text: text.map(|s| s.to_string()),
        int32,
        int64,
        boolean,
        float_bits,
    }
}

#[test]
fn probe_order_is_pinned() {
    assert_eq!(
        probe_order(),
        vec![
            ProbeKind::Text,
            ProbeKind::Int32,
            ProbeKind::Int64,
            ProbeKind::Boolean,
            ProbeKind::Float64,
        ]
    );
}

#[test]
fn text_probe_wins_first() {
    let c = cell(Some("hello"), Some(5), Some(5), Some(true), Some(1));
    assert_eq!(coerce(&c), JsonValue::Str("hello".to_string()));
}

#[test]
fn text_literal_that_parses_as_number_stays_under_probe_order() {
    // A text column holding "007": its text probe succeeds, so under the
    // documented probe order (text first) the text probe decides.
    let c = cell(Some("007"), None, None, None, None);
    assert_eq!(coerce(&c), JsonValue::Str("007".to_string()));
}

#[test]
fn int32_wins_when_text_fails() {
    // A native 32-bit integer cell: the text probe fails, so the value
    // never becomes a string.
    let c = cell(None, Some(7), Some(7), Some(true), Some(2));
    assert_eq!(coerce(&c), JsonValue::Int32(7));
}

#[test]
fn int64_wins_when_text_and_int32_fail() {
    let c = cell(None, None, Some(1 << 40), Some(false), Some(3));
    assert_eq!(coerce(&c), JsonValue::Int64(1 << 40));
}

#[test]
fn bool_wins_when_numeric_probes_fail() {
    let c = cell(None, None, None, Some(true), Some(4));
    assert_eq!(coerce(&c), JsonValue::Bool(true));
}

#[test]
fn float_bits_pass_through_untouched() {
    let bits = 2.5f64.to_bits();
    let c = cell(None, None, None, None, Some(bits));
    assert_eq!(coerce(&c), JsonValue::FloatBits(bits));
    if let JsonValue::FloatBits(b) = coerce(&c) {
        assert_eq!(f64::from_bits(b), 2.5);
    } else {
        panic!("float probe should have decided");
    }
}

#[test]
fn all_probes_failed_gives_null() {
    assert_eq!(coerce(&RawCell::null()), JsonValue::Null);
    let c = cell(None, None, None, None, None);
    assert_eq!(coerce(&c), JsonValue::Null);
}

#[test]
fn exactly_one_kind_is_produced() {
    // Every combination of probe outcomes yields exactly one JSON kind.
    let candidates = [
        cell(Some("x"), None, None, None, None),
        cell(None, Some(1), None, None, None),
        cell(None, None, Some(1), None, None),
        cell(None, None, None, Some(false), None),
        cell(None, None, None, None, Some(9)),
        cell(None, None, None, None, None),
    ];
    for c in candidates.iter() {
        let v = coerce(c);
        let kinds = [
            matches!(v, JsonValue::Str(_)),
            matches!(v, JsonValue::Int32(_)),
            matches!(v, JsonValue::Int64(_)),
            matches!(v, JsonValue::Bool(_)),
            matches!(v, JsonValue::FloatBits(_)),
            matches!(v, JsonValue::Null),
        ];
        assert_eq!(kinds.iter().filter(|k| **k).count(), 1);
    }
}
