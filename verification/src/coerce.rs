//! Value coercion engine: turns one database-native cell into a JSON-safe
//! value by an ordered, first-match-wins probe of candidate native types.
//!
//! The declared column types are never consulted. Each cell is probed as
//! text, then 32-bit signed integer, then 64-bit signed integer, then
//! boolean, then double-precision float; the first probe that succeeds
//! decides the value. When every probe fails (SQL NULL, or a native type
//! outside the probe list such as a date, an array or a blob) the cell
//! becomes JSON null, indistinguishable from a true NULL. This ordering is
//! a deliberate heuristic and observable behaviour: it is kept as the
//! named list [`probe_order`], and the engine is a loop over that list.

use vstd::prelude::*;
use crate::JsonValue;

verus! {

/// The candidate native types a cell is probed as.
#[derive(Debug, Clone, Copy, PartialEq, Eq)]
pub enum ProbeKind {
    Text,
    Int32,
    Int64,
    Boolean,
    Float64,
}

/// The documented probe order: text, int32, int64, boolean, float, first
/// match wins.
pub open spec fn probe_order_spec() -> Seq<ProbeKind> {
    seq![
        ProbeKind::Text,
        ProbeKind::Int32,
        ProbeKind::Int64,
        ProbeKind::Boolean,
        ProbeKind::Float64,
    ]
}

/// The documented probe order as a value, so callers and tests can pin
/// it.
pub fn probe_order() -> (v: Vec<ProbeKind>)
    ensures
        v@ == probe_order_spec(),
{
    let mut v: Vec<ProbeKind> = Vec::new();
    v.push(ProbeKind::Text);
    v.push(ProbeKind::Int32);
    v.push(ProbeKind::Int64);
    v.push(ProbeKind::Boolean);
    v.push(ProbeKind::Float64);
    proof {
        assert(v@ =~= probe_order_spec());
    }
    v
}

/// The outcome of the five type probes the driver ran on one cell: for
/// each candidate native type, the decoded value when that probe
/// succeeded. The boundary layer fills this in from the driver's fallible
/// per-type getters; the engine only decides which successful probe wins.
///
/// A successful float probe is carried as the bit pattern of the double,
/// never inspected as a number.
#[derive(Debug, Clone, PartialEq)]
pub struct RawCell {
    pub text: Option<String>,
    pub int32: Option<i32>,
    pub int64: Option<i64>,
    pub boolean: Option<bool>,
    pub float_bits: Option<u64>,
}

impl RawCell {
    /// A cell on which every probe failed: coerced to JSON null.
    pub fn null() -> (c: RawCell)
        ensures
            c == (RawCell {
                text: None::<String>,
                int32: None::<i32>,
                int64: None::<i64>,
                boolean: None::<bool>,
                float_bits: None::<u64>,
            }),
    {
        RawCell { text: None, int32: None, int64: None, boolean: None, float_bits: None }
    }
}

/// Whether one probe succeeded on this cell.
pub open spec fn probe_succeeds(c: RawCell, kind: ProbeKind) -> bool {
    match kind {
        ProbeKind::Text => c.text is Some,
        ProbeKind::Int32 => c.int32 is Some,
        ProbeKind::Int64 => c.int64 is Some,
        ProbeKind::Boolean => c.boolean is Some,
        ProbeKind::Float64 => c.float_bits is Some,
    }
}

/// The JSON value a successful probe decodes to.
pub open spec fn probe_value(c: RawCell, kind: ProbeKind) -> JsonValue {
    match kind {
        ProbeKind::Text => JsonValue::Str(c.text->0),
        ProbeKind::Int32 => JsonValue::Int32(c.int32->0),
        ProbeKind::Int64 => JsonValue::Int64(c.int64->0),
        ProbeKind::Boolean => JsonValue::Bool(c.boolean->0),
        ProbeKind::Float64 => JsonValue::FloatBits(c.float_bits->0),
    }
}

/// The documented probe order, first match wins: text, int32, int64,
/// boolean, float; JSON null when every probe failed.
pub open spec fn coerce_spec(c: RawCell) -> JsonValue {
    if c.text is Some {
        JsonValue::Str(c.text->0)
    } else if c.int32 is Some {
        JsonValue::Int32(c.int32->0)
    } else if c.int64 is Some {
        JsonValue::Int64(c.int64->0)
    } else if c.boolean is Some {
        JsonValue::Bool(c.boolean->0)
    } else if c.float_bits is Some {
        JsonValue::FloatBits(c.float_bits->0)
    } else {
        JsonValue::Null
    }
}

fn try_probe(c: &RawCell, kind: ProbeKind) -> (r: Option<JsonValue>)
    ensures
        r is Some <==> probe_succeeds(*c, kind),
        r is Some ==> r->0 == probe_value(*c, kind),
{
    match kind {
        ProbeKind::Text => match &c.text {
            Some(s) => Some(JsonValue::Str(s.clone())),
            None => None,
        },
        ProbeKind::Int32 => match &c.int32 {
            Some(v) => Some(JsonValue::Int32(*v)),
            None => None,
        },
        ProbeKind::Int64 => match &c.int64 {
            Some(v) => Some(JsonValue::Int64(*v)),
            None => None,
        },
        ProbeKind::Boolean => match &c.boolean {
            Some(v) => Some(JsonValue::Bool(*v)),
            None => None,
        },
        ProbeKind::Float64 => match &c.float_bits {
            Some(v) => Some(JsonValue::FloatBits(*v)),
            None => None,
        },
    }
}

/// Coerce one cell to its JSON-safe value: run the probes in the
/// documented order, the first that succeeded wins, and a cell on which
/// every probe failed becomes JSON null.
pub fn coerce(c: &RawCell) -> (r: JsonValue)
    ensures
        r == coerce_spec(*c),
{
    let order = probe_order();
    let mut j: usize = 0;
    while j < order.len()
        invariant
            order@ == probe_order_spec(),
            j <= order@.len(),
            forall|k: int| 0 <= k < j ==> !probe_succeeds(*c, probe_order_spec()[k]),
        decreases order@.len() - j,
    {
        if let Some(v) = try_probe(c, order[j]) {
            proof {
                lemma_first_match_is_coerce(*c, j as int);
            }
            return v;
        }
        j += 1;
    }
    JsonValue::Null
}

/// The loop's justification: when every probe before position `i` failed
/// and the probe at `i` succeeded, the engine's result is that probe's
/// value.
proof fn lemma_first_match_is_coerce(c: RawCell, i: int)
    requires
        0 <= i < probe_order_spec().len(),
        probe_succeeds(c, probe_order_spec()[i]),
        forall|k: int| 0 <= k < i ==> !probe_succeeds(c, probe_order_spec()[k]),
    ensures
        coerce_spec(c) == probe_value(c, probe_order_spec()[i]),
{
    assert(probe_order_spec()[0] == ProbeKind::Text);
    assert(probe_order_spec()[1] == ProbeKind::Int32);
    assert(probe_order_spec()[2] == ProbeKind::Int64);
    assert(probe_order_spec()[3] == ProbeKind::Boolean);
    assert(probe_order_spec()[4] == ProbeKind::Float64);
}

/// The probe order is deterministic and total: every cell is coerced to
/// exactly one of string, int32, int64, boolean, float bits or null, and
/// when probes tie (several succeeded) the earlier probe in the order
/// text, int32, int64, boolean, float wins. In particular a cell whose
/// text probe failed and whose int32 probe succeeded never becomes a
/// string, whatever the later probes returned.
pub proof fn lemma_probe_order(c: RawCell)
    ensures
        c.text is Some ==> coerce_spec(c) == JsonValue::Str(c.text->0),
        c.text is None && c.int32 is Some ==> coerce_spec(c) == JsonValue::Int32(c.int32->0),
        c.text is None && c.int32 is None && c.int64 is Some ==> coerce_spec(c)
            == JsonValue::Int64(c.int64->0),
        c.text is None && c.int32 is None && c.int64 is None && c.boolean is Some ==> coerce_spec(
            c,
        ) == JsonValue::Bool(c.boolean->0),
        c.text is None && c.int32 is None && c.int64 is None && c.boolean is None
            && c.float_bits is Some ==> coerce_spec(c) == JsonValue::FloatBits(c.float_bits->0),
        c.text is None && c.int32 is None && c.int64 is None && c.boolean is None
            && c.float_bits is None ==> coerce_spec(c) == JsonValue::Null,
{
}

} // verus!
