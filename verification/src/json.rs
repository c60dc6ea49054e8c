//! The measurement object of a telemetry payload, read through JSON.
//!
//! The extracted measurement text is JSON: an object whose keys are the
//! device profile's uplink field names and whose values are the readings.
//! Parsing goes through the `serde_json` crate behind one trusted boundary;
//! everything after it — field lookup and the reading's classification —
//! is verified against the parse's named result.

use vstd::prelude::*;

verus! {

/// One reading of a measurement object, as the engine classifies it: a
/// boolean; a number representable as a signed 64-bit integer; another
/// number (one with a fraction, or out of that range); a text; or anything
/// else (a null, an array, a nested object — or a missing field).
pub enum JsonScalar {
    Bool(bool),
    Int(i64),
    NumOther,
    Text(String),
    Other,
}

impl Clone for JsonScalar {
    /// Clones the reading, keeping its value.
    fn clone(&self) -> (r: Self)
        ensures
            r == *self,
    {
        match self {
            JsonScalar::Bool(b) => JsonScalar::Bool(*b),
            JsonScalar::Int(i) => JsonScalar::Int(*i),
            JsonScalar::NumOther => JsonScalar::NumOther,
            JsonScalar::Text(t) => JsonScalar::Text(t.clone()),
            JsonScalar::Other => JsonScalar::Other,
        }
    }
}

/// One field of a measurement object: its key and its classified reading.
pub struct JsonField {
    pub key: String,
    pub value: JsonScalar,
}

/// The fields as the specification sees them: each key by its characters.
pub open spec fn fields_view(v: Seq<JsonField>) -> Seq<(Seq<char>, JsonScalar)> {
    v.map_values(|f: JsonField| (f.key@, f.value))
}

/// What parsing a measurement text yields: `None` when the text is not JSON
/// or not a JSON object, else the object's fields with classified readings.
/// The parse is a function of the text alone, so the result carries a name;
/// what holds of it is stated at the one function that computes it.
pub uninterp spec fn json_fields(text: Seq<char>) -> Option<Seq<(Seq<char>, JsonScalar)>>;

/// Parses a measurement text.
///
/// Relies on `serde_json::from_str` and on `serde_json::Value`: the text
/// parses to a `Value` or fails; a top-level object holds its fields in a
/// map ordered by key, a repeated key keeping the last value, so the result
/// is a function of the text alone and its keys are distinct. A number's
/// classification relies on `serde_json::Number::as_i64`, which answers
/// exactly for numbers represented as signed 64-bit integers.
#[verifier::external_body]
fn parse_measurement_fields(text: &Vec<char>) -> (r: Option<Vec<JsonField>>)
    ensures
        match r {
            None => json_fields(text@) is None,
            Some(v) => json_fields(text@) == Some(fields_view(v@)) && forall|i: int, j: int|
                0 <= i < j < v@.len() ==> v@[i].key@ != v@[j].key@,
        },
{
    let text: String = text.iter().collect();
    let v: serde_json::Value = serde_json::from_str(&text).ok()?;
    let obj = match v { serde_json::Value::Object(m) => m, _ => return None };
    Some(obj.into_iter().map(|(key, val)| JsonField { key, value: match val {
        serde_json::Value::Bool(b) => JsonScalar::Bool(b),
        serde_json::Value::Number(n) => n.as_i64().map_or(JsonScalar::NumOther, JsonScalar::Int),
        serde_json::Value::String(t) => JsonScalar::Text(t),
        _ => JsonScalar::Other,
    } }).collect())
}

/// Parses a measurement text into its fields, or nothing when the text is
/// not a JSON object.
pub fn parse_measurements(text: &Vec<char>) -> (r: Option<Vec<JsonField>>)
    ensures
        match r {
            None => json_fields(text@) is None,
            Some(v) => json_fields(text@) == Some(fields_view(v@)),
        },
{
    parse_measurement_fields(text)
}

/// The reading under a key: that of the first field carrying the key, or
/// the "anything else" reading when no field does — a missing field reads
/// as absent.
pub open spec fn spec_lookup(fields: Seq<(Seq<char>, JsonScalar)>, key: Seq<char>) -> JsonScalar
    decreases fields.len(),
{
    if fields.len() == 0 {
        JsonScalar::Other
    } else if fields[0].0 == key {
        fields[0].1
    } else {
        spec_lookup(fields.drop_first(), key)
    }
}

/// Looks a key up among the fields.
pub fn lookup_field(fields: &Vec<JsonField>, key: &str) -> (r: JsonScalar)
    ensures
        r == spec_lookup(fields_view(fields@), key@),
{
    let ghost view = fields_view(fields@);
    let mut k: usize = 0;
    proof {
        assert(view.skip(0) =~= view);
    }
    while k < fields.len()
        invariant
            view == fields_view(fields@),
            view.len() == fields@.len(),
            0 <= k <= fields@.len(),
            spec_lookup(view, key@) == spec_lookup(view.skip(k as int), key@),
        decreases fields@.len() - k,
    {
        proof {
            assert(view.skip(k as int)[0] == view[k as int]);
            assert(view.skip(k as int).drop_first() =~= view.skip(k + 1));
        }
        if crate::textutil::str_eq(fields[k].key.as_str(), key) {
            return fields[k].value.clone();
        }
        k = k + 1;
    }
    proof {
        assert(view.skip(k as int).len() == 0);
    }
    JsonScalar::Other
}

} // verus!
