//! Reading plan documents from JSON text, through serde_json.

use crate::document::{FieldModel, FieldValue, StepDoc, StepDocModel, doc_views, field_view};
use vstd::prelude::*;

verus! {

/// Whether serde_json reads `text` as one JSON value.
pub uninterp spec fn json_parses(text: Seq<char>) -> bool;

/// The text serde_json writes for the JSON object whose members are `pairs`,
/// each value a string.
pub uninterp spec fn json_object_text(pairs: Seq<(Seq<char>, Seq<char>)>) -> Seq<char>;

pub open spec fn pair_views(pairs: Seq<(&str, &str)>) -> Seq<(Seq<char>, Seq<char>)> {
    pairs.map_values(|p: (&str, &str)| (p.0@, p.1@))
}

/// What serde_json reads from `text`: for each element of the array held
/// under `list` in the top-level object, the member under each of `keys`
/// (`None` where it is missing), told apart as a string, null, or other. No
/// elements where there is no such array.
pub uninterp spec fn json_members(text: Seq<char>, list: Seq<char>, keys: Seq<Seq<char>>) -> Seq<
    Seq<Option<FieldModel>>,
>;

pub open spec fn row_view(row: Seq<Option<FieldValue>>) -> Seq<Option<FieldModel>> {
    row.map_values(|f: Option<FieldValue>| field_view(f))
}

pub open spec fn rows_view(rows: Seq<Vec<Option<FieldValue>>>) -> Seq<Seq<Option<FieldModel>>> {
    rows.map_values(|r: Vec<Option<FieldValue>>| row_view(r@))
}

pub open spec fn key_views(keys: Seq<&str>) -> Seq<Seq<char>> {
    keys.map_values(|k: &str| k@)
}

/// Relies on serde_json::from_str into a `Value`, then `Value::get` and
/// `Value::as_array`: the members under `keys` of the elements of the array
/// under `list`, or the parser's error message.
#[verifier::external_body]
fn parse_members(text: &str, list: &str, keys: &Vec<&str>) -> (r: Result<Vec<Vec<Option<FieldValue>>>, String>)
    ensures
        r is Ok == json_parses(text@),
        r is Ok ==> rows_view(r->Ok_0@) == json_members(text@, list@, key_views(keys@)),
        r is Ok ==> forall|i: int| 0 <= i < r->Ok_0@.len() ==> #[trigger] r->Ok_0@[i]@.len() == keys@.len(),
{
    let v: serde_json::Value = serde_json::from_str(text).map_err(|e| e.to_string())?;
    let field = |x: &serde_json::Value| match x {
        serde_json::Value::Null => FieldValue::Null,
        serde_json::Value::String(s) => FieldValue::Str(s.clone()),
        _ => FieldValue::Other,
    };
    let items = v.get(list).and_then(|p| p.as_array()).cloned().unwrap_or_default();
    Ok(items.iter().map(|s| keys.iter().map(|k| s.get(*k).map(field)).collect()).collect())
}

/// The elements of a plan document: the steps listed under `plan`, each
/// with its `type`, `name`, `input` and `message` members.
pub open spec fn json_plan_steps(text: Seq<char>) -> Seq<StepDocModel> {
    json_members(text, "plan"@, seq!["type"@, "name"@, "input"@, "message"@]).map_values(
        |row: Seq<Option<FieldModel>>|
            StepDocModel { kind: row[0], name: row[1], input: row[2], message: row[3] },
    )
}

/// Relies on serde_json's `Map` built from the pairs and on `Value::to_string`:
/// the compact JSON text of an object of string members.
#[verifier::external_body]
pub(crate) fn json_object(pairs: &Vec<(&str, &str)>) -> (r: String)
    ensures
        r@ == json_object_text(pair_views(pairs@)),
{
    let map: serde_json::Map<String, serde_json::Value> = pairs
        .iter()
        .map(|(k, v)| (k.to_string(), serde_json::Value::String(v.to_string())))
        .collect();
    serde_json::Value::Object(map).to_string()
}

fn copy_field(f: &Option<FieldValue>) -> (r: Option<FieldValue>)
    ensures
        field_view(r) == field_view(*f),
{
    match f {
        Some(FieldValue::Str(t)) => Some(FieldValue::Str(t.clone())),
        Some(FieldValue::Null) => Some(FieldValue::Null),
        Some(FieldValue::Other) => Some(FieldValue::Other),
        None => None,
    }
}

/// Reads a plan document: JSON text whose `plan` member lists the steps. A
/// missing `plan`, or one that is not an array, lists none. Fails, with the
/// parser's message, exactly where the text is not JSON.
pub fn read_plan_document(text: &str) -> (r: Result<Vec<StepDoc>, String>)
    ensures
        r is Ok == json_parses(text@),
        r is Ok ==> doc_views(r->Ok_0@) == json_plan_steps(text@),
{
    let keys = vec!["type", "name", "input", "message"];
    proof {
        reveal_strlit("type");
    }
    assert(key_views(keys@) =~= seq!["type"@, "name"@, "input"@, "message"@]);
    let rows = match parse_members(text, "plan", &keys) {
        Ok(rows) => rows,
        Err(e) => {
            return Err(e);
        },
    };
    let ghost target = json_plan_steps(text@);
    let mut docs: Vec<StepDoc> = Vec::new();
    let mut i: usize = 0;
    while i < rows.len()
        invariant
            i <= rows.len(),
            keys@.len() == 4,
            forall|k: int| 0 <= k < rows@.len() ==> #[trigger] rows@[k]@.len() == 4,
            rows_view(rows@) == json_members(text@, "plan"@, seq!["type"@, "name"@, "input"@, "message"@]),
            target == json_plan_steps(text@),
            doc_views(docs@) == target.take(i as int),
        decreases rows.len() - i,
    {
        let row = &rows[i];
        assert(rows@[i as int]@.len() == 4);
        let d = StepDoc {
            kind: copy_field(&row[0]),
            name: copy_field(&row[1]),
            input: copy_field(&row[2]),
            message: copy_field(&row[3]),
        };
        proof {
            let rv = rows_view(rows@)[i as int];
            assert(rv == row_view(row@));
            assert(d@.kind == rv[0]);
            assert(d@.name == rv[1]);
            assert(d@.input == rv[2]);
            assert(d@.message == rv[3]);
            assert(target[i as int] == d@);
        }
        let ghost prev = docs@;
        docs.push(d);
        assert(doc_views(docs@) =~= doc_views(prev).push(target[i as int]));
        assert(target.take(i + 1) =~= target.take(i as int).push(target[i as int]));
        i = i + 1;
    }
    assert(target.take(rows.len() as int) =~= target);
    Ok(docs)
}

} // verus!
