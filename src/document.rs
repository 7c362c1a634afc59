//! The plan document as a text model writes it, once read from JSON: an array
//! of loosely typed step objects, and their typed decoding into a plan.

use crate::plan::{Plan, PlanStep, StepModel};
use crate::text::eq_str;
use vstd::prelude::*;

verus! {

/// What a member of a step object holds, as far as plans care.
#[derive(Clone, Debug, PartialEq, Eq)]
pub enum FieldValue {
    Str(String),
    Null,
    Other,
}

pub enum FieldModel {
    Str(Seq<char>),
    Null,
    Other,
}

impl View for FieldValue {
    type V = FieldModel;

    open spec fn view(&self) -> FieldModel {
        match self {
            FieldValue::Str(s) => FieldModel::Str(s@),
            FieldValue::Null => FieldModel::Null,
            FieldValue::Other => FieldModel::Other,
        }
    }
}

/// One element of a plan document. Each member is `None` where the element
/// has no such key (or is not an object at all).
#[derive(Clone, Debug, PartialEq, Eq)]
pub struct StepDoc {
    pub kind: Option<FieldValue>,
    pub name: Option<FieldValue>,
    pub input: Option<FieldValue>,
    pub message: Option<FieldValue>,
}

pub struct StepDocModel {
    pub kind: Option<FieldModel>,
    pub name: Option<FieldModel>,
    pub input: Option<FieldModel>,
    pub message: Option<FieldModel>,
}

pub open spec fn field_view(f: Option<FieldValue>) -> Option<FieldModel> {
    match f {
        Some(v) => Some(v@),
        None => None,
    }
}

impl View for StepDoc {
    type V = StepDocModel;

    open spec fn view(&self) -> StepDocModel {
        StepDocModel {
            kind: field_view(self.kind),
            name: field_view(self.name),
            input: field_view(self.input),
            message: field_view(self.message),
        }
    }
}

pub open spec fn doc_views(d: Seq<StepDoc>) -> Seq<StepDocModel> {
    d.map_values(|s: StepDoc| s@)
}

/// The typed reading of one element: a tool step needs a string `name` and
/// takes a missing or null `input` as empty; a note needs a string `message`.
pub open spec fn decode_step(d: StepDocModel) -> Option<StepModel> {
    match d.kind {
        Some(FieldModel::Str(t)) => if t == "tool"@ {
            match (d.name, d.input) {
                (Some(FieldModel::Str(n)), None) => Some(StepModel::ToolCall { name: n, input: seq![] }),
                (Some(FieldModel::Str(n)), Some(FieldModel::Null)) => Some(
                    StepModel::ToolCall { name: n, input: seq![] },
                ),
                (Some(FieldModel::Str(n)), Some(FieldModel::Str(i))) => Some(
                    StepModel::ToolCall { name: n, input: i },
                ),
                _ => None,
            }
        } else if t == "info"@ {
            match d.message {
                Some(FieldModel::Str(m)) => Some(StepModel::Info { message: m }),
                _ => None,
            }
        } else {
            None
        },
        _ => None,
    }
}

/// Every element of the document has a typed reading.
pub open spec fn is_wire_plan(ds: Seq<StepDocModel>) -> bool {
    forall|i: int| 0 <= i < ds.len() ==> decode_step(#[trigger] ds[i]) is Some
}

/// The typed reading of a whole document: present only where every element
/// has one.
pub open spec fn decode_doc(ds: Seq<StepDocModel>) -> Option<Seq<StepModel>> {
    if is_wire_plan(ds) {
        Some(ds.map_values(|d: StepDocModel| decode_step(d)->0))
    } else {
        None
    }
}

/// The element that writes a step in the wire format.
pub open spec fn encode_step(s: StepModel) -> StepDocModel {
    match s {
        StepModel::Info { message } => StepDocModel {
            kind: Some(FieldModel::Str("info"@)),
            name: None,
            input: None,
            message: Some(FieldModel::Str(message)),
        },
        StepModel::ToolCall { name, input } => StepDocModel {
            kind: Some(FieldModel::Str("tool"@)),
            name: Some(FieldModel::Str(name)),
            input: Some(FieldModel::Str(input)),
            message: None,
        },
    }
}

pub open spec fn encode_plan(p: Seq<StepModel>) -> Seq<StepDocModel> {
    p.map_values(|s: StepModel| encode_step(s))
}

/// Decoding reads back every plan that was written in the wire format, step
/// for step and in the same order.
pub proof fn lemma_wire_round_trip(p: Seq<StepModel>)
    ensures
        decode_doc(encode_plan(p)) == Some(p),
{
    reveal_strlit("tool");
    reveal_strlit("info");
    let ds = encode_plan(p);
    assert forall|i: int| 0 <= i < ds.len() implies decode_step(#[trigger] ds[i]) == Some(p[i]) by {
        assert(ds[i] == encode_step(p[i]));
        assert("tool"@ != "info"@) by {
            assert("tool"@[0] != "info"@[0]);
        }
    }
    assert(is_wire_plan(ds));
    assert(ds.map_values(|d: StepDocModel| decode_step(d)->0) =~= p);
}

fn decode_one(d: &StepDoc) -> (r: Option<PlanStep>)
    ensures
        match r {
            Some(s) => decode_step(d@) == Some(s@),
            None => decode_step(d@) is None,
        },
{
    match &d.kind {
        Some(FieldValue::Str(t)) => {
            if eq_str(t.as_str(), "tool") {
                match (&d.name, &d.input) {
                    (Some(FieldValue::Str(n)), None) => Some(
                        PlanStep::ToolCall { name: n.clone(), input: String::new() },
                    ),
                    (Some(FieldValue::Str(n)), Some(FieldValue::Null)) => Some(
                        PlanStep::ToolCall { name: n.clone(), input: String::new() },
                    ),
                    (Some(FieldValue::Str(n)), Some(FieldValue::Str(i))) => Some(
                        PlanStep::ToolCall { name: n.clone(), input: i.clone() },
                    ),
                    _ => None,
                }
            } else if eq_str(t.as_str(), "info") {
                match &d.message {
                    Some(FieldValue::Str(m)) => Some(PlanStep::Info(m.clone())),
                    _ => None,
                }
            } else {
                None
            }
        },
        _ => None,
    }
}

/// Decodes a document into a plan; `None` where some element has no typed
/// reading. The plan keeps the elements' order and content.
pub fn decode_document(docs: &Vec<StepDoc>) -> (r: Option<Plan>)
    ensures
        r is Some <==> is_wire_plan(doc_views(docs@)),
        match r {
            Some(p) => Some(p@) == decode_doc(doc_views(docs@)) && p@.len() == docs@.len()
                && forall|i: int|
                0 <= i < docs@.len() ==> decode_step(docs@[i]@) == Some(#[trigger] p@[i]),
            None => true,
        },
{
    let mut steps: Vec<PlanStep> = Vec::new();
    let mut i: usize = 0;
    while i < docs.len()
        invariant
            i <= docs.len(),
            steps@.len() == i,
            forall|k: int| 0 <= k < i ==> decode_step(docs@[k]@) == Some(#[trigger] steps@[k]@),
        decreases docs.len() - i,
    {
        match decode_one(&docs[i]) {
            Some(s) => {
                steps.push(s);
            },
            None => {
                proof {
                    let ds = doc_views(docs@);
                    assert(ds[i as int] == docs@[i as int]@);
                }
                return None;
            },
        }
        i = i + 1;
    }
    let ghost sv = steps@;
    let p = Plan { steps };
    let ghost ds = doc_views(docs@);
    assert forall|k: int| 0 <= k < ds.len() implies decode_step(#[trigger] ds[k]) is Some by {
        assert(ds[k] == docs@[k]@);
        assert(decode_step(docs@[k]@) == Some(sv[k]@));
    }
    assert(ds.map_values(|d: StepDocModel| decode_step(d)->0) =~= p@);
    Some(p)
}

} // verus!
