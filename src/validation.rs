//! Structural and referential checks of a plan document. The checks never
//! fail: they only collect warnings, each with a hint for the log.

use crate::document::{FieldModel, FieldValue, StepDoc, StepDocModel, doc_views};
use crate::json::{json_object, json_object_text, pair_views};
use crate::text::{chars_of, eq_str, in_list, views};
use crate::tools::opt_view;
use vstd::prelude::*;

verus! {

/// A warning about one element of a plan document.
#[derive(Clone, Debug, PartialEq, Eq)]
pub enum PlanValidationError {
    UnknownType(String),
    DuplicateKey(String),
    MissingField(String),
    InvalidTool(String),
    InvalidReference(String),
    ToolInputMismatch { tool: String, reason: String },
    RegexError(String),
    StyleWarning(String),
}

pub enum WarningModel {
    UnknownType(Seq<char>),
    DuplicateKey(Seq<char>),
    MissingField(Seq<char>),
    InvalidTool(Seq<char>),
    InvalidReference(Seq<char>),
    ToolInputMismatch { tool: Seq<char>, reason: Seq<char> },
    RegexError(Seq<char>),
    StyleWarning(Seq<char>),
}

impl View for PlanValidationError {
    type V = WarningModel;

    open spec fn view(&self) -> WarningModel {
        match self {
            PlanValidationError::UnknownType(s) => WarningModel::UnknownType(s@),
            PlanValidationError::DuplicateKey(s) => WarningModel::DuplicateKey(s@),
            PlanValidationError::MissingField(s) => WarningModel::MissingField(s@),
            PlanValidationError::InvalidTool(s) => WarningModel::InvalidTool(s@),
            PlanValidationError::InvalidReference(s) => WarningModel::InvalidReference(s@),
            PlanValidationError::ToolInputMismatch { tool, reason } => WarningModel::ToolInputMismatch {
                tool: tool@,
                reason: reason@,
            },
            PlanValidationError::RegexError(s) => WarningModel::RegexError(s@),
            PlanValidationError::StyleWarning(s) => WarningModel::StyleWarning(s@),
        }
    }
}

pub open spec fn warning_views(w: Seq<PlanValidationError>) -> Seq<WarningModel> {
    w.map_values(|e: PlanValidationError| e@)
}

/// The capability that takes no argument, and so needs no `input`.
pub open spec fn status_query() -> Seq<char> {
    "git_status"@
}

pub open spec fn placeholder_reason() -> Seq<char> {
    "Input contains placeholder like <file>"@
}

pub open spec fn type_not_text_reason() -> Seq<char> {
    "Field 'type' must be a string"@
}

/// `s` holds both angle brackets, as an unfilled template does.
pub open spec fn has_placeholder(s: Seq<char>) -> bool {
    s.contains('<') && s.contains('>')
}

/// The warnings of one tool element whose `name` is the text `n`.
pub open spec fn tool_warnings(n: Seq<char>, input: Option<FieldModel>, known: Seq<Seq<char>>) -> Seq<
    WarningModel,
> {
    (if known.contains(n) {
        seq![]
    } else {
        seq![WarningModel::InvalidTool(n)]
    }) + (if n != status_query() && input is None {
        seq![WarningModel::MissingField("input"@)]
    } else {
        seq![]
    }) + (match input {
        Some(FieldModel::Str(i)) => if has_placeholder(i) {
            seq![WarningModel::ToolInputMismatch { tool: n, reason: placeholder_reason() }]
        } else {
            seq![]
        },
        _ => seq![],
    })
}

/// The warnings of one element of a document.
pub open spec fn step_warnings(d: StepDocModel, known: Seq<Seq<char>>) -> Seq<WarningModel> {
    match d.kind {
        None => seq![WarningModel::MissingField("type"@)],
        Some(FieldModel::Str(t)) => if t == "tool"@ {
            match d.name {
                Some(FieldModel::Str(n)) => tool_warnings(n, d.input, known),
                _ => seq![WarningModel::MissingField("name"@)],
            }
        } else if t == "info"@ {
            if d.message is None {
                seq![WarningModel::MissingField("message"@)]
            } else {
                seq![]
            }
        } else {
            seq![WarningModel::UnknownType(t)]
        },
        Some(_) => seq![
            WarningModel::ToolInputMismatch { tool: "<unknown>"@, reason: type_not_text_reason() },
        ],
    }
}

/// The warnings of a whole document, element after element.
pub open spec fn plan_warnings(ds: Seq<StepDocModel>, known: Seq<Seq<char>>) -> Seq<WarningModel>
    decreases ds.len(),
{
    if ds.len() == 0 {
        seq![]
    } else {
        plan_warnings(ds.drop_last(), known) + step_warnings(ds.last(), known)
    }
}

fn contains_char(s: &str, c: char) -> (r: bool)
    ensures
        r == s@.contains(c),
{
    let cs = chars_of(s);
    let mut i: usize = 0;
    while i < cs.len()
        invariant
            cs@ == s@,
            i <= cs.len(),
            forall|k: int| 0 <= k < i ==> cs@[k] != c,
        decreases cs.len() - i,
    {
        if cs[i] == c {
            return true;
        }
        i = i + 1;
    }
    false
}

fn warnings_of_step(d: &StepDoc, known: &Vec<String>) -> (r: Vec<PlanValidationError>)
    ensures
        warning_views(r@) == step_warnings(d@, views(known@)),
{
    let mut out: Vec<PlanValidationError> = Vec::new();
    match &d.kind {
        None => {
            out.push(PlanValidationError::MissingField(String::from_str("type")));
        },
        Some(FieldValue::Str(t)) => {
            if eq_str(t.as_str(), "tool") {
                match &d.name {
                    Some(FieldValue::Str(n)) => {
                        if !in_list(n.as_str(), known) {
                            out.push(PlanValidationError::InvalidTool(n.clone()));
                        }
                        if !eq_str(n.as_str(), "git_status") && d.input.is_none() {
                            out.push(PlanValidationError::MissingField(String::from_str("input")));
                        }
                        match &d.input {
                            Some(FieldValue::Str(i)) => {
                                if contains_char(i.as_str(), '<') && contains_char(i.as_str(), '>') {
                                    out.push(
                                        PlanValidationError::ToolInputMismatch {
                                            tool: n.clone(),
                                            reason: String::from_str(
                                                "Input contains placeholder like <file>",
                                            ),
                                        },
                                    );
                                }
                            },
                            _ => {},
                        }
                    },
                    _ => {
                        out.push(PlanValidationError::MissingField(String::from_str("name")));
                    },
                }
            } else if eq_str(t.as_str(), "info") {
                if d.message.is_none() {
                    out.push(PlanValidationError::MissingField(String::from_str("message")));
                }
            } else {
                out.push(PlanValidationError::UnknownType(t.clone()));
            }
        },
        Some(_) => {
            out.push(
                PlanValidationError::ToolInputMismatch {
                    tool: String::from_str("<unknown>"),
                    reason: String::from_str("Field 'type' must be a string"),
                },
            );
        },
    }
    assert(warning_views(out@) =~= step_warnings(d@, views(known@)));
    out
}

/// Checks every element of a plan document against the known capability
/// names and collects the warnings, element after element.
pub fn validate_plan(plan: &Vec<StepDoc>, registered_tools: &Vec<String>) -> (r: Vec<
    PlanValidationError,
>)
    ensures
        warning_views(r@) == plan_warnings(doc_views(plan@), views(registered_tools@)),
{
    let mut out: Vec<PlanValidationError> = Vec::new();
    let mut i: usize = 0;
    while i < plan.len()
        invariant
            i <= plan.len(),
            warning_views(out@) == plan_warnings(
                doc_views(plan@).take(i as int),
                views(registered_tools@),
            ),
        decreases plan.len() - i,
    {
        let mut w = warnings_of_step(&plan[i], registered_tools);
        let ghost before = out@;
        let ghost wv = w@;
        out.append(&mut w);
        proof {
            assert(out@ == before + wv);
            let ds = doc_views(plan@).take(i + 1);
            assert(ds.drop_last() =~= doc_views(plan@).take(i as int));
            assert(ds.last() == plan@[i as int]@);
            assert(warning_views(out@) =~= warning_views(before) + warning_views(wv));
        }
        i = i + 1;
    }
    assert(doc_views(plan@).take(plan.len() as int) =~= doc_views(plan@));
    out
}

/// Every warning of one element is among the warnings of the document.
pub proof fn lemma_step_warnings_in_plan(
    ds: Seq<StepDocModel>,
    known: Seq<Seq<char>>,
    i: int,
    w: WarningModel,
)
    requires
        0 <= i < ds.len(),
        step_warnings(ds[i], known).contains(w),
    ensures
        plan_warnings(ds, known).contains(w),
    decreases ds.len(),
{
    let rest = plan_warnings(ds.drop_last(), known);
    let last = step_warnings(ds.last(), known);
    if i == ds.len() - 1 {
        let k = choose|k: int| 0 <= k < last.len() && last[k] == w;
        assert((rest + last)[rest.len() + k] == w);
    } else {
        lemma_step_warnings_in_plan(ds.drop_last(), known, i, w);
        let k = choose|k: int| 0 <= k < rest.len() && rest[k] == w;
        assert((rest + last)[k] == w);
    }
}

/// A tool element that names a capability other than the status query and
/// has no `input` is always reported as missing its `input`.
pub proof fn lemma_missing_input_reported(
    ds: Seq<StepDocModel>,
    known: Seq<Seq<char>>,
    i: int,
    n: Seq<char>,
)
    requires
        0 <= i < ds.len(),
        ds[i].kind == Some(FieldModel::Str("tool"@)),
        ds[i].name == Some(FieldModel::Str(n)),
        n != status_query(),
        ds[i].input is None,
    ensures
        plan_warnings(ds, known).contains(WarningModel::MissingField("input"@)),
{
    let w = WarningModel::MissingField("input"@);
    let s = step_warnings(ds[i], known);
    let a = if known.contains(n) {
        seq![]
    } else {
        seq![WarningModel::InvalidTool(n)]
    };
    assert(s == tool_warnings(n, ds[i].input, known));
    assert(s =~= a + seq![w]);
    assert(s[a.len() as int] == w);
    lemma_step_warnings_in_plan(ds, known, i, w);
}

/// A tool element whose `input` holds both `<` and `>` is always reported as
/// an unfilled template, whether or not its capability is known.
pub proof fn lemma_placeholder_reported(
    ds: Seq<StepDocModel>,
    known: Seq<Seq<char>>,
    i: int,
    n: Seq<char>,
    input: Seq<char>,
)
    requires
        0 <= i < ds.len(),
        ds[i].kind == Some(FieldModel::Str("tool"@)),
        ds[i].name == Some(FieldModel::Str(n)),
        ds[i].input == Some(FieldModel::Str(input)),
        has_placeholder(input),
    ensures
        plan_warnings(ds, known).contains(
            WarningModel::ToolInputMismatch { tool: n, reason: placeholder_reason() },
        ),
{
    let w = WarningModel::ToolInputMismatch { tool: n, reason: placeholder_reason() };
    let s = step_warnings(ds[i], known);
    assert(s == tool_warnings(n, ds[i].input, known));
    assert(s.last() == w);
    lemma_step_warnings_in_plan(ds, known, i, w);
}

/// The message of a warning's hint.
pub open spec fn hint_message(w: WarningModel) -> Seq<char> {
    match w {
        WarningModel::UnknownType(_) => "Unknown step type. Only 'tool' or 'info' are valid."@,
        WarningModel::DuplicateKey(_) => "Duplicate key in step. Only one of each key is allowed."@,
        WarningModel::MissingField(_) => "Missing required field."@,
        WarningModel::InvalidTool(_) => "Unknown tool used. Make sure it's registered."@,
        WarningModel::InvalidReference(_) => "Reference to output of nonexistent step."@,
        WarningModel::ToolInputMismatch { .. } => "Tool input is invalid or unsafe."@,
        WarningModel::RegexError(_) => "Regex error in condition."@,
        WarningModel::StyleWarning(m) => m,
    }
}

/// The corrected-example fragment of a warning's hint: the JSON object
/// with these members, as serde_json writes it.
pub open spec fn hint_example(w: WarningModel) -> Option<Seq<char>> {
    match w {
        WarningModel::UnknownType(_) => Some(
            json_object_text(
                seq![("type"@, "tool"@), ("name"@, "example_tool"@), ("input"@, "..."@)],
            ),
        ),
        WarningModel::DuplicateKey(_) => None,
        WarningModel::MissingField(f) => Some(json_object_text(seq![(f, "<required>"@)])),
        WarningModel::InvalidTool(n) => Some(
            json_object_text(seq![("name"@, n), ("input"@, "..."@)]),
        ),
        WarningModel::InvalidReference(v) => Some(json_object_text(seq![("reference"@, v)])),
        WarningModel::ToolInputMismatch { tool, reason } => Some(
            json_object_text(seq![("tool"@, tool), ("reason"@, reason)]),
        ),
        WarningModel::RegexError(d) => Some(json_object_text(seq![("error"@, d)])),
        WarningModel::StyleWarning(_) => None,
    }
}

/// The JSON object with the given members, as serde_json writes it.
fn object(pairs: Vec<(&str, &str)>) -> (r: String)
    ensures
        r@ == json_object_text(pair_views(pairs@)),
{
    json_object(&pairs)
}

impl PlanValidationError {
    /// A message for the log, and where one helps, a corrected example.
    pub fn hint(&self) -> (r: (String, Option<String>))
        ensures
            r.0@ == hint_message(self@),
            opt_view(r.1) == hint_example(self@),
    {
        match self {
            PlanValidationError::UnknownType(_) => {
                let pairs = vec![("type", "tool"), ("name", "example_tool"), ("input", "...")];
                assert(pair_views(pairs@) =~= seq![
                    ("type"@, "tool"@),
                    ("name"@, "example_tool"@),
                    ("input"@, "..."@),
                ]);
                (
                    String::from_str("Unknown step type. Only 'tool' or 'info' are valid."),
                    Some(object(pairs)),
                )
            },
            PlanValidationError::DuplicateKey(_) => (
                String::from_str("Duplicate key in step. Only one of each key is allowed."),
                None,
            ),
            PlanValidationError::MissingField(f) => {
                let pairs = vec![(f.as_str(), "<required>")];
                assert(pair_views(pairs@) =~= seq![(f@, "<required>"@)]);
                (String::from_str("Missing required field."), Some(object(pairs)))
            },
            PlanValidationError::InvalidTool(n) => {
                let pairs = vec![("name", n.as_str()), ("input", "...")];
                assert(pair_views(pairs@) =~= seq![("name"@, n@), ("input"@, "..."@)]);
                (String::from_str("Unknown tool used. Make sure it's registered."), Some(object(pairs)))
            },
            PlanValidationError::InvalidReference(v) => {
                let pairs = vec![("reference", v.as_str())];
                assert(pair_views(pairs@) =~= seq![("reference"@, v@)]);
                (String::from_str("Reference to output of nonexistent step."), Some(object(pairs)))
            },
            PlanValidationError::ToolInputMismatch { tool, reason } => {
                let pairs = vec![("tool", tool.as_str()), ("reason", reason.as_str())];
                assert(pair_views(pairs@) =~= seq![("tool"@, tool@), ("reason"@, reason@)]);
                (String::from_str("Tool input is invalid or unsafe."), Some(object(pairs)))
            },
            PlanValidationError::RegexError(d) => {
                let pairs = vec![("error", d.as_str())];
                assert(pair_views(pairs@) =~= seq![("error"@, d@)]);
                (String::from_str("Regex error in condition."), Some(object(pairs)))
            },
            PlanValidationError::StyleWarning(m) => (m.clone(), None),
        }
    }
}

} // verus!
