//! Document types for testlist definitions: the immutable description of
//! what a human tester is asked to walk through.

use vstd::prelude::*;

verus! {

/// Metadata of a testlist definition.
#[derive(Debug, Clone)]
pub struct Meta {
    pub title: String,
    pub description: String,
    pub created: String,
    pub version: String,
}

/// A checklist step with a stable ID and its wording. The ID survives edits
/// to the wording, so recorded check states stay attached to the right step.
#[derive(Debug, Clone)]
pub struct ChecklistItem {
    pub id: String,
    pub text: String,
}

/// A single test: a header, optional setup steps, one action line, and
/// optional verify steps.
#[derive(Debug, Clone)]
pub struct Test {
    pub id: String,
    pub title: String,
    pub description: String,
    pub setup: Vec<ChecklistItem>,
    pub action: String,
    pub verify: Vec<ChecklistItem>,
    pub suggested_command: Option<String>,
}

/// Root of a testlist definition document.
#[derive(Debug, Clone)]
pub struct Testlist {
    pub meta: Meta,
    pub tests: Vec<Test>,
}

/// One step as an older document writes it: either bare text, which still
/// needs a generated ID, or a full item that brings its own.
#[derive(Debug, Clone)]
pub enum RawStep {
    Text(String),
    Item(ChecklistItem),
}

/// The decimal digit character for a value below ten.
pub open spec fn decimal_digit(d: int) -> char {
    ((48 + d) as u8) as char
}

/// The decimal writing of a number, most significant digit first.
pub open spec fn dec_rep(n: int) -> Seq<char>
    decreases n,
{
    if n < 10 {
        seq![decimal_digit(n)]
    } else {
        dec_rep(n / 10).push(decimal_digit(n % 10))
    }
}

/// The ID generated for the bare step at position `i` of a section:
/// the section's prefix, a dash, and the position in decimal.
pub open spec fn generated_step_id(prefix: Seq<char>, i: int) -> Seq<char> {
    prefix.push('-') + dec_rep(i)
}

/// How one raw step resolves at position `i`: bare text gets the
/// generated ID and keeps its wording, a full item passes unchanged.
pub open spec fn step_resolved(step: RawStep, prefix: Seq<char>, i: int, r: ChecklistItem) -> bool {
    match step {
        RawStep::Text(text) => r.id@ == generated_step_id(prefix, i) && r.text@ == text@,
        RawStep::Item(item) => r == item,
    }
}

/// The decimal digit character for a value below ten.
fn decimal_digit_char(d: usize) -> (r: char)
    requires
        d < 10,
    ensures
        r == decimal_digit(d as int),
{
    (48 + d as u8) as char
}

/// A number in decimal.
fn decimal_string(n: usize) -> (r: String)
    ensures
        r@ == dec_rep(n as int),
    decreases n,
{
    if n < 10 {
        let mut s = String::new();
        s.push(decimal_digit_char(n));
        proof {
            assert(s@ =~= seq![decimal_digit(n as int)]);
        }
        s
    } else {
        let mut s = decimal_string(n / 10);
        s.push(decimal_digit_char(n % 10));
        s
    }
}

/// Resolve the steps of one section as older documents wrote them: a bare
/// string at position `i` becomes an item with the ID `"{prefix}-{i}"`
/// and the string as its wording; an item that brings its own ID passes
/// unchanged.
pub fn checklist_items_with_ids(prefix: &str, steps: Vec<RawStep>) -> (r: Vec<ChecklistItem>)
    ensures
        r@.len() == steps@.len(),
        forall|i: int|
            0 <= i < steps@.len() ==> step_resolved(steps@[i], prefix@, i, #[trigger] r@[i]),
{
    let mut steps = steps;
    let ghost snap = steps@;
    let mut out: Vec<ChecklistItem> = Vec::new();
    let n = steps.len();
    for i in 0..n
        invariant
            n == steps@.len(),
            steps@.len() == snap.len(),
            forall|j: int| i <= j < snap.len() ==> steps@[j] == snap[j],
            out@.len() == i,
            forall|j: int| 0 <= j < i ==> step_resolved(snap[j], prefix@, j, #[trigger] out@[j]),
    {
        let mut tmp = RawStep::Text(String::new());
        steps.set_and_swap(i, &mut tmp);
        match tmp {
            RawStep::Text(text) => {
                let mut id = String::new();
                id.push_str(prefix);
                id.push('-');
                let num = decimal_string(i);
                id.push_str(num.as_str());
                proof {
                    assert(id@ =~= generated_step_id(prefix@, i as int));
                }
                out.push(ChecklistItem { id, text });
            },
            RawStep::Item(item) => {
                out.push(item);
            },
        }
    }
    out
}

} // verus!
