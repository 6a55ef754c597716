//! Building the textual payloads: the single console/file line and the
//! bordered two-section template.

use vstd::prelude::*;
use crate::severity::{label, spec_label, Severity};

verus! {

/// The line written for a passing event: `[<name>] <SEVERITY> - <text>`.
pub open spec fn spec_line(name: Seq<char>, severity: Severity, text: Seq<char>) -> Seq<char> {
    "["@ + name + "] "@ + spec_label(severity) + " - "@ + text
}

/// The bordered two-section block built from a summary and its details.
pub open spec fn spec_template(summary: Seq<char>, details: Seq<char>) -> Seq<char> {
    "\n=====================\n"@ + summary + "\n---------------------\n"@ + details
        + "\n=====================\n"@
}

/// The text an event carries: the summary alone, or the bordered template
/// when details are given.
pub open spec fn spec_event_text(summary: Seq<char>, details: Option<Seq<char>>) -> Seq<char> {
    match details {
        Some(d) => spec_template(summary, d),
        None => summary,
    }
}

/// Builds the line written for a passing event.
pub fn format_line(name: &str, severity: Severity, text: &str) -> (r: String)
    ensures
        r@ == spec_line(name@, severity, text@),
{
    let mut line = String::from_str("[");
    line.append(name);
    line.append("] ");
    line.append(label(severity));
    line.append(" - ");
    line.append(text);
    proof {
        assert(line@ =~= spec_line(name@, severity, text@));
    }
    line
}

/// Builds the bordered two-section block from a summary and its details.
pub fn format_template(summary: &str, details: &str) -> (r: String)
    ensures
        r@ == spec_template(summary@, details@),
{
    let mut block = String::from_str("\n=====================\n");
    block.append(summary);
    block.append("\n---------------------\n");
    block.append(details);
    block.append("\n=====================\n");
    proof {
        assert(block@ =~= spec_template(summary@, details@));
    }
    block
}

/// Builds the text an event carries from its summary and optional details.
pub fn event_text(summary: &str, details: Option<&str>) -> (r: String)
    ensures
        r@ == spec_event_text(summary@, details.deep_view()),
{
    match details {
        Some(d) => format_template(summary, d),
        None => String::from_str(summary),
    }
}

} // verus!
