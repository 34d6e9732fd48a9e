//! Desktop notifications: how urgent a notice is, and the line printed in
//! its place when no notification can be shown.

use vstd::prelude::*;
use crate::text::{concat2, concat3, same_text};

verus! {

/// How urgent a desktop notification is.
pub enum Urgency {
    Low,
    Normal,
    Critical,
}

/// The urgency a label names: `critical` and `low`, and normal for any
/// other label.
pub open spec fn urgency_spec(label: Seq<char>) -> Urgency {
    if label == "critical"@ {
        Urgency::Critical
    } else if label == "low"@ {
        Urgency::Low
    } else {
        Urgency::Normal
    }
}

/// The urgency that a label names.
pub fn urgency_from_label(label: &str) -> (r: Urgency)
    ensures
        r == urgency_spec(label@),
{
    if same_text(label, "critical") {
        Urgency::Critical
    } else if same_text(label, "low") {
        Urgency::Low
    } else {
        Urgency::Normal
    }
}

/// The line printed when a notification cannot be shown.
pub open spec fn fallback_line_spec(title: Seq<char>, message: Seq<char>) -> Seq<char> {
    "[NOTIFY] "@ + title + ": "@ + message
}

/// The line printed when a notification cannot be shown.
pub fn fallback_line(title: &str, message: &str) -> (r: String)
    ensures
        r@ == fallback_line_spec(title@, message@),
{
    let head = concat3("[NOTIFY] ", title, ": ");
    concat2(head.as_str(), message)
}

} // verus!
