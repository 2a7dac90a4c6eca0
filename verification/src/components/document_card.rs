//! The document card of the approval queue: the style of a document's
//! workflow state.

use vstd::prelude::*;
use crate::text::str_eq;

verus! {

/// The CSS class of a document state: drafts, pending (submitted or in
/// review), approved, published and rejected documents each have their
/// own; any other state is unknown.
pub open spec fn state_class_text(state: Seq<char>) -> Seq<char> {
    if state == "draft"@ {
        "state-draft"@
    } else if state == "submitted"@ || state == "in_review"@ {
        "state-pending"@
    } else if state == "approved"@ {
        "state-approved"@
    } else if state == "published"@ {
        "state-published"@
    } else if state == "rejected"@ {
        "state-rejected"@
    } else {
        "state-unknown"@
    }
}

/// The CSS class of a document state.
pub fn state_class(state: &str) -> (r: &'static str)
    ensures
        r@ == state_class_text(state@),
{
    if str_eq(state, "draft") {
        "state-draft"
    } else if str_eq(state, "submitted") || str_eq(state, "in_review") {
        "state-pending"
    } else if str_eq(state, "approved") {
        "state-approved"
    } else if str_eq(state, "published") {
        "state-published"
    } else if str_eq(state, "rejected") {
        "state-rejected"
    } else {
        "state-unknown"
    }
}

/// The CSS class of a document card: "document-card", with "selected"
/// added for the selected card.
pub fn card_class(selected: bool) -> (r: &'static str)
    ensures
        r@ == (if selected {
            "document-card selected"@
        } else {
            "document-card"@
        }),
{
    if selected {
        "document-card selected"
    } else {
        "document-card"
    }
}

} // verus!
