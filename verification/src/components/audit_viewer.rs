//! The audit trail viewer: which entry is expanded, and the viewer's style
//! and heading.

use vstd::prelude::*;

verus! {

/// The expanded entry after a click on entry `idx`: clicking the expanded
/// entry collapses it, clicking another entry expands that one instead.
pub open spec fn expanded_after(current: Option<usize>, idx: usize) -> Option<usize> {
    if current == Some(idx) {
        None
    } else {
        Some(idx)
    }
}

/// The expanded entry after a click on entry `idx`.
pub fn toggle_expanded(current: Option<usize>, idx: usize) -> (r: Option<usize>)
    ensures
        r == expanded_after(current, idx),
{
    match current {
        Some(i) if i == idx => None,
        _ => Some(idx),
    }
}

/// The CSS class of the viewer: "audit-trail", with "compact" added in
/// compact mode.
pub fn trail_class(compact: bool) -> (r: &'static str)
    ensures
        r@ == (if compact {
            "audit-trail compact"@
        } else {
            "audit-trail"@
        }),
{
    if compact {
        "audit-trail compact"
    } else {
        "audit-trail"
    }
}

/// The heading of the viewer: "Recente Activiteit" in compact mode,
/// "Audit Trail" otherwise.
pub fn trail_heading(compact: bool) -> (r: &'static str)
    ensures
        r@ == (if compact {
            "Recente Activiteit"@
        } else {
            "Audit Trail"@
        }),
{
    if compact {
        "Recente Activiteit"
    } else {
        "Audit Trail"
    }
}

/// Clicking an entry that is not expanded expands it, and clicking it again
/// collapses it.
pub proof fn law_toggle_expanded(current: Option<usize>, idx: usize)
    ensures
        current != Some(idx) ==> expanded_after(expanded_after(current, idx), idx) is None,
        current != Some(idx) ==> expanded_after(current, idx) == Some(idx),
        expanded_after(expanded_after(None, idx), idx) is None,
{
}

} // verus!
