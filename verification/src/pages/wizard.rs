//! The step indicator of the step-by-step pages (the document generator and
//! the AI tooling walkthrough): a step is highlighted once it is reached.

use vstd::prelude::*;

verus! {

/// The CSS class of the indicator of step `k` while the page is at step
/// `current`: "tag woo" once the step is reached, "tag" before.
pub fn step_tag_class(current: i32, k: i32) -> (r: &'static str)
    ensures
        r@ == (if current >= k {
            "tag woo"@
        } else {
            "tag"@
        }),
{
    if current >= k {
        "tag woo"
    } else {
        "tag"
    }
}

} // verus!
