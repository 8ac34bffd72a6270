//! Accessibility tree decisions: which top-level elements of an
//! application are walked.
use vstd::prelude::*;

verus! {

/// The deepest level whose children are read when the UI tree is built.
pub open spec fn max_tree_depth() -> nat {
    64
}

/// The application's windows are walked as well where none of its children
/// is a window.
pub open spec fn append_windows(child_roles: Seq<Option<String>>, window_count: nat) -> bool {
    window_count > 0 && forall|i: int|
        0 <= i < child_roles.len() ==> !((#[trigger] child_roles[i]) matches Some(r) && r@
            == "AXWindow"@)
}

/// Whether the application's windows are walked as well as its children,
/// given the children's roles and the number of windows.
pub fn should_append_windows(child_roles: &Vec<Option<String>>, window_count: usize) -> (b: bool)
    ensures
        b == append_windows(child_roles@, window_count as nat),
{
    let n = child_roles.len();
    for i in 0..n
        invariant
            n == child_roles@.len(),
            forall|j: int|
                0 <= j < i ==> !((#[trigger] child_roles@[j]) matches Some(r) && r@ == "AXWindow"@),
    {
        match &child_roles[i] {
            Some(r) => {
                if crate::json::str_eq(r.as_str(), "AXWindow") {
                    return false;
                }
            },
            None => {},
        }
    }
    window_count > 0
}

/// Whether the children of an element at `depth` are read.
pub fn reads_children(depth: usize) -> (b: bool)
    ensures
        b == (depth < max_tree_depth()),
{
    depth < 64
}

} // verus!
