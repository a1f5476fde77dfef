//! Text helpers shared by every list the dashboard renders.

use vstd::prelude::*;
use vstd::string::StringExecFns;

verus! {

/// A list entry with its activity marker: a filled square for an active
/// item, a blank for an inactive one, then a space and the item's text.
pub fn toggleable_item(item: &str, active: bool) -> (r: String)
    ensures
        active ==> r@ == "■ "@ + item@,
        !active ==> r@ == "  "@ + item@,
{
    let mut s = if active {
        "■ ".to_owned()
    } else {
        "  ".to_owned()
    };
    s.append(item);
    s
}

} // verus!
