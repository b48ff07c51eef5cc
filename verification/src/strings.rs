//! Lists of strings as mathematical values.

use vstd::prelude::*;

verus! {

/// The values of a list of strings, in order.
pub open spec fn string_views(strings: Seq<String>) -> Seq<Seq<char>> {
    strings.map_values(|s: String| s@)
}

} // verus!
