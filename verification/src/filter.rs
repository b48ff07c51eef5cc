//! The search box above the list of fixes: a fix is shown when its name
//! holds the search text, letter case set aside.

use vstd::prelude::*;
use crate::config::Config;

verus! {

/// The lower-case form of a text, as `str::to_lowercase` of the standard
/// library gives it. It depends on the text alone.
pub uninterp spec fn lowercase_of(text: Seq<char>) -> Seq<char>;

/// Whether `needle` stands in `text` from the place `start` on.
pub open spec fn occurs_at(needle: Seq<char>, text: Seq<char>, start: int) -> bool {
    &&& 0 <= start
    &&& start + needle.len() <= text.len()
    &&& text.subrange(start, start + needle.len()) == needle
}

/// Whether `needle` stands somewhere in `text` as a run of neighbouring
/// characters. The empty text stands in every text.
pub open spec fn occurs_in(needle: Seq<char>, text: Seq<char>) -> bool {
    exists|start: int| occurs_at(needle, text, start)
}

/// Whether a fix of the given name is shown under the given search text:
/// the lower-case form of the search text stands in that of the name.
pub open spec fn name_matches(name: Seq<char>, filter: Seq<char>) -> bool {
    occurs_in(lowercase_of(filter), lowercase_of(name))
}

/// Calls `str::to_lowercase` of the standard library. Nothing is proved of
/// its result; the contract gives it the name `lowercase_of`.
#[verifier::external_body]
fn to_lowercase(text: &str) -> (lowered: String)
    ensures
        lowered@ == lowercase_of(text@),
{
    text.to_lowercase()
}

/// Calls `str::contains` of the standard library with a string as the
/// pattern. Believed of it: it tells whether the pattern is a sub-slice of
/// the text, which for two strings is to say that the characters of the
/// pattern stand in the text as neighbours.
#[verifier::external_body]
fn str_contains(text: &str, needle: &str) -> (found: bool)
    ensures
        found == occurs_in(needle@, text@),
{
    text.contains(needle)
}

/// Whether `needle` stands somewhere in `text`, letter case counted.
pub fn text_occurs_in(needle: &str, text: &str) -> (found: bool)
    ensures
        found == occurs_in(needle@, text@),
{
    str_contains(text, needle)
}

/// Whether a fix named `name` is shown when the search box holds `filter`.
pub fn matches_filter(name: &str, filter: &str) -> (shown: bool)
    ensures
        shown == name_matches(name@, filter@),
{
    let lowered_name = to_lowercase(name);
    let lowered_filter = to_lowercase(filter);
    text_occurs_in(lowered_filter.as_str(), lowered_name.as_str())
}

impl Config {
    /// The places in the list of the fixes that are shown when the search
    /// box holds `filter`: each such place once, in rising order.
    pub fn visible_fixes(&self, filter: &str) -> (shown: Vec<usize>)
        ensures
            forall|k: int|
                0 <= k < shown.len() ==> (#[trigger] shown@[k]) < self.fixes.len() && name_matches(
                    self@.fixes[shown@[k] as int].name,
                    filter@,
                ),
            forall|k: int, l: int| 0 <= k < l < shown.len() ==> shown@[k] < shown@[l],
            forall|i: int|
                0 <= i < self.fixes.len() && name_matches((#[trigger] self@.fixes[i]).name, filter@)
                    ==> shown@.contains(i as usize),
    {
        let lowered_filter = to_lowercase(filter);
        let mut shown: Vec<usize> = Vec::new();
        let mut i: usize = 0;
        while i < self.fixes.len()
            invariant
                i <= self.fixes.len(),
                lowered_filter@ == lowercase_of(filter@),
                forall|k: int|
                    0 <= k < shown.len() ==> (#[trigger] shown@[k]) < i && name_matches(
                        self@.fixes[shown@[k] as int].name,
                        filter@,
                    ),
                forall|k: int, l: int| 0 <= k < l < shown.len() ==> shown@[k] < shown@[l],
                forall|j: int|
                    0 <= j < i && name_matches((#[trigger] self@.fixes[j]).name, filter@)
                        ==> shown@.contains(j as usize),
            decreases self.fixes.len() - i,
        {
            let lowered_name = to_lowercase(self.fixes[i].name.as_str());
            let ghost before = shown@;
            assert(self@.fixes[i as int].name == self.fixes@[i as int].name@);
            if text_occurs_in(lowered_filter.as_str(), lowered_name.as_str()) {
                shown.push(i);
                proof {
                    assert(shown@[before.len() as int] == i);
                    assert forall|j: int|
                        0 <= j < i + 1 && name_matches(
                            (#[trigger] self@.fixes[j]).name,
                            filter@,
                        ) implies shown@.contains(j as usize) by {
                        if j < i {
                            assert(before.contains(j as usize));
                            let k = choose|k: int| 0 <= k < before.len() && before[k] == j as usize;
                            assert(shown@[k] == j as usize);
                        }
                    }
                }
            }
            i += 1;
        }
        shown
    }
}

} // verus!
