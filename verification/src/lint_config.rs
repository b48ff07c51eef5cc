//! The text of the `.clang-tidy` file that is written before each run of the
//! linter: every check switched off, then the wanted ones switched on.

use vstd::prelude::*;
use crate::strings::string_views;

verus! {

/// The check selection that switches every check off and then the given
/// ones on, in order: `-*` followed by a comma and a name for each of them.
pub open spec fn check_selection_text(checks: Seq<Seq<char>>) -> Seq<char> {
    "-*"@ + checks.map_values(|check: Seq<char>| ","@ + check).flatten()
}

/// The whole lint configuration for the given checks. Everything but the
/// selection is fixed: no warnings as errors, no header filter, no format
/// style, no extra arguments.
pub open spec fn lint_configuration_text(checks: Seq<Seq<char>>) -> Seq<char> {
    "Checks: '"@ + check_selection_text(checks)
        + "'\nWarningsAsErrors: ''\nHeaderFilterRegex: ''\nFormatStyle: none\nUser: ''\nExtraArgs: []\nExtraArgsBefore: []\n"@
}

/// Builds the check selection for the given checks.
pub fn check_selection(checks: &Vec<String>) -> (selection: String)
    ensures
        selection@ == check_selection_text(string_views(checks@)),
{
    let mut selection = String::from_str("-*");
    let ghost enable = |check: Seq<char>| ","@ + check;
    let mut i: usize = 0;
    while i < checks.len()
        invariant
            i <= checks.len(),
            enable == |check: Seq<char>| ","@ + check,
            selection@ == "-*"@ + string_views(checks@.take(i as int)).map_values(
                enable,
            ).flatten(),
        decreases checks.len() - i,
    {
        proof {
            let done = string_views(checks@.take(i as int));
            let name = checks@[i as int]@;
            assert(checks@.take(i + 1) =~= checks@.take(i as int).push(checks@[i as int]));
            assert(string_views(checks@.take(i + 1)) =~= done.push(name));
            assert(done.push(name).map_values(enable) =~= done.map_values(enable).push(
                enable(name),
            ));
            done.map_values(enable).lemma_flatten_push(enable(name));
        }
        selection.append(",");
        selection.append(checks[i].as_str());
        i += 1;
    }
    assert(checks@.take(i as int) =~= checks@);
    selection
}

/// Builds the contents of the `.clang-tidy` file that selects the given
/// checks and no others.
pub fn lint_configuration(checks: &Vec<String>) -> (contents: String)
    ensures
        contents@ == lint_configuration_text(string_views(checks@)),
{
    let mut contents = String::from_str("Checks: '");
    let selection = check_selection(checks);
    contents.append(selection.as_str());
    contents.append(
        "'\nWarningsAsErrors: ''\nHeaderFilterRegex: ''\nFormatStyle: none\nUser: ''\nExtraArgs: []\nExtraArgsBefore: []\n",
    );
    contents
}

} // verus!
