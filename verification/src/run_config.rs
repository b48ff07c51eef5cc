//! What a run works from: a copy of the paths and of the list of fixes,
//! taken when the run starts.

use vstd::prelude::*;
use crate::config::{copy_fixes, fix_views, Config, Fix, FixView};
use crate::strings::string_views;

verus! {

/// The paths and fixes of one run. The run owns this value: changing the
/// stored configuration afterwards does not reach a run that has started.
#[derive(Debug)]
pub struct RunConfiguration {
    pub tool_path: String,
    pub project_path: String,
    pub fixes: Vec<Fix>,
}

/// The mathematical value of a [`RunConfiguration`].
pub struct RunConfigurationView {
    pub tool_path: Seq<char>,
    pub project_path: Seq<char>,
    pub fixes: Seq<FixView>,
}

impl View for RunConfiguration {
    type V = RunConfigurationView;

    open spec fn view(&self) -> RunConfigurationView {
        RunConfigurationView {
            tool_path: self.tool_path@,
            project_path: self.project_path@,
            fixes: fix_views(self.fixes@),
        }
    }
}

/// The names of the selected fixes of a list, in the order of the list.
pub open spec fn enabled_names(fixes: Seq<FixView>) -> Seq<Seq<char>> {
    fixes.filter(|fix: FixView| fix.enabled).map_values(|fix: FixView| fix.name)
}

/// A list in which no fix is selected has no selected names.
pub proof fn lemma_enabled_names_of_none(fixes: Seq<FixView>)
    requires
        forall|i: int| 0 <= i < fixes.len() ==> !(#[trigger] fixes[i]).enabled,
    ensures
        enabled_names(fixes).len() == 0,
    decreases fixes.len(),
{
    reveal(Seq::filter);
    if fixes.len() > 0 {
        assert forall|i: int| 0 <= i < fixes.drop_last().len() implies !(
        #[trigger] fixes.drop_last()[i]).enabled by {
            assert(fixes.drop_last()[i] == fixes[i]);
        }
        lemma_enabled_names_of_none(fixes.drop_last());
        assert(!fixes[fixes.len() - 1].enabled);
    }
}

/// Collects the names of the selected fixes, in the order of the list.
pub fn enabled_fix_names(fixes: &Vec<Fix>) -> (names: Vec<String>)
    ensures
        string_views(names@) == enabled_names(fix_views(fixes@)),
{
    let mut names: Vec<String> = Vec::new();
    let ghost selected = |fix: FixView| fix.enabled;
    let ghost name_of = |fix: FixView| fix.name;
    let mut i: usize = 0;
    proof {
        reveal(Seq::filter);
        assert(fix_views(fixes@.take(0)) =~= Seq::<FixView>::empty());
        assert(string_views(names@) =~= Seq::<FixView>::empty().filter(selected).map_values(
            name_of,
        ));
    }
    while i < fixes.len()
        invariant
            i <= fixes.len(),
            selected == |fix: FixView| fix.enabled,
            name_of == |fix: FixView| fix.name,
            string_views(names@) == fix_views(fixes@.take(i as int)).filter(selected).map_values(
                name_of,
            ),
        decreases fixes.len() - i,
    {
        let ghost before = names@;
        proof {
            let seen = fix_views(fixes@.take(i as int));
            assert(fixes@.take(i + 1) =~= fixes@.take(i as int).push(fixes@[i as int]));
            assert(fix_views(fixes@.take(i + 1)) =~= seen.push(fixes@[i as int]@));
            seen.lemma_filter_push(fixes@[i as int]@, selected);
        }
        if fixes[i].enabled {
            let name = fixes[i].name.clone();
            names.push(name);
            proof {
                let seen = fix_views(fixes@.take(i as int));
                assert(string_views(names@) =~= string_views(before).push(name@));
                assert(seen.filter(selected).push(fixes@[i as int]@).map_values(name_of)
                    =~= seen.filter(selected).map_values(name_of).push(name@));
            }
        }
        i += 1;
    }
    assert(fixes@.take(i as int) =~= fixes@);
    names
}

impl Config {
    /// Copies out of the configuration what a run works from.
    pub fn run_configuration(&self) -> (run: RunConfiguration)
        ensures
            run@ == (RunConfigurationView {
                tool_path: self@.run_clang_tidy_path,
                project_path: self@.project_path,
                fixes: self@.fixes,
            }),
    {
        RunConfiguration {
            tool_path: self.run_clang_tidy_path.clone(),
            project_path: self.project_path.clone(),
            fixes: copy_fixes(&self.fixes),
        }
    }
}

} // verus!
