//! The stored configuration: tool and project paths and the list of fixes.

use vstd::prelude::*;

verus! {

/// A clang-tidy check that can be applied as a fix, and whether the user
/// selected it.
#[derive(Debug)]
pub struct Fix {
    pub name: String,
    pub enabled: bool,
}

/// The mathematical value of a [`Fix`].
pub struct FixView {
    pub name: Seq<char>,
    pub enabled: bool,
}

impl View for Fix {
    type V = FixView;

    open spec fn view(&self) -> FixView {
        FixView { name: self.name@, enabled: self.enabled }
    }
}

/// The values of a list of fixes, in order.
pub open spec fn fix_views(fixes: Seq<Fix>) -> Seq<FixView> {
    fixes.map_values(|fix: Fix| fix@)
}

impl Clone for Fix {
    fn clone(&self) -> (copy: Fix)
        ensures
            copy@ == self@,
    {
        Fix { name: self.name.clone(), enabled: self.enabled }
    }
}

/// Copies a list of fixes.
pub fn copy_fixes(fixes: &Vec<Fix>) -> (copy: Vec<Fix>)
    ensures
        fix_views(copy@) == fix_views(fixes@),
{
    let mut copy: Vec<Fix> = Vec::new();
    let mut i: usize = 0;
    while i < fixes.len()
        invariant
            i <= fixes.len(),
            fix_views(copy@) == fix_views(fixes@.take(i as int)),
        decreases fixes.len() - i,
    {
        proof {
            assert(fixes@.take(i + 1) =~= fixes@.take(i as int).push(fixes@[i as int]));
            assert(fix_views(fixes@.take(i + 1)) =~= fix_views(fixes@.take(i as int)).push(
                fixes@[i as int]@,
            ));
        }
        let ghost before = copy@;
        let fix = fixes[i].clone();
        copy.push(fix);
        assert(fix_views(copy@) =~= fix_views(before).push(fix@));
        i += 1;
    }
    assert(fixes@.take(i as int) =~= fixes@);
    copy
}

impl Fix {
    /// A fix that is not selected: the state in which a newly found check
    /// enters the list.
    pub fn disabled(name: String) -> (fix: Fix)
        ensures
            fix@ == (FixView { name: name@, enabled: false }),
    {
        Fix { name, enabled: false }
    }
}

/// The stored configuration of the tool.
#[derive(Debug)]
pub struct Config {
    pub run_clang_tidy_path: String,
    pub build_commands_path: String,
    pub project_path: String,
    pub build_commands_file_path: String,
    pub fixes: Vec<Fix>,
}

/// The mathematical value of a [`Config`].
pub struct ConfigView {
    pub run_clang_tidy_path: Seq<char>,
    pub build_commands_path: Seq<char>,
    pub project_path: Seq<char>,
    pub build_commands_file_path: Seq<char>,
    pub fixes: Seq<FixView>,
}

impl View for Config {
    type V = ConfigView;

    open spec fn view(&self) -> ConfigView {
        ConfigView {
            run_clang_tidy_path: self.run_clang_tidy_path@,
            build_commands_path: self.build_commands_path@,
            project_path: self.project_path@,
            build_commands_file_path: self.build_commands_file_path@,
            fixes: fix_views(self.fixes@),
        }
    }
}

impl Clone for Config {
    fn clone(&self) -> (copy: Config)
        ensures
            copy@ == self@,
    {
        Config {
            run_clang_tidy_path: self.run_clang_tidy_path.clone(),
            build_commands_path: self.build_commands_path.clone(),
            project_path: self.project_path.clone(),
            build_commands_file_path: self.build_commands_file_path.clone(),
            fixes: copy_fixes(&self.fixes),
        }
    }
}

/// Whether some fix of the list bears the given name.
pub open spec fn has_name(fixes: Seq<FixView>, name: Seq<char>) -> bool {
    exists|i: int| 0 <= i < fixes.len() && #[trigger] fixes[i].name == name
}

/// Whether `i` is the place of the first fix of the list that bears the
/// given name.
pub open spec fn is_first_named(fixes: Seq<FixView>, name: Seq<char>, i: int) -> bool {
    &&& 0 <= i < fixes.len()
    &&& fixes[i].name == name
    &&& forall|j: int| 0 <= j < i ==> (#[trigger] fixes[j]).name != name
}

/// The list in which the first fix of the given name, if there is one, has
/// its selection set to `enabled`, and nothing else differs.
pub open spec fn with_fix_enabled(fixes: Seq<FixView>, name: Seq<char>, enabled: bool) -> Seq<
    FixView,
> {
    if has_name(fixes, name) {
        let i = choose|i: int| is_first_named(fixes, name, i);
        fixes.update(i, FixView { name, enabled })
    } else {
        fixes
    }
}

/// The list in which every fix has its selection set to `enabled`.
pub open spec fn with_all_enabled(fixes: Seq<FixView>, enabled: bool) -> Seq<FixView> {
    fixes.map_values(|fix: FixView| FixView { name: fix.name, enabled })
}

impl Config {
    /// An empty configuration: no paths, no fixes.
    pub fn new() -> (config: Config)
        ensures
            config@ == (ConfigView {
                run_clang_tidy_path: Seq::empty(),
                build_commands_path: Seq::empty(),
                project_path: Seq::empty(),
                build_commands_file_path: Seq::empty(),
                fixes: Seq::empty(),
            }),
    {
        let config = Config {
            run_clang_tidy_path: String::new(),
            build_commands_path: String::new(),
            project_path: String::new(),
            build_commands_file_path: String::new(),
            fixes: Vec::new(),
        };
        assert(fix_views(config.fixes@) =~= Seq::empty());
        config
    }

    /// Sets the path of the `run-clang-tidy` script.
    pub fn set_run_clang_tidy_path(&mut self, path: String)
        ensures
            final(self)@ == (ConfigView { run_clang_tidy_path: path@, ..old(self)@ }),
    {
        self.run_clang_tidy_path = path;
    }

    /// Sets the directory that the fixes are applied to.
    pub fn set_project_path(&mut self, path: String)
        ensures
            final(self)@ == (ConfigView { project_path: path@, ..old(self)@ }),
    {
        self.project_path = path;
    }

    /// Sets the path of the compilation database.
    pub fn set_build_commands_path(&mut self, path: String)
        ensures
            final(self)@ == (ConfigView { build_commands_path: path@, ..old(self)@ }),
    {
        self.build_commands_path = path;
    }

    /// Selects or deselects the first fix named `fix_name`. Returns whether
    /// there is such a fix; without one the configuration stays as it is.
    pub fn set_fix_enabled(&mut self, fix_name: &str, enabled: bool) -> (found: bool)
        ensures
            found == has_name(old(self)@.fixes, fix_name@),
            final(self)@ == (ConfigView {
                fixes: with_fix_enabled(old(self)@.fixes, fix_name@, enabled),
                ..old(self)@
            }),
    {
        let wanted = String::from_str(fix_name);
        let mut i: usize = 0;
        while i < self.fixes.len()
            invariant
                *self == *old(self),
                wanted@ == fix_name@,
                forall|j: int| 0 <= j < i ==> (#[trigger] self.fixes@[j]).name@ != fix_name@,
            decreases self.fixes.len() - i,
        {
            if self.fixes[i].name == wanted {
                self.fixes[i].enabled = enabled;
                proof {
                    let before = fix_views(old(self).fixes@);
                    assert(before[i as int].name == fix_name@);
                    assert(is_first_named(before, fix_name@, i as int));
                    let first = choose|k: int| is_first_named(before, fix_name@, k);
                    assert(first == i);
                    assert(fix_views(self.fixes@) =~= before.update(
                        i as int,
                        FixView { name: fix_name@, enabled },
                    ));
                }
                return true;
            }
            i += 1;
        }
        assert(!has_name(fix_views(self.fixes@), fix_name@));
        false
    }

    /// Selects or deselects every fix of the list at once.
    pub fn set_all_fixes_enabled(&mut self, enabled: bool)
        ensures
            final(self)@ == (ConfigView {
                fixes: with_all_enabled(old(self)@.fixes, enabled),
                ..old(self)@
            }),
    {
        let mut i: usize = 0;
        while i < self.fixes.len()
            invariant
                i <= self.fixes.len(),
                self.fixes.len() == old(self).fixes.len(),
                self.run_clang_tidy_path == old(self).run_clang_tidy_path,
                self.build_commands_path == old(self).build_commands_path,
                self.project_path == old(self).project_path,
                self.build_commands_file_path == old(self).build_commands_file_path,
                forall|j: int|
                    0 <= j < i ==> (#[trigger] self.fixes@[j])@ == (FixView {
                        name: old(self).fixes@[j].name@,
                        enabled,
                    }),
                forall|j: int|
                    i <= j < self.fixes.len() ==> #[trigger] self.fixes@[j] == old(self).fixes@[j],
            decreases self.fixes.len() - i,
        {
            self.fixes[i].enabled = enabled;
            i += 1;
        }
        assert(fix_views(self.fixes@) =~= with_all_enabled(fix_views(old(self).fixes@), enabled));
    }
}

} // verus!
