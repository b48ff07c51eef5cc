//! Merging the stored list of fixes with a catalog of available checks.
//!
//! The catalog only ever adds: fixes that the user already has keep their
//! place and their selection, and each check that is new enters once, at the
//! end, not selected.

use vstd::prelude::*;
use crate::config::{copy_fixes, fix_views, has_name, Fix, FixView};
use crate::strings::string_views;

verus! {

/// The list after one name of the catalog was looked at: unchanged where a
/// fix of that name is there, else longer by that fix, not selected.
pub open spec fn absorbed(fixes: Seq<FixView>, name: Seq<char>) -> Seq<FixView> {
    if has_name(fixes, name) {
        fixes
    } else {
        fixes.push(FixView { name, enabled: false })
    }
}

/// The list after the whole catalog was looked at, name by name in order.
pub open spec fn reconciled(known: Seq<FixView>, discovered: Seq<Seq<char>>) -> Seq<FixView>
    decreases discovered.len(),
{
    if discovered.len() == 0 {
        known
    } else {
        absorbed(reconciled(known, discovered.drop_last()), discovered.last())
    }
}

/// No two fixes of the list bear the same name.
pub open spec fn unique_names(fixes: Seq<FixView>) -> bool {
    forall|i: int, j: int|
        0 <= i < j < fixes.len() ==> (#[trigger] fixes[i]).name != (#[trigger] fixes[j]).name
}

/// What the merged list consists of: the known fixes first, each as it was
/// and where it was; behind them only fixes that are not selected, whose
/// names come from the catalog, were not known and differ from one another;
/// and every name of the catalog is borne by some fix.
pub proof fn lemma_reconciled_shape(known: Seq<FixView>, discovered: Seq<Seq<char>>)
    ensures
        reconciled(known, discovered).len() >= known.len(),
        reconciled(known, discovered).take(known.len() as int) == known,
        forall|j: int|
            known.len() <= j < reconciled(known, discovered).len() ==> {
                let added = #[trigger] reconciled(known, discovered)[j];
                &&& !added.enabled
                &&& discovered.contains(added.name)
                &&& !has_name(known, added.name)
            },
        forall|i: int, j: int|
            known.len() <= i < j < reconciled(known, discovered).len() ==> (
            #[trigger] reconciled(known, discovered)[i]).name != (#[trigger] reconciled(
                known,
                discovered,
            )[j]).name,
        forall|k: int|
            0 <= k < discovered.len() ==> has_name(
                reconciled(known, discovered),
                #[trigger] discovered[k],
            ),
    decreases discovered.len(),
{
    let merged = reconciled(known, discovered);
    if discovered.len() == 0 {
        assert(merged.take(known.len() as int) =~= known);
    } else {
        let before = reconciled(known, discovered.drop_last());
        let name = discovered.last();
        lemma_reconciled_shape(known, discovered.drop_last());
        assert(before.take(known.len() as int) == known);
        assert(merged.take(known.len() as int) =~= before.take(known.len() as int));
        assert(discovered.contains(name)) by {
            assert(discovered[discovered.len() - 1] == name);
        }
        assert forall|j: int| known.len() <= j < merged.len() implies {
            let added = #[trigger] merged[j];
            &&& !added.enabled
            &&& discovered.contains(added.name)
            &&& !has_name(known, added.name)
        } by {
            if j < before.len() {
                let added = before[j];
                assert(discovered.drop_last().contains(added.name));
                let k = choose|k: int|
                    0 <= k < discovered.drop_last().len() && discovered.drop_last()[k]
                        == added.name;
                assert(discovered[k] == added.name);
            } else {
                assert(!has_name(before, name));
                if has_name(known, name) {
                    let i = choose|i: int| 0 <= i < known.len() && known[i].name == name;
                    assert(before.take(known.len() as int)[i] == before[i]);
                    assert(before[i].name == name);
                }
            }
        }
        assert forall|k: int| 0 <= k < discovered.len() implies has_name(
            merged,
            #[trigger] discovered[k],
        ) by {
            if k < discovered.len() - 1 {
                assert(discovered.drop_last()[k] == discovered[k]);
                assert(has_name(before, discovered[k]));
                let i = choose|i: int| 0 <= i < before.len() && before[i].name == discovered[k];
                assert(merged[i].name == discovered[k]);
            } else {
                if has_name(before, name) {
                } else {
                    assert(merged[merged.len() - 1].name == name);
                }
            }
        }
    }
}

/// A name that some fix of the list bears is not added again.
pub proof fn lemma_reconciled_of_known_names(fixes: Seq<FixView>, discovered: Seq<Seq<char>>)
    requires
        forall|k: int| 0 <= k < discovered.len() ==> has_name(fixes, #[trigger] discovered[k]),
    ensures
        reconciled(fixes, discovered) == fixes,
    decreases discovered.len(),
{
    if discovered.len() > 0 {
        assert forall|k: int| 0 <= k < discovered.drop_last().len() implies has_name(
            fixes,
            #[trigger] discovered.drop_last()[k],
        ) by {
            assert(discovered.drop_last()[k] == discovered[k]);
        }
        lemma_reconciled_of_known_names(fixes, discovered.drop_last());
        assert(has_name(fixes, discovered[discovered.len() - 1]));
    }
}

/// Merging the same catalog a second time changes nothing.
pub proof fn lemma_reconciled_idempotent(known: Seq<FixView>, discovered: Seq<Seq<char>>)
    ensures
        reconciled(reconciled(known, discovered), discovered) == reconciled(known, discovered),
{
    lemma_reconciled_shape(known, discovered);
    lemma_reconciled_of_known_names(reconciled(known, discovered), discovered);
}

/// Each name of the catalog that was not known is borne by exactly one fix
/// of the merged list, and that fix is not selected.
pub proof fn lemma_reconciled_adds_once(
    known: Seq<FixView>,
    discovered: Seq<Seq<char>>,
    k: int,
)
    requires
        0 <= k < discovered.len(),
        !has_name(known, discovered[k]),
    ensures
        exists|j: int|
            {
                &&& 0 <= j < reconciled(known, discovered).len()
                &&& #[trigger] reconciled(known, discovered)[j] == (FixView {
                    name: discovered[k],
                    enabled: false,
                })
                &&& forall|i: int|
                    0 <= i < reconciled(known, discovered).len() && (#[trigger] reconciled(
                        known,
                        discovered,
                    )[i]).name == discovered[k] ==> i == j
            },
{
    let merged = reconciled(known, discovered);
    let name = discovered[k];
    lemma_reconciled_shape(known, discovered);
    assert(has_name(merged, name));
    let j = choose|j: int| 0 <= j < merged.len() && merged[j].name == name;
    if j < known.len() {
        assert(merged.take(known.len() as int)[j] == merged[j]);
        assert(known[j].name == name);
    }
    assert(!merged[j].enabled);
    assert forall|i: int| 0 <= i < merged.len() && (#[trigger] merged[i]).name == name implies i
        == j by {
        if i < known.len() {
            assert(merged.take(known.len() as int)[i] == merged[i]);
            assert(known[i].name == name);
        }
    }
    assert(merged[j] == (FixView { name, enabled: false }));
}

/// A list without repeated names stays one when a catalog is merged in.
pub proof fn lemma_reconciled_keeps_names_unique(known: Seq<FixView>, discovered: Seq<Seq<char>>)
    requires
        unique_names(known),
    ensures
        unique_names(reconciled(known, discovered)),
{
    let merged = reconciled(known, discovered);
    lemma_reconciled_shape(known, discovered);
    assert forall|i: int, j: int| 0 <= i < j < merged.len() implies (#[trigger] merged[i]).name != (
    #[trigger] merged[j]).name by {
        if i < known.len() {
            assert(merged.take(known.len() as int)[i] == merged[i]);
        }
        if j < known.len() {
            assert(merged.take(known.len() as int)[j] == merged[j]);
        }
        if i < known.len() && j >= known.len() {
            assert(!has_name(known, merged[j].name));
            assert(known[i].name != merged[j].name);
        }
    }
}

/// Whether some fix of the list bears the given name.
pub fn contains_name(fixes: &Vec<Fix>, name: &String) -> (found: bool)
    ensures
        found == has_name(fix_views(fixes@), name@),
{
    let mut i: usize = 0;
    while i < fixes.len()
        invariant
            i <= fixes.len(),
            forall|j: int| 0 <= j < i ==> (#[trigger] fix_views(fixes@)[j]).name != name@,
        decreases fixes.len() - i,
    {
        if fixes[i].name == *name {
            assert(fix_views(fixes@)[i as int].name == name@);
            return true;
        }
        i += 1;
    }
    false
}

/// Merges the catalog `discovered` into the list `known` and returns the new
/// list; neither argument is changed.
///
/// The known fixes come first, each as it was and where it was, also those
/// that the catalog does not name. Behind them comes, for each name of the
/// catalog that no fix bears yet, one fix of that name, not selected, in the
/// order of the catalog; a name that occurs twice counts where it occurs
/// first.
pub fn reconcile(known: &Vec<Fix>, discovered: &Vec<String>) -> (merged: Vec<Fix>)
    ensures
        fix_views(merged@) == reconciled(fix_views(known@), string_views(discovered@)),
        merged.len() >= known.len(),
        forall|i: int| 0 <= i < known.len() ==> (#[trigger] merged@[i])@ == known@[i]@,
        forall|j: int|
            known.len() <= j < merged.len() ==> {
                let added = (#[trigger] merged@[j])@;
                &&& !added.enabled
                &&& string_views(discovered@).contains(added.name)
                &&& !has_name(fix_views(known@), added.name)
            },
        forall|i: int, j: int|
            known.len() <= i < j < merged.len() ==> (#[trigger] merged@[i]).name@ != (
            #[trigger] merged@[j]).name@,
        forall|k: int|
            0 <= k < discovered.len() ==> has_name(
                fix_views(merged@),
                (#[trigger] discovered@[k])@,
            ),
{
    let mut merged = copy_fixes(known);
    let mut k: usize = 0;
    assert(string_views(discovered@.take(0)) =~= Seq::<Seq<char>>::empty());
    while k < discovered.len()
        invariant
            k <= discovered.len(),
            fix_views(merged@) == reconciled(
                fix_views(known@),
                string_views(discovered@.take(k as int)),
            ),
        decreases discovered.len() - k,
    {
        proof {
            let seen = string_views(discovered@.take(k as int));
            let next = string_views(discovered@.take(k + 1));
            assert(discovered@.take(k + 1) =~= discovered@.take(k as int).push(
                discovered@[k as int],
            ));
            assert(next =~= seen.push(discovered@[k as int]@));
            assert(next.drop_last() =~= seen);
            assert(next.last() == discovered@[k as int]@);
        }
        if !contains_name(&merged, &discovered[k]) {
            let ghost before = merged@;
            let fix = Fix::disabled(discovered[k].clone());
            merged.push(fix);
            assert(fix_views(merged@) =~= fix_views(before).push(fix@));
        }
        k += 1;
    }
    proof {
        assert(discovered@.take(k as int) =~= discovered@);
        let known_views = fix_views(known@);
        let names = string_views(discovered@);
        lemma_reconciled_shape(known_views, names);
        assert(merged.len() == fix_views(merged@).len());
        assert forall|i: int| 0 <= i < known.len() implies (#[trigger] merged@[i])@ == known@[i]@ by {
            assert(fix_views(merged@).take(known.len() as int)[i] == fix_views(merged@)[i]);
            assert(known_views[i] == known@[i]@);
        }
        assert forall|j: int| known.len() <= j < merged.len() implies {
            let added = (#[trigger] merged@[j])@;
            &&& !added.enabled
            &&& names.contains(added.name)
            &&& !has_name(known_views, added.name)
        } by {
            assert(fix_views(merged@)[j] == merged@[j]@);
        }
        assert forall|i: int, j: int| known.len() <= i < j < merged.len() implies (
        #[trigger] merged@[i]).name@ != (#[trigger] merged@[j]).name@ by {
            assert(fix_views(merged@)[i] == merged@[i]@);
            assert(fix_views(merged@)[j] == merged@[j]@);
        }
        assert forall|k: int| 0 <= k < discovered.len() implies has_name(
            fix_views(merged@),
            (#[trigger] discovered@[k])@,
        ) by {
            assert(names[k] == discovered@[k]@);
        }
    }
    merged
}

} // verus!
