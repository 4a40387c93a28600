//! The order in which module lists come: by module name in the order of
//! strings, and files of one module in the order of the input.

use super::dependency_graph::module_names;
use crate::ir::Blueprint;
use crate::names::{
    insert_sorted, lemma_precedes_irreflexive, lemma_sorted_set, lemma_sorted_set_ignores_order,
    sorted_set, strictly_sorted,
};
use crate::paths;
use crate::paths::module_name;
use crate::text::{precedes, str_eq, texts};
use vstd::prelude::*;

verus! {

/// The blueprints at the picked places, in the order of the picks.
pub open spec fn picked(bps: Seq<Blueprint>, picks: Seq<usize>) -> Seq<Blueprint> {
    Seq::new(picks.len(), |k: int| bps[picks[k] as int])
}

/// Every pick is a place among the first `len` blueprints.
pub open spec fn valid_picks(picks: Seq<usize>, len: nat) -> bool {
    forall|k: int| 0 <= k < picks.len() ==> (#[trigger] picks[k]) < len
}

/// The blueprints among the first `n` that stand for the module `name`, in
/// the order of the input.
pub open spec fn module_group(bps: Seq<Blueprint>, name: Seq<char>, n: nat) -> Seq<Blueprint>
    decreases n,
{
    if n == 0 {
        Seq::empty()
    } else {
        let before = module_group(bps, name, (n - 1) as nat);
        if module_name(bps[n - 1].source_path@) == name {
            before.push(bps[n - 1])
        } else {
            before
        }
    }
}

/// The module names of the blueprints, each once, in the order of strings.
pub open spec fn listed_modules(bps: Seq<Blueprint>) -> Seq<Seq<char>> {
    sorted_set(module_names(bps), bps.len())
}

/// The blueprints of the first `n` of the given modules, module by module.
pub open spec fn arranged_by(bps: Seq<Blueprint>, names: Seq<Seq<char>>, n: nat) -> Seq<Blueprint>
    decreases n,
{
    if n == 0 {
        Seq::empty()
    } else {
        arranged_by(bps, names, (n - 1) as nat) + module_group(bps, names[n - 1], bps.len())
    }
}

/// The blueprints as a module list shows them: module by module in the
/// order of strings, the files of one module in the order of the input.
pub open spec fn arranged(bps: Seq<Blueprint>) -> Seq<Blueprint> {
    arranged_by(bps, listed_modules(bps), listed_modules(bps).len())
}

/// Finds the order in which a module list shows the blueprints.
pub fn arrange(blueprints: &[Blueprint]) -> (order: Vec<usize>)
    ensures
        valid_picks(order@, blueprints@.len()),
        picked(blueprints@, order@) == arranged(blueprints@),
{
    let mut names: Vec<String> = Vec::new();
    let mut sorted: Vec<String> = Vec::new();
    let mut i: usize = 0;
    assert(texts(sorted@) =~= sorted_set(module_names(blueprints@), 0));
    while i < blueprints.len()
        invariant
            i <= blueprints.len(),
            names@.len() == i,
            forall|k: int|
                0 <= k < i ==> (#[trigger] names@[k])@ == module_name(blueprints@[k].source_path@),
            texts(sorted@) == sorted_set(module_names(blueprints@), i as nat),
        decreases blueprints.len() - i,
    {
        let name = paths::extract_module_name(blueprints[i].source_path.as_str());
        insert_sorted(&mut sorted, name.clone());
        names.push(name);
        i = i + 1;
    }
    let ghost listed = texts(sorted@);
    let mut order: Vec<usize> = Vec::new();
    let mut k: usize = 0;
    assert(picked(blueprints@, order@) =~= arranged_by(blueprints@, listed, 0));
    while k < sorted.len()
        invariant
            k <= sorted.len(),
            names@.len() == blueprints@.len(),
            forall|j: int|
                0 <= j < names@.len() ==> (#[trigger] names@[j])@ == module_name(
                    blueprints@[j].source_path@,
                ),
            listed == texts(sorted@),
            listed == listed_modules(blueprints@),
            valid_picks(order@, blueprints@.len()),
            picked(blueprints@, order@) == arranged_by(blueprints@, listed, k as nat),
        decreases sorted.len() - k,
    {
        let ghost done = picked(blueprints@, order@);
        let name = sorted[k].as_str();
        let mut i: usize = 0;
        assert(picked(blueprints@, order@) =~= done + module_group(blueprints@, name@, 0));
        while i < names.len()
            invariant
                i <= names.len(),
                names@.len() == blueprints@.len(),
                forall|j: int|
                    0 <= j < names@.len() ==> (#[trigger] names@[j])@ == module_name(
                        blueprints@[j].source_path@,
                    ),
                valid_picks(order@, blueprints@.len()),
                picked(blueprints@, order@) == done + module_group(blueprints@, name@, i as nat),
            decreases names.len() - i,
        {
            if str_eq(names[i].as_str(), name) {
                let ghost before = picked(blueprints@, order@);
                order.push(i);
                assert(picked(blueprints@, order@) =~= before.push(blueprints@[i as int]));
                assert(before.push(blueprints@[i as int]) =~= done + module_group(
                    blueprints@,
                    name@,
                    (i + 1) as nat,
                ));
            }
            i = i + 1;
        }
        assert(name@ == listed[k as int]);
        k = k + 1;
    }
    order
}

/// A module has a group exactly when one of the first `n` blueprints stands
/// for it, and every blueprint of the group stands for the module.
pub proof fn lemma_module_group(bps: Seq<Blueprint>, name: Seq<char>, n: nat)
    requires
        n <= bps.len(),
    ensures
        module_group(bps, name, n).len() > 0 <==> module_names(bps).take(n as int).contains(name),
        forall|k: int|
            0 <= k < module_group(bps, name, n).len() ==> module_name(
                (#[trigger] module_group(bps, name, n)[k]).source_path@,
            ) == name,
    decreases n,
{
    let names = module_names(bps);
    if n == 0 {
        assert(names.take(0).len() == 0);
    } else {
        lemma_module_group(bps, name, (n - 1) as nat);
        let shorter = names.take(n - 1);
        let longer = names.take(n as int);
        assert(longer =~= shorter.push(names[n - 1]));
        if shorter.contains(name) {
            let k = choose|k: int| 0 <= k < shorter.len() && shorter[k] == name;
            assert(longer[k] == name);
        }
        if longer.contains(name) {
            let k = choose|k: int| 0 <= k < longer.len() && longer[k] == name;
            if k < n - 1 {
                assert(shorter[k] == name);
            }
        }
        if module_name(bps[n - 1].source_path@) == name {
            assert(longer[n - 1] == name);
        }
    }
}

/// The modules of a list are in strict order, and they are the modules
/// that the blueprints stand for.
pub proof fn lemma_listed_modules_in_order(bps: Seq<Blueprint>)
    ensures
        strictly_sorted(listed_modules(bps)),
        forall|name: Seq<char>|
            #![trigger listed_modules(bps).contains(name)]
            listed_modules(bps).contains(name) <==> module_names(bps).contains(name),
{
    lemma_sorted_set(module_names(bps), bps.len());
    assert(module_names(bps).take(bps.len() as int) =~= module_names(bps));
}

/// Every blueprint of the first `n` modules stands for one of them.
proof fn lemma_arranged_names(bps: Seq<Blueprint>, names: Seq<Seq<char>>, n: nat, k: int)
    requires
        n <= names.len(),
        0 <= k < arranged_by(bps, names, n).len(),
    ensures
        exists|m: int|
            0 <= m < n && names[m] == module_name(arranged_by(bps, names, n)[k].source_path@),
    decreases n,
{
    if n > 0 {
        let before = arranged_by(bps, names, (n - 1) as nat);
        let group = module_group(bps, names[n - 1], bps.len());
        if k < before.len() {
            lemma_arranged_names(bps, names, (n - 1) as nat, k);
            let m = choose|m: int|
                0 <= m < n - 1 && names[m] == module_name(before[k].source_path@);
            assert(names[m] == module_name(arranged_by(bps, names, n)[k].source_path@));
        } else {
            lemma_module_group(bps, names[n - 1], bps.len());
            assert(arranged_by(bps, names, n)[k] == group[k - before.len()]);
            assert(names[n - 1] == module_name(arranged_by(bps, names, n)[k].source_path@));
        }
    }
}

/// With the modules in strict order, the module names of the blueprints
/// never go down.
proof fn lemma_arranged_by_ascending(
    bps: Seq<Blueprint>,
    names: Seq<Seq<char>>,
    n: nat,
    i: int,
    j: int,
)
    requires
        n <= names.len(),
        strictly_sorted(names),
        0 <= i < j < arranged_by(bps, names, n).len(),
    ensures
        !precedes(
            module_name(arranged_by(bps, names, n)[j].source_path@),
            module_name(arranged_by(bps, names, n)[i].source_path@),
        ),
    decreases n,
{
    if n > 0 {
        let before = arranged_by(bps, names, (n - 1) as nat);
        let group = module_group(bps, names[n - 1], bps.len());
        let all = arranged_by(bps, names, n);
        let last = names[n - 1];
        if j < before.len() {
            lemma_arranged_by_ascending(bps, names, (n - 1) as nat, i, j);
            assert(all[i] == before[i] && all[j] == before[j]);
        } else {
            lemma_module_group(bps, last, bps.len());
            assert(all[j] == group[j - before.len()]);
            assert(module_name(all[j].source_path@) == last);
            if i < before.len() {
                lemma_arranged_names(bps, names, (n - 1) as nat, i);
                let m = choose|m: int|
                    0 <= m < n - 1 && names[m] == module_name(before[i].source_path@);
                assert(all[i] == before[i]);
                assert(precedes(names[m], last));
                if precedes(last, names[m]) {
                    crate::names::lemma_precedes_transitive(last, names[m], last);
                    lemma_precedes_irreflexive(last);
                }
            } else {
                assert(all[i] == group[i - before.len()]);
                lemma_precedes_irreflexive(last);
            }
        }
    }
}

/// A module list shows the blueprints in ascending order of module name:
/// no blueprint comes after one whose module name is greater.
pub proof fn lemma_arranged_ascending(bps: Seq<Blueprint>, i: int, j: int)
    requires
        0 <= i < j < arranged(bps).len(),
    ensures
        !precedes(
            module_name(arranged(bps)[j].source_path@),
            module_name(arranged(bps)[i].source_path@),
        ),
{
    lemma_listed_modules_in_order(bps);
    lemma_arranged_by_ascending(bps, listed_modules(bps), listed_modules(bps).len(), i, j);
}

/// The blueprints of the first `n` modules depend on the groups alone.
proof fn lemma_same_groups_same_arrangement(
    a: Seq<Blueprint>,
    b: Seq<Blueprint>,
    names: Seq<Seq<char>>,
    n: nat,
)
    requires
        n <= names.len(),
        forall|name: Seq<char>| module_group(a, name, a.len()) == module_group(b, name, b.len()),
    ensures
        arranged_by(a, names, n) == arranged_by(b, names, n),
    decreases n,
{
    if n > 0 {
        lemma_same_groups_same_arrangement(a, b, names, (n - 1) as nat);
        assert(module_group(a, names[n - 1], a.len()) == module_group(b, names[n - 1], b.len()));
    }
}

/// The order of a module list does not depend on the order of the input:
/// two inputs in which every module has the same files in the same order
/// are shown in the same order.
pub proof fn lemma_arrangement_ignores_input_order(a: Seq<Blueprint>, b: Seq<Blueprint>)
    requires
        forall|name: Seq<char>| module_group(a, name, a.len()) == module_group(b, name, b.len()),
    ensures
        listed_modules(a) == listed_modules(b),
        arranged(a) == arranged(b),
{
    let na = module_names(a);
    let nb = module_names(b);
    assert forall|name: Seq<char>| na.contains(name) <==> nb.contains(name) by {
        lemma_module_group(a, name, a.len());
        lemma_module_group(b, name, b.len());
        assert(na.take(a.len() as int) =~= na);
        assert(nb.take(b.len() as int) =~= nb);
        assert(module_group(a, name, a.len()) == module_group(b, name, b.len()));
    }
    lemma_sorted_set_ignores_order(na, nb);
    lemma_same_groups_same_arrangement(a, b, listed_modules(a), listed_modules(a).len());
}

} // verus!
