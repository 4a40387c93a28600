//! Lists of names: looking a name up, keeping a list free of repeats, and
//! keeping a list in order.

use crate::text::{comes_before, precedes, str_eq, texts};
use vstd::prelude::*;

verus! {

/// Whether `at` is the first place where `name` stands in `names`.
pub open spec fn first_at(names: Seq<Seq<char>>, name: Seq<char>, at: int) -> bool {
    &&& 0 <= at < names.len()
    &&& names[at] == name
    &&& forall|j: int| 0 <= j < at ==> names[j] != name
}

/// The first place where `name` stands in `names`, if it stands there at all.
pub open spec fn position(names: Seq<Seq<char>>, name: Seq<char>) -> Option<int> {
    if exists|at: int| first_at(names, name, at) {
        Some(choose|at: int| first_at(names, name, at))
    } else {
        None
    }
}

/// Looks a name up in a list of names.
pub fn find_name(names: &Vec<String>, name: &str) -> (r: Option<usize>)
    ensures
        match r {
            Some(at) => position(texts(names@), name@) == Some(at as int),
            None => position(texts(names@), name@) is None,
        },
        r is Some <==> texts(names@).contains(name@),
{
    let mut i: usize = 0;
    while i < names.len()
        invariant
            i <= names.len(),
            forall|j: int| 0 <= j < i ==> texts(names@)[j] != name@,
        decreases names.len() - i,
    {
        if str_eq(names[i].as_str(), name) {
            proof {
                let all = texts(names@);
                assert(first_at(all, name@, i as int));
                let c = choose|at: int| first_at(all, name@, at);
                assert(first_at(all, name@, c));
                assert(c == i);
                assert(all[i as int] == name@);
            }
            return Some(i);
        }
        i = i + 1;
    }
    proof {
        let all = texts(names@);
        assert forall|at: int| !first_at(all, name@, at) by {}
        assert(!all.contains(name@));
    }
    None
}

/// The list with every item added that it does not hold yet, in the order
/// of the items.
pub open spec fn with_new(list: Seq<Seq<char>>, items: Seq<Seq<char>>) -> Seq<Seq<char>>
    decreases items.len(),
{
    if items.len() == 0 {
        list
    } else {
        let before = with_new(list, items.drop_last());
        if before.contains(items.last()) {
            before
        } else {
            before.push(items.last())
        }
    }
}

/// Adds to the list every item that it does not hold yet.
pub fn add_new(list: &mut Vec<String>, items: &Vec<String>)
    ensures
        texts(final(list)@) == with_new(texts(old(list)@), texts(items@)),
{
    let mut i: usize = 0;
    assert(texts(items@).take(0) =~= Seq::<Seq<char>>::empty());
    while i < items.len()
        invariant
            i <= items.len(),
            texts(list@) == with_new(texts(old(list)@), texts(items@).take(i as int)),
        decreases items.len() - i,
    {
        proof {
            crate::text::lemma_take_step(texts(items@), i as int);
        }
        if find_name(list, items[i].as_str()).is_none() {
            let ghost before = texts(list@);
            list.push(items[i].clone());
            assert(texts(list@) =~= before.push(items@[i as int]@));
        }
        i = i + 1;
    }
    assert(texts(items@).take(items.len() as int) =~= texts(items@));
}

/// An ordered list with `name` put in its place; a list that holds the name
/// already stays as it is.
pub open spec fn inserted(list: Seq<Seq<char>>, name: Seq<char>) -> Seq<Seq<char>>
    decreases list.len(),
{
    if list.len() == 0 {
        seq![name]
    } else if list.last() == name {
        list
    } else if precedes(list.last(), name) {
        list.push(name)
    } else {
        inserted(list.drop_last(), name).push(list.last())
    }
}

/// Where `name` goes in the ordered list, or `None` where the list holds it.
fn insertion_point(list: &Vec<String>, name: &str) -> (r: Option<usize>)
    ensures
        match r {
            Some(at) => at <= list.len() && inserted(texts(list@), name@) == texts(list@).take(
                at as int,
            ).push(name@) + texts(list@).skip(at as int),
            None => inserted(texts(list@), name@) == texts(list@),
        },
{
    let ghost all = texts(list@);
    let mut i: usize = list.len();
    assert(all.take(i as int) =~= all);
    assert(inserted(all, name@) =~= inserted(all.take(i as int), name@) + all.skip(i as int));
    while i > 0
        invariant
            i <= list.len(),
            all == texts(list@),
            inserted(all, name@) == inserted(all.take(i as int), name@) + all.skip(i as int),
        decreases i,
    {
        let ghost head = all.take(i as int);
        assert(head.last() == all[i - 1]);
        assert(head.drop_last() =~= all.take(i - 1));
        if str_eq(list[i - 1].as_str(), name) {
            assert(head + all.skip(i as int) =~= all);
            return None;
        }
        if comes_before(list[i - 1].as_str(), name) {
            return Some(i);
        }
        assert(inserted(head, name@) == inserted(all.take(i - 1), name@).push(all[i - 1]));
        assert(inserted(all.take(i - 1), name@).push(all[i - 1]) + all.skip(i as int)
            =~= inserted(all.take(i - 1), name@) + all.skip(i - 1));
        i = i - 1;
    }
    Some(0)
}

/// Puts a name in its place in an ordered list, unless the list holds it.
pub fn insert_sorted(list: &mut Vec<String>, name: String)
    ensures
        texts(final(list)@) == inserted(texts(old(list)@), name@),
{
    match insertion_point(list, name.as_str()) {
        Some(at) => {
            let ghost before = texts(list@);
            list.insert(at, name);
            assert(texts(list@) =~= before.take(at as int).push(name@) + before.skip(at as int));
        },
        None => {},
    }
}

/// No text comes before itself.
pub proof fn lemma_precedes_irreflexive(a: Seq<char>)
    ensures
        !precedes(a, a),
    decreases a.len(),
{
    if a.len() > 0 {
        lemma_precedes_irreflexive(a.skip(1));
    }
}

/// What comes before a text comes before everything after that text.
pub proof fn lemma_precedes_transitive(a: Seq<char>, b: Seq<char>, c: Seq<char>)
    requires
        precedes(a, b),
        precedes(b, c),
    ensures
        precedes(a, c),
    decreases a.len(),
{
    if a.len() > 0 && b.len() > 0 && c.len() > 0 {
        if a[0] == b[0] && b[0] == c[0] {
            lemma_precedes_transitive(a.skip(1), b.skip(1), c.skip(1));
        }
    }
}

/// Of two different texts one comes before the other.
pub proof fn lemma_precedes_connected(a: Seq<char>, b: Seq<char>)
    requires
        a != b,
    ensures
        precedes(a, b) || precedes(b, a),
    decreases a.len(),
{
    if a.len() > 0 && b.len() > 0 {
        if a[0] == b[0] {
            if a.skip(1) == b.skip(1) {
                assert(a =~= seq![a[0]] + a.skip(1));
                assert(b =~= seq![b[0]] + b.skip(1));
            }
            lemma_precedes_connected(a.skip(1), b.skip(1));
        } else {
            vstd::utf8::char_u32_cast(a[0], a[0] as u32);
            vstd::utf8::char_u32_cast(b[0], b[0] as u32);
        }
    } else {
        if a.len() == 0 && b.len() == 0 {
            assert(a =~= b);
        }
    }
}

/// Every text of the list comes before the texts after it.
pub open spec fn strictly_sorted(list: Seq<Seq<char>>) -> bool {
    forall|i: int, j: int| 0 <= i < j < list.len() ==> precedes(list[i], list[j])
}

/// A list in strict order names nothing twice.
pub proof fn lemma_sorted_is_distinct(list: Seq<Seq<char>>)
    requires
        strictly_sorted(list),
    ensures
        forall|i: int, j: int| 0 <= i < j < list.len() ==> list[i] != list[j],
{
    assert forall|i: int, j: int| 0 <= i < j < list.len() implies list[i] != list[j] by {
        lemma_precedes_irreflexive(list[i]);
    }
}

/// Putting a name into a list in strict order gives a list in strict order
/// that holds the name besides what the list held.
pub proof fn lemma_inserted_sorted(list: Seq<Seq<char>>, name: Seq<char>)
    requires
        strictly_sorted(list),
    ensures
        strictly_sorted(inserted(list, name)),
        forall|x: Seq<char>|
            #![trigger inserted(list, name).contains(x)]
            inserted(list, name).contains(x) <==> (list.contains(x) || x == name),
    decreases list.len(),
{
    let out = inserted(list, name);
    if list.len() == 0 {
        assert(out =~= seq![name]);
        assert forall|x: Seq<char>| out.contains(x) <==> (list.contains(x) || x == name) by {
            if x == name {
                assert(out[0] == x);
            }
        }
    } else if list.last() == name {
        assert forall|x: Seq<char>| out.contains(x) <==> (list.contains(x) || x == name) by {
            if x == name {
                assert(list[list.len() - 1] == x);
            }
        }
    } else if precedes(list.last(), name) {
        assert forall|i: int, j: int| 0 <= i < j < out.len() implies precedes(out[i], out[j]) by {
            if j == list.len() {
                if i < list.len() - 1 {
                    lemma_precedes_transitive(list[i], list.last(), name);
                }
            }
        }
        assert forall|x: Seq<char>| out.contains(x) <==> (list.contains(x) || x == name) by {
            if out.contains(x) {
                let k = choose|k: int| 0 <= k < out.len() && out[k] == x;
                if k < list.len() {
                    assert(list[k] == x);
                }
            }
            if list.contains(x) {
                let k = choose|k: int| 0 <= k < list.len() && list[k] == x;
                assert(out[k] == x);
            }
            if x == name {
                assert(out[list.len() as int] == x);
            }
        }
    } else {
        let front = list.drop_last();
        let last = list.last();
        assert(strictly_sorted(front));
        lemma_inserted_sorted(front, name);
        lemma_precedes_connected(last, name);
        let inner = inserted(front, name);
        assert(out == inner.push(last));
        assert forall|i: int, j: int| 0 <= i < j < out.len() implies precedes(out[i], out[j]) by {
            if j == inner.len() {
                assert(inner.contains(inner[i]));
                if front.contains(inner[i]) {
                    let k = choose|k: int| 0 <= k < front.len() && front[k] == inner[i];
                    assert(list[k] == inner[i]);
                }
            }
        }
        assert forall|x: Seq<char>| out.contains(x) <==> (list.contains(x) || x == name) by {
            if out.contains(x) {
                let k = choose|k: int| 0 <= k < out.len() && out[k] == x;
                if k < inner.len() {
                    assert(inner.contains(x));
                    if front.contains(x) {
                        let m = choose|m: int| 0 <= m < front.len() && front[m] == x;
                        assert(list[m] == x);
                    }
                } else {
                    assert(list[list.len() - 1] == x);
                }
            }
            if list.contains(x) {
                let k = choose|k: int| 0 <= k < list.len() && list[k] == x;
                if k < front.len() {
                    assert(front[k] == x);
                    assert(front.contains(x));
                    assert(inner.contains(x));
                    let m = choose|m: int| 0 <= m < inner.len() && inner[m] == x;
                    assert(out[m] == x);
                } else {
                    assert(out[inner.len() as int] == x);
                }
            }
            if x == name {
                assert(inner.contains(x));
                let m = choose|m: int| 0 <= m < inner.len() && inner[m] == x;
                assert(out[m] == x);
            }
        }
    }
}

/// Two lists in strict order that hold the same names are the same list.
pub proof fn lemma_sorted_unique(a: Seq<Seq<char>>, b: Seq<Seq<char>>)
    requires
        strictly_sorted(a),
        strictly_sorted(b),
        forall|x: Seq<char>| a.contains(x) <==> b.contains(x),
    ensures
        a == b,
    decreases a.len(),
{
    if a.len() == 0 {
        if b.len() > 0 {
            assert(b.contains(b[0]));
        }
        assert(a =~= b);
    } else if b.len() == 0 {
        assert(a.contains(a[0]));
    } else {
        let la = a.last();
        let lb = b.last();
        assert(a.contains(la)) by {
            assert(a[a.len() - 1] == la);
        }
        assert(b.contains(lb)) by {
            assert(b[b.len() - 1] == lb);
        }
        if la != lb {
            let ka = choose|k: int| 0 <= k < b.len() && b[k] == la;
            let kb = choose|k: int| 0 <= k < a.len() && a[k] == lb;
            assert(ka < b.len() - 1);
            assert(kb < a.len() - 1);
            assert(precedes(la, lb));
            assert(precedes(lb, la));
            lemma_precedes_transitive(la, lb, la);
            lemma_precedes_irreflexive(la);
        }
        let fa = a.drop_last();
        let fb = b.drop_last();
        assert forall|x: Seq<char>| fa.contains(x) <==> fb.contains(x) by {
            if fa.contains(x) {
                let k = choose|k: int| 0 <= k < fa.len() && fa[k] == x;
                assert(a[k] == x);
                assert(precedes(x, la));
                lemma_precedes_irreflexive(la);
                assert(b.contains(x));
                let m = choose|m: int| 0 <= m < b.len() && b[m] == x;
                assert(m < b.len() - 1);
                assert(fb[m] == x);
            }
            if fb.contains(x) {
                let k = choose|k: int| 0 <= k < fb.len() && fb[k] == x;
                assert(b[k] == x);
                assert(precedes(x, lb));
                lemma_precedes_irreflexive(lb);
                assert(a.contains(x));
                let m = choose|m: int| 0 <= m < a.len() && a[m] == x;
                assert(m < a.len() - 1);
                assert(fa[m] == x);
            }
        }
        lemma_sorted_unique(fa, fb);
        assert(a =~= fa.push(la));
        assert(b =~= fb.push(lb));
    }
}

/// The first `n` names, each once, in the order of strings.
pub open spec fn sorted_set(items: Seq<Seq<char>>, n: nat) -> Seq<Seq<char>>
    decreases n,
{
    if n == 0 {
        Seq::empty()
    } else {
        inserted(sorted_set(items, (n - 1) as nat), items[n - 1])
    }
}

/// The ordered set of names is in strict order and holds exactly the names
/// that went in.
pub proof fn lemma_sorted_set(items: Seq<Seq<char>>, n: nat)
    requires
        n <= items.len(),
    ensures
        strictly_sorted(sorted_set(items, n)),
        forall|x: Seq<char>|
            #![trigger sorted_set(items, n).contains(x)]
            sorted_set(items, n).contains(x) <==> items.take(n as int).contains(x),
    decreases n,
{
    if n == 0 {
        assert(items.take(0).len() == 0);
    } else {
        let before = sorted_set(items, (n - 1) as nat);
        lemma_sorted_set(items, (n - 1) as nat);
        lemma_inserted_sorted(before, items[n - 1]);
        let now = sorted_set(items, n);
        assert forall|x: Seq<char>| #![trigger now.contains(x)]
            now.contains(x) <==> items.take(n as int).contains(x) by {
            let shorter = items.take(n - 1);
            let longer = items.take(n as int);
            assert(longer =~= shorter.push(items[n - 1]));
            if shorter.contains(x) {
                let k = choose|k: int| 0 <= k < shorter.len() && shorter[k] == x;
                assert(longer[k] == x);
            }
            if longer.contains(x) {
                let k = choose|k: int| 0 <= k < longer.len() && longer[k] == x;
                if k < n - 1 {
                    assert(shorter[k] == x);
                }
            }
            assert(longer[n - 1] == items[n - 1]);
            assert(before.contains(x) <==> shorter.contains(x));
        }
    }
}

/// The order of an ordered set does not depend on the order in which the
/// names went in: two lists that hold the same names give the same set.
pub proof fn lemma_sorted_set_ignores_order(a: Seq<Seq<char>>, b: Seq<Seq<char>>)
    requires
        forall|x: Seq<char>| a.contains(x) <==> b.contains(x),
    ensures
        sorted_set(a, a.len()) == sorted_set(b, b.len()),
{
    lemma_sorted_set(a, a.len());
    lemma_sorted_set(b, b.len());
    assert(a.take(a.len() as int) =~= a);
    assert(b.take(b.len() as int) =~= b);
    lemma_sorted_unique(sorted_set(a, a.len()), sorted_set(b, b.len()));
}

} // verus!
