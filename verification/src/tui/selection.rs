//! The Compose screen's selection: snippet indices in the order they were
//! selected, each at most once, toggled on and off.

use vstd::prelude::*;

verus! {

/// `s` with every occurrence of `x` removed, the rest in order.
pub open spec fn without(s: Seq<usize>, x: usize) -> Seq<usize>
    decreases s.len(),
{
    if s.len() == 0 {
        s
    } else {
        let rest = without(s.drop_last(), x);
        if s.last() == x {
            rest
        } else {
            rest.push(s.last())
        }
    }
}

/// The selection after toggling `x`: deselected if it was selected, else
/// appended as the newest selection.
pub open spec fn toggled_selection(s: Seq<usize>, x: usize) -> Seq<usize> {
    if s.contains(x) {
        without(s, x)
    } else {
        s.push(x)
    }
}

/// Whether `x` is in `sel`.
pub fn contains_index(sel: &Vec<usize>, x: usize) -> (r: bool)
    ensures
        r == sel@.contains(x),
{
    let len = sel.len();
    let mut found = false;
    let mut k: usize = 0;
    while k < len
        invariant
            len == sel@.len(),
            k <= len,
            found == sel@.take(k as int).contains(x),
        decreases len - k,
    {
        let y = sel[k];
        proof {
            let before = sel@.take(k as int);
            let after = sel@.take(k + 1);
            assert(after =~= before.push(y));
            if y == x {
                assert(after[k as int] == x);
            } else if after.contains(x) {
                let i = choose|i: int| 0 <= i < after.len() && after[i] == x;
                assert(before[i] == x);
            }
        }
        if y == x {
            found = true;
        }
        k = k + 1;
    }
    proof {
        assert(sel@.take(len as int) =~= sel@);
    }
    found
}

/// Toggles `x` in the selection `sel`.
pub fn toggle_selected(sel: &mut Vec<usize>, x: usize)
    ensures
        final(sel)@ == toggled_selection(old(sel)@, x),
{
    let len = sel.len();
    let found = contains_index(sel, x);
    if found {
        let mut kept: Vec<usize> = Vec::new();
        let mut j: usize = 0;
        while j < len
            invariant
                len == sel@.len(),
                j <= len,
                kept@ == without(sel@.take(j as int), x),
            decreases len - j,
        {
            proof {
                assert(sel@.take(j + 1).drop_last() =~= sel@.take(j as int));
            }
            let y = sel[j];
            if y != x {
                kept.push(y);
            }
            j = j + 1;
        }
        proof {
            assert(sel@.take(len as int) =~= sel@);
        }
        *sel = kept;
    } else {
        sel.push(x);
    }
}


proof fn lemma_push_contains(s: Seq<usize>, a: usize, b: usize)
    ensures
        s.push(a).contains(b) <==> (s.contains(b) || a == b),
{
    let t = s.push(a);
    if t.contains(b) {
        let i = choose|i: int| 0 <= i < t.len() && t[i] == b;
        if i < s.len() {
            assert(s[i] == b);
        }
    }
    if s.contains(b) {
        let i = choose|i: int| 0 <= i < s.len() && s[i] == b;
        assert(t[i] == b);
    }
    if a == b {
        assert(t[s.len() as int] == b);
    }
}

proof fn lemma_push_distinct(s: Seq<usize>, a: usize)
    requires
        s.no_duplicates(),
        !s.contains(a),
    ensures
        s.push(a).no_duplicates(),
{
    let t = s.push(a);
    assert forall|i: int, j: int| 0 <= i < t.len() && 0 <= j < t.len() && i != j implies t[i]
        != t[j] by {
        if i < s.len() && j < s.len() {
        } else if i < s.len() {
            assert(s.contains(t[i]));
        } else if j < s.len() {
            assert(s.contains(t[j]));
        }
    }
}

/// Exactly the indices of `s` other than `x` remain in `without(s, x)`.
pub proof fn lemma_without_contains(s: Seq<usize>, x: usize, y: usize)
    ensures
        without(s, x).contains(y) <==> (y != x && s.contains(y)),
    decreases s.len(),
{
    if s.len() > 0 {
        let d = s.drop_last();
        lemma_without_contains(d, x, y);
        assert(s =~= d.push(s.last()));
        lemma_push_contains(d, s.last(), y);
        if s.last() != x {
            lemma_push_contains(without(d, x), s.last(), y);
        }
    }
}

/// Removing an index keeps a selection free of repeats.
pub proof fn lemma_without_distinct(s: Seq<usize>, x: usize)
    requires
        s.no_duplicates(),
    ensures
        without(s, x).no_duplicates(),
    decreases s.len(),
{
    if s.len() > 0 {
        let d = s.drop_last();
        assert(d.no_duplicates());
        lemma_without_distinct(d, x);
        if s.last() != x {
            lemma_without_contains(d, x, s.last());
            if d.contains(s.last()) {
                let i = choose|i: int| 0 <= i < d.len() && d[i] == s.last();
                assert(s[i] == s[s.len() - 1]);
            }
            lemma_push_distinct(without(d, x), s.last());
        }
    }
}

/// Removing an index that is not there changes nothing.
pub proof fn lemma_without_absent(s: Seq<usize>, x: usize)
    requires
        !s.contains(x),
    ensures
        without(s, x) == s,
    decreases s.len(),
{
    if s.len() > 0 {
        let d = s.drop_last();
        assert(s =~= d.push(s.last()));
        lemma_push_contains(d, s.last(), x);
        lemma_without_absent(d, x);
    }
}

/// Toggling an index flips whether it is selected and leaves every other
/// index as it was.
pub proof fn lemma_toggle_flips_membership(s: Seq<usize>, x: usize, y: usize)
    ensures
        toggled_selection(s, x).contains(y) <==> if y == x {
            !s.contains(x)
        } else {
            s.contains(y)
        },
{
    lemma_without_contains(s, x, y);
    lemma_push_contains(s, x, y);
}

/// Toggling keeps a selection free of repeats, as a set of indices is.
pub proof fn lemma_toggle_keeps_distinct(s: Seq<usize>, x: usize)
    requires
        s.no_duplicates(),
    ensures
        toggled_selection(s, x).no_duplicates(),
{
    if s.contains(x) {
        lemma_without_distinct(s, x);
    } else {
        lemma_push_distinct(s, x);
    }
}

/// Selecting an index and deselecting it again restores the selection.
pub proof fn lemma_toggle_twice_restores(s: Seq<usize>, x: usize)
    requires
        !s.contains(x),
    ensures
        toggled_selection(toggled_selection(s, x), x) == s,
{
    lemma_push_contains(s, x, x);
    assert(s.push(x).drop_last() =~= s);
    lemma_without_absent(s, x);
}

/// Removing `x` keeps every other index, in the order the indices were selected.
pub proof fn lemma_without_keeps_order(s: Seq<usize>, x: usize)
    ensures
        without(s, x) == s.filter(|y: usize| y != x),
    decreases s.len(),
{
    reveal_with_fuel(Seq::<usize>::filter, 1);
    if s.len() > 0 {
        lemma_without_keeps_order(s.drop_last(), x);
    }
}

/// Toggling an index that is selected deselects it and leaves the rest of
/// the selection in the order it was made; toggling one that is not selected
/// appends it as the newest selection.
pub proof fn lemma_toggle_keeps_order(s: Seq<usize>, x: usize)
    ensures
        s.contains(x) ==> toggled_selection(s, x) == s.filter(|y: usize| y != x),
        !s.contains(x) ==> toggled_selection(s, x) == s.push(x),
{
    lemma_without_keeps_order(s, x);
}

/// Deselecting never moves the indices selected after the deselected one:
/// for another index `y`, removing `x` and then appending `y` is the same
/// as appending `y` and then removing `x`.
pub proof fn lemma_deselect_then_select_commute(s: Seq<usize>, x: usize, y: usize)
    requires
        y != x,
    ensures
        without(s.push(y), x) == without(s, x).push(y),
{
    assert(s.push(y).drop_last() =~= s);
}

} // verus!
