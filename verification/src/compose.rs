//! Composing a new context file from library snippets.

use vstd::prelude::*;
use vstd::string::*;

use crate::library::Snippet;
use crate::text::push_char;

verus! {

/// The contents of the selected snippets, in selection order; indices past
/// the end of `snippets` contribute nothing.
pub open spec fn selected_contents(snippets: Seq<Snippet>, selected: Seq<usize>) -> Seq<Seq<char>>
    decreases selected.len(),
{
    if selected.len() == 0 {
        Seq::empty()
    } else {
        let rest = selected_contents(snippets, selected.drop_last());
        let i = selected.last();
        if (i as int) < snippets.len() {
            rest.push(snippets[i as int].content@)
        } else {
            rest
        }
    }
}

/// `parts` joined with `sep` between each two neighbours.
pub open spec fn join_with(parts: Seq<Seq<char>>, sep: Seq<char>) -> Seq<char>
    decreases parts.len(),
{
    if parts.len() == 0 {
        Seq::empty()
    } else if parts.len() == 1 {
        parts[0]
    } else {
        join_with(parts.drop_last(), sep) + sep + parts.last()
    }
}

/// The separator between two composed snippets: a blank line.
pub open spec fn snippet_separator() -> Seq<char> {
    seq!['\n', '\n']
}

/// The text composed from `selected`.
pub open spec fn composed(snippets: Seq<Snippet>, selected: Seq<usize>) -> Seq<char> {
    join_with(selected_contents(snippets, selected), snippet_separator())
}

/// Concatenates selected snippets in selection order, separated by double newlines.
///
/// The `selected` slice contains snippet indices in the order they were selected.
/// Out-of-bounds indices are silently skipped.
pub fn compose_snippets(snippets: &[Snippet], selected: &[usize]) -> (r: String)
    ensures
        r@ == composed(snippets@, selected@),
{
    let mut out = String::new();
    let mut any = false;
    let mut k: usize = 0;
    while k < selected.len()
        invariant
            k <= selected@.len(),
            out@ == composed(snippets@, selected@.take(k as int)),
            any == (selected_contents(snippets@, selected@.take(k as int)).len() > 0),
        decreases selected.len() - k,
    {
        let i = selected[k];
        proof {
            assert(selected@.take(k + 1).drop_last() =~= selected@.take(k as int));
        }
        if i < snippets.len() {
            let ghost before = selected_contents(snippets@, selected@.take(k as int));
            if any {
                push_char(&mut out, '\n');
                push_char(&mut out, '\n');
            }
            out.append(snippets[i].content.as_str());
            any = true;
            proof {
                let after = before.push(snippets@[i as int].content@);
                assert(after.drop_last() =~= before);
                if before.len() == 0 {
                    assert(out@ =~= after[0]);
                } else {
                    assert(out@ =~= join_with(before, snippet_separator()) + snippet_separator()
                        + after.last());
                }
            }
        }
        k = k + 1;
    }
    proof {
        assert(selected@.take(selected@.len() as int) =~= selected@);
    }
    out
}

/// Selecting one more snippet appends its content to the composed text,
/// after a blank line where something was composed before.
pub proof fn lemma_selection_appends(snippets: Seq<Snippet>, selected: Seq<usize>, i: usize)
    requires
        (i as int) < snippets.len(),
    ensures
        composed(snippets, selected.push(i)) == if selected_contents(snippets, selected).len()
            == 0 {
            snippets[i as int].content@
        } else {
            composed(snippets, selected) + snippet_separator() + snippets[i as int].content@
        },
{
    let before = selected_contents(snippets, selected);
    assert(selected.push(i).drop_last() =~= selected);
    let after = selected_contents(snippets, selected.push(i));
    assert(after == before.push(snippets[i as int].content@));
    assert(after.drop_last() =~= before);
}

/// Selecting an index past the end of the library changes nothing.
pub proof fn lemma_out_of_range_ignored(snippets: Seq<Snippet>, selected: Seq<usize>, i: usize)
    requires
        (i as int) >= snippets.len(),
    ensures
        composed(snippets, selected.push(i)) == composed(snippets, selected),
{
    assert(selected.push(i).drop_last() =~= selected);
}

/// The contents picked by two selections one after the other are those of
/// the first followed by those of the second.
pub proof fn lemma_selected_contents_concat(snippets: Seq<Snippet>, a: Seq<usize>, b: Seq<usize>)
    ensures
        selected_contents(snippets, a + b) == selected_contents(snippets, a) + selected_contents(
            snippets,
            b,
        ),
    decreases b.len(),
{
    if b.len() == 0 {
        assert(a + b =~= a);
        assert(selected_contents(snippets, a) + Seq::empty() =~= selected_contents(snippets, a));
    } else {
        lemma_selected_contents_concat(snippets, a, b.drop_last());
        assert((a + b).drop_last() =~= a + b.drop_last());
        assert((a + b).last() == b.last());
        let pa = selected_contents(snippets, a);
        let pd = selected_contents(snippets, b.drop_last());
        if (b.last() as int) < snippets.len() {
            let c = snippets[b.last() as int].content@;
            assert((pa + pd).push(c) =~= pa + pd.push(c));
        }
    }
}

proof fn lemma_join_concat(p: Seq<Seq<char>>, q: Seq<Seq<char>>, sep: Seq<char>)
    requires
        p.len() > 0,
        q.len() > 0,
    ensures
        join_with(p + q, sep) == join_with(p, sep) + sep + join_with(q, sep),
    decreases q.len(),
{
    if q.len() == 1 {
        assert((p + q).drop_last() =~= p);
        assert((p + q).last() == q[0]);
    } else {
        let d = q.drop_last();
        lemma_join_concat(p, d, sep);
        assert((p + q).drop_last() =~= p + d);
        assert((p + q).last() == q.last());
        assert(join_with(p, sep) + sep + join_with(d, sep) + sep + q.last() =~= join_with(p, sep)
            + sep + (join_with(d, sep) + sep + q.last()));
    }
}

/// Composing two selections one after the other, each of which picks at
/// least one snippet, gives the first's text, a blank line, then the second's.
pub proof fn lemma_compose_concat(snippets: Seq<Snippet>, a: Seq<usize>, b: Seq<usize>)
    requires
        selected_contents(snippets, a).len() > 0,
        selected_contents(snippets, b).len() > 0,
    ensures
        composed(snippets, a + b) == composed(snippets, a) + snippet_separator() + composed(
            snippets,
            b,
        ),
{
    lemma_selected_contents_concat(snippets, a, b);
    lemma_join_concat(
        selected_contents(snippets, a),
        selected_contents(snippets, b),
        snippet_separator(),
    );
}

/// Two in-range snippets selected one after the other compose to the first
/// one's content, a blank line (two newlines), then the second one's.
pub proof fn lemma_two_selections_blank_line(snippets: Seq<Snippet>, i: usize, j: usize)
    requires
        (i as int) < snippets.len(),
        (j as int) < snippets.len(),
    ensures
        composed(snippets, seq![i, j]) == snippets[i as int].content@ + seq!['\n', '\n']
            + snippets[j as int].content@,
        composed(snippets, seq![i]) == snippets[i as int].content@,
{
    let one = seq![i];
    lemma_selection_appends(snippets, Seq::empty(), i);
    assert(Seq::<usize>::empty().push(i) =~= one);
    lemma_selection_appends(snippets, one, j);
    assert(one.push(j) =~= seq![i, j]);
    assert(selected_contents(snippets, one).len() == 1);
}

} // verus!
