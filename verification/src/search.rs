//! The search as a whole, over a model of the file system, and what holds
//! of it.
//!
//! A file system is taken as a function from each path to what a metadata
//! query gives there. The search is then [`find`](crate::find::find) applied
//! round after round, ascending while it says so.

use crate::find::{aborted, exhausted, step, ProbeView, StepView};
use crate::path::{joined, parent_of};
use vstd::prelude::*;

verus! {

/// The directory `k` levels above `directory`: `directory` itself for 0,
/// and `None` past a directory without a parent.
pub open spec fn ancestor(directory: Seq<char>, k: nat) -> Option<Seq<char>>
    decreases k,
{
    if k == 0 {
        Some(directory)
    } else {
        match parent_of(directory) {
            Some(up) => ancestor(up, (k - 1) as nat),
            None => None,
        }
    }
}

/// The path probed for `filename` in the directory `k` levels above
/// `directory`, where there is such a directory.
pub open spec fn candidate_at(directory: Seq<char>, filename: Seq<char>, k: nat) -> Seq<char>
    recommends
        ancestor(directory, k) is Some,
{
    joined(ancestor(directory, k)->0, filename)
}

/// What the search from `directory` has come to after at most `ascents`
/// ascents: `Found` or `Failed` once it is over, `Ascend` while it is not.
pub open spec fn search(
    tree: spec_fn(Seq<char>) -> ProbeView,
    directory: Seq<char>,
    filename: Seq<char>,
    ascents: nat,
) -> StepView
    decreases ascents,
{
    let now = step(directory, filename, tree(joined(directory, filename)));
    if ascents == 0 {
        now
    } else {
        match now {
            StepView::Ascend(up) => search(tree, up, filename, (ascents - 1) as nat),
            _ => now,
        }
    }
}

/// Each of the `k` directories nearest to `directory`, itself included,
/// exists and misses: no regular file named `filename` is in it, and the
/// probe for one did not fail for another reason than that nothing is
/// there.
pub open spec fn misses_below(
    tree: spec_fn(Seq<char>) -> ProbeView,
    directory: Seq<char>,
    filename: Seq<char>,
    k: nat,
) -> bool {
    forall|j: nat|
        j < k ==> (#[trigger] ancestor(directory, j)) is Some && tree(
            candidate_at(directory, filename, j),
        ).is_miss()
}

/// What holds of the ancestors of `directory` holds of those of its parent,
/// one level lower.
proof fn lemma_misses_below_parent(
    tree: spec_fn(Seq<char>) -> ProbeView,
    directory: Seq<char>,
    filename: Seq<char>,
    k: nat,
)
    requires
        k > 0,
        ancestor(directory, k) is Some,
        misses_below(tree, directory, filename, k),
    ensures
        parent_of(directory) is Some,
        tree(joined(directory, filename)).is_miss(),
        ancestor(parent_of(directory)->0, (k - 1) as nat) == ancestor(directory, k),
        misses_below(tree, parent_of(directory)->0, filename, (k - 1) as nat),
{
    let up = parent_of(directory)->0;
    assert(ancestor(directory, 0) is Some);
    assert forall|j: nat| j < k - 1 implies (#[trigger] ancestor(up, j)) is Some && tree(
        candidate_at(up, filename, j),
    ).is_miss() by {
        assert(ancestor(directory, j + 1) == ancestor(up, j));
    }
}

/// Misses are passed over: the search from `directory` comes to what the
/// search from the `k`-th ancestor comes to, `k` ascents later.
proof fn lemma_misses_are_passed(
    tree: spec_fn(Seq<char>) -> ProbeView,
    directory: Seq<char>,
    filename: Seq<char>,
    k: nat,
    n: nat,
)
    requires
        ancestor(directory, k) is Some,
        misses_below(tree, directory, filename, k),
        n >= k,
    ensures
        search(tree, directory, filename, n) == search(
            tree,
            ancestor(directory, k)->0,
            filename,
            (n - k) as nat,
        ),
    decreases k,
{
    if k > 0 {
        lemma_misses_below_parent(tree, directory, filename, k);
        lemma_misses_are_passed(
            tree,
            parent_of(directory)->0,
            filename,
            (k - 1) as nat,
            (n - 1) as nat,
        );
    }
}

/// While only misses have been probed, the search is still ascending.
proof fn lemma_misses_keep_ascending(
    tree: spec_fn(Seq<char>) -> ProbeView,
    directory: Seq<char>,
    filename: Seq<char>,
    k: nat,
    n: nat,
)
    requires
        ancestor(directory, k) is Some,
        misses_below(tree, directory, filename, k),
        n < k,
    ensures
        search(tree, directory, filename, n) is Ascend,
    decreases n,
{
    lemma_misses_below_parent(tree, directory, filename, k);
    if n > 0 {
        lemma_misses_keep_ascending(
            tree,
            parent_of(directory)->0,
            filename,
            (k - 1) as nat,
            (n - 1) as nat,
        );
    }
}

/// The nearest file wins. Where the directory `k` levels above `directory`
/// is the nearest that holds a regular file named `filename`, and no probe
/// nearer than it failed for another reason than that nothing is there, the
/// search ends after `k` ascents with that file's path, and at no time with
/// another path.
pub proof fn lemma_nearest_file_is_found(
    tree: spec_fn(Seq<char>) -> ProbeView,
    directory: Seq<char>,
    filename: Seq<char>,
    k: nat,
)
    requires
        ancestor(directory, k) is Some,
        tree(candidate_at(directory, filename, k)).is_match(),
        misses_below(tree, directory, filename, k),
    ensures
        forall|n: nat|
            n >= k ==> #[trigger] search(tree, directory, filename, n) == StepView::Found(
                candidate_at(directory, filename, k),
            ),
        forall|n: nat|
            (#[trigger] search(tree, directory, filename, n) matches StepView::Found(path)
                ==> path == candidate_at(directory, filename, k)),
{
    assert forall|n: nat| n >= k implies #[trigger] search(tree, directory, filename, n)
        == StepView::Found(candidate_at(directory, filename, k)) by {
        lemma_misses_are_passed(tree, directory, filename, k, n);
    }
    assert forall|n: nat|
        (#[trigger] search(tree, directory, filename, n) matches StepView::Found(path) ==> path
            == candidate_at(directory, filename, k)) by {
        if n < k {
            lemma_misses_keep_ascending(tree, directory, filename, k, n);
        }
    }
}

/// No file, no match. Where the directory `k` levels above `directory` has
/// no parent, and neither `directory` nor any directory above it holds a
/// regular file named `filename`, nor did a probe fail for another reason
/// than that nothing is there, the search ends after `k` ascents with a
/// failure that is "not found" and carries the path of that last directory.
pub proof fn lemma_missing_file_is_not_found(
    tree: spec_fn(Seq<char>) -> ProbeView,
    directory: Seq<char>,
    filename: Seq<char>,
    k: nat,
)
    requires
        ancestor(directory, k) matches Some(root) && parent_of(root) is None,
        misses_below(tree, directory, filename, k + 1),
    ensures
        forall|n: nat|
            n >= k ==> #[trigger] search(tree, directory, filename, n) == StepView::Failed(
                exhausted(ancestor(directory, k)->0),
            ),
        exhausted(ancestor(directory, k)->0).not_found(),
        exhausted(ancestor(directory, k)->0).path() == ancestor(directory, k),
{
    assert forall|n: nat| n >= k implies #[trigger] search(tree, directory, filename, n)
        == StepView::Failed(exhausted(ancestor(directory, k)->0)) by {
        lemma_misses_are_passed(tree, directory, filename, k, n);
    }
}

/// A failed probe ends the search. Where the search reaches the directory
/// `k` levels above `directory` and the probe of its candidate fails for
/// another reason than that nothing is there, the search ends there with
/// that failure, at the candidate's path, whatever lies farther up.
pub proof fn lemma_fatal_probe_ends_search(
    tree: spec_fn(Seq<char>) -> ProbeView,
    directory: Seq<char>,
    filename: Seq<char>,
    k: nat,
)
    requires
        ancestor(directory, k) is Some,
        tree(candidate_at(directory, filename, k)).is_fatal(),
        misses_below(tree, directory, filename, k),
    ensures
        forall|n: nat|
            n >= k ==> #[trigger] search(tree, directory, filename, n) == StepView::Failed(
                aborted(
                    candidate_at(directory, filename, k),
                    tree(candidate_at(directory, filename, k))->Failed_0,
                ),
            ),
        !aborted(
            candidate_at(directory, filename, k),
            tree(candidate_at(directory, filename, k))->Failed_0,
        ).not_found(),
        aborted(
            candidate_at(directory, filename, k),
            tree(candidate_at(directory, filename, k))->Failed_0,
        ).path() == Some(candidate_at(directory, filename, k)),
{
    assert forall|n: nat| n >= k implies #[trigger] search(tree, directory, filename, n)
        == StepView::Failed(
        aborted(
            candidate_at(directory, filename, k),
            tree(candidate_at(directory, filename, k))->Failed_0,
        ),
    ) by {
        lemma_misses_are_passed(tree, directory, filename, k, n);
    }
}

/// The search ends by the root. Where the directory `k` levels above
/// `directory` has no parent, the search is over after at most `k` ascents,
/// whatever the file system holds, and further ascents change nothing.
pub proof fn lemma_search_ends_by_the_root(
    tree: spec_fn(Seq<char>) -> ProbeView,
    directory: Seq<char>,
    filename: Seq<char>,
    k: nat,
    n: nat,
)
    requires
        ancestor(directory, k) matches Some(root) && parent_of(root) is None,
        n >= k,
    ensures
        !(search(tree, directory, filename, k) is Ascend),
        search(tree, directory, filename, n) == search(tree, directory, filename, k),
    decreases k,
{
    if k > 0 {
        lemma_search_ends_by_the_root(
            tree,
            parent_of(directory)->0,
            filename,
            (k - 1) as nat,
            (n - 1) as nat,
        );
    }
}

/// The search stays on the line of ancestors. After at most `n` ascents it
/// has made some `k` of them, each past a miss, and has come to what one
/// round decides in the directory `k` levels above `directory`: it probes no
/// sibling, and it probes `directory` itself first. If it made fewer ascents
/// than it was allowed, it is over.
pub proof fn lemma_search_follows_the_ancestors(
    tree: spec_fn(Seq<char>) -> ProbeView,
    directory: Seq<char>,
    filename: Seq<char>,
    n: nat,
) -> (k: nat)
    ensures
        k <= n,
        ancestor(directory, k) is Some,
        misses_below(tree, directory, filename, k),
        search(tree, directory, filename, n) == step(
            ancestor(directory, k)->0,
            filename,
            tree(candidate_at(directory, filename, k)),
        ),
        k < n ==> !(search(tree, directory, filename, n) is Ascend),
    decreases n,
{
    let now = step(directory, filename, tree(joined(directory, filename)));
    if n > 0 && now is Ascend {
        let up = parent_of(directory)->0;
        let above = lemma_search_follows_the_ancestors(tree, up, filename, (n - 1) as nat);
        assert forall|j: nat| j < above + 1 implies (#[trigger] ancestor(directory, j)) is Some
            && tree(candidate_at(directory, filename, j)).is_miss() by {
            if j > 0 {
                assert(ancestor(up, (j - 1) as nat) == ancestor(directory, j));
            }
        }
        above + 1
    } else {
        0
    }
}

} // verus!
