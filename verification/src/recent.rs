//! The list of recently used files: most recent first, no file twice, at
//! most ten entries.

use vstd::prelude::*;

verus! {

/// The most entries that the list of recent files keeps.
pub const RECENT_LIMIT: usize = 10;

/// The file names of a list, as texts.
pub open spec fn texts(list: Seq<String>) -> Seq<Seq<char>> {
    list.map_values(|s: String| s@)
}

/// Holds of every file name but `path`.
pub open spec fn other_than(path: Seq<char>) -> spec_fn(Seq<char>) -> bool {
    |p: Seq<char>| p != path
}

/// A list cut down to its first ten entries.
pub open spec fn first_ten(list: Seq<Seq<char>>) -> Seq<Seq<char>> {
    if list.len() > RECENT_LIMIT {
        list.take(RECENT_LIMIT as int)
    } else {
        list
    }
}

/// The list after `path` was used: `path` in front, then the other
/// entries in their old order, cut to ten.
pub open spec fn pushed_recent(list: Seq<Seq<char>>, path: Seq<char>) -> Seq<Seq<char>> {
    first_ten(seq![path] + list.filter(other_than(path)))
}

/// A list of recent files is in order: at most ten entries, none twice.
pub open spec fn recent_wf(list: Seq<Seq<char>>) -> bool {
    list.len() <= RECENT_LIMIT && list.no_duplicates()
}

/// A stored list brought in order: of each file name the first place
/// stays, and of what is left the first ten.
pub open spec fn normalized(list: Seq<Seq<char>>) -> Seq<Seq<char>>
    decreases list.len(),
{
    if list.len() == 0 {
        list
    } else {
        pushed_recent(normalized(list.drop_first()), list[0])
    }
}

/// Where `path` is not in the list, taking it out changes nothing.
pub proof fn lemma_without_absent(list: Seq<Seq<char>>, path: Seq<char>)
    requires
        !list.contains(path),
    ensures
        list.filter(other_than(path)) == list,
    decreases list.len(),
{
    reveal(Seq::filter);
    if list.len() > 0 {
        let front = list.drop_last();
        assert forall|x: Seq<char>| front.contains(x) implies list.contains(x) by {
            let i = choose|i: int| 0 <= i < front.len() && front[i] == x;
            assert(list[i] == x);
        }
        assert(list[list.len() - 1] == list.last());
        lemma_without_absent(front, path);
        assert(front.push(list.last()) =~= list);
    }
}

/// What is left after taking `path` out holds no duplicates where the
/// list held none, holds entries of the list only, and does not hold `path`.
pub proof fn lemma_without_keeps_order(list: Seq<Seq<char>>, path: Seq<char>)
    requires
        list.no_duplicates(),
    ensures
        list.filter(other_than(path)).no_duplicates(),
        !list.filter(other_than(path)).contains(path),
        forall|x: Seq<char>| #[trigger]
            list.filter(other_than(path)).contains(x) ==> list.contains(x),
    decreases list.len(),
{
    reveal(Seq::filter);
    let rest = list.filter(other_than(path));
    if list.len() > 0 {
        let front = list.drop_last();
        let kept = front.filter(other_than(path));
        lemma_without_keeps_order(front, path);
        assert forall|x: Seq<char>| #[trigger] rest.contains(x) implies list.contains(x) by {
            let i = choose|i: int| 0 <= i < rest.len() && rest[i] == x;
            if i < kept.len() {
                assert(kept[i] == x);
                assert(kept.contains(x));
                let j = choose|j: int| 0 <= j < front.len() && front[j] == x;
                assert(list[j] == x);
            } else {
                assert(list[list.len() - 1] == x);
            }
        }
        if other_than(path)(list.last()) {
            assert(rest == kept.push(list.last()));
            if kept.contains(list.last()) {
                let j = choose|j: int| 0 <= j < front.len() && front[j] == list.last();
                assert(list[j] == list[list.len() - 1]);
            }
            assert forall|i: int, j: int| 0 <= i < rest.len() && 0 <= j < rest.len() && i != j
                implies rest[i] != rest[j] by {
                if i < kept.len() && j < kept.len() {
                } else if i < kept.len() {
                    assert(kept.contains(kept[i]));
                } else {
                    assert(kept.contains(kept[j]));
                }
            }
            if rest.contains(path) {
                let i = choose|i: int| 0 <= i < rest.len() && rest[i] == path;
                if i < kept.len() {
                    assert(kept.contains(path));
                }
            }
        }
    }
}

/// Taking out an entry that a list without duplicates holds shortens it by one.
pub proof fn lemma_without_present(list: Seq<Seq<char>>, path: Seq<char>)
    requires
        list.no_duplicates(),
        list.contains(path),
    ensures
        list.filter(other_than(path)).len() == list.len() - 1,
    decreases list.len(),
{
    reveal(Seq::filter);
    let front = list.drop_last();
    if list.last() == path {
        if front.contains(path) {
            let j = choose|j: int| 0 <= j < front.len() && front[j] == path;
            assert(list[j] == list[list.len() - 1]);
        }
        lemma_without_absent(front, path);
    } else {
        let i = choose|i: int| 0 <= i < list.len() && list[i] == path;
        assert(front[i] == path);
        lemma_without_present(front, path);
    }
}

/// Using a file puts it in front and keeps the list in order: at most
/// ten entries, none twice. Where the list was in order and held the
/// file already, its length stays.
pub proof fn lemma_pushed_recent_wf(list: Seq<Seq<char>>, path: Seq<char>)
    requires
        list.no_duplicates(),
    ensures
        recent_wf(pushed_recent(list, path)),
        pushed_recent(list, path).len() >= 1,
        pushed_recent(list, path)[0] == path,
        recent_wf(list) && list.contains(path) ==> pushed_recent(list, path).len()
            == list.len(),
        recent_wf(list) && !list.contains(path) && list.len() < RECENT_LIMIT ==> pushed_recent(
            list,
            path,
        ) == seq![path] + list,
{
    let rest = list.filter(other_than(path));
    let all = seq![path] + rest;
    lemma_without_keeps_order(list, path);
    assert forall|i: int, j: int| 0 <= i < all.len() && 0 <= j < all.len() && i != j implies all[i]
        != all[j] by {
        if i == 0 {
            assert(rest.contains(rest[j - 1]));
        } else if j == 0 {
            assert(rest.contains(rest[i - 1]));
        } else {
            assert(rest[i - 1] != rest[j - 1]);
        }
    }
    if list.contains(path) {
        lemma_without_present(list, path);
    } else {
        lemma_without_absent(list, path);
    }
}

/// A stored list comes out in order, whatever it held.
pub proof fn lemma_normalized_wf(list: Seq<Seq<char>>)
    ensures
        recent_wf(normalized(list)),
    decreases list.len(),
{
    if list.len() > 0 {
        lemma_normalized_wf(list.drop_first());
        lemma_pushed_recent_wf(normalized(list.drop_first()), list[0]);
    }
}

/// A list that is in order is left as it is.
pub proof fn lemma_normalized_keeps_wf(list: Seq<Seq<char>>)
    requires
        recent_wf(list),
    ensures
        normalized(list) == list,
    decreases list.len(),
{
    if list.len() > 0 {
        let rest = list.drop_first();
        lemma_normalized_keeps_wf(rest);
        if rest.contains(list[0]) {
            let j = choose|j: int| 0 <= j < rest.len() && rest[j] == list[0];
            assert(list[j + 1] == list[0]);
        }
        lemma_pushed_recent_wf(rest, list[0]);
        assert(seq![list[0]] + rest =~= list);
    }
}

/// Records that `path` was used: it moves to the front of the list, or
/// enters there, and the list is cut to ten entries.
pub fn push_recent(list: &mut Vec<String>, path: String)
    ensures
        texts(final(list)@) == pushed_recent(texts(old(list)@), path@),
{
    let ghost before = texts(list@);
    let ghost keep = other_than(path@);
    let mut out: Vec<String> = Vec::new();
    out.push(path.clone());
    proof {
        reveal(Seq::filter);
        assert(before.take(0).filter(keep) =~= Seq::<Seq<char>>::empty());
        assert(texts(out@) =~= seq![path@] + before.take(0).filter(keep));
    }
    let mut i: usize = 0;
    while i < list.len()
        invariant
            i <= list.len(),
            before == texts(list@),
            keep == other_than(path@),
            texts(out@) == first_ten(seq![path@] + before.take(i as int).filter(keep)),
        decreases list.len() - i,
    {
        let ghost seen = before.take(i as int);
        let ghost kept = seq![path@] + seen.filter(keep);
        proof {
            assert(before.take(i + 1) =~= seen.push(before[i as int]));
            seen.lemma_filter_push(before[i as int], keep);
            assert(before[i as int] == list@[i as int]@);
        }
        if !(list[i] == path) {
            proof {
                assert(seq![path@] + seen.filter(keep).push(before[i as int]) =~= kept.push(
                    before[i as int],
                ));
            }
            if out.len() < RECENT_LIMIT {
                let ghost shown = texts(out@);
                out.push(list[i].clone());
                proof {
                    assert(texts(out@) =~= shown.push(before[i as int]));
                }
            } else {
                proof {
                    assert(kept.push(before[i as int]).take(RECENT_LIMIT as int) =~= kept.take(
                        RECENT_LIMIT as int,
                    ));
                    assert(kept.len() == RECENT_LIMIT ==> kept.take(RECENT_LIMIT as int) =~= kept);
                }
            }
        }
        i += 1;
    }
    proof {
        assert(before.take(list.len() as int) =~= before);
    }
    *list = out;
}

/// Brings a stored list in order: of each file name the first place
/// stays, and of what is left the first ten.
pub fn normalize_recent(list: &Vec<String>) -> (out: Vec<String>)
    ensures
        texts(out@) == normalized(texts(list@)),
        recent_wf(texts(out@)),
{
    let ghost all = texts(list@);
    let mut out: Vec<String> = Vec::new();
    let mut i: usize = list.len();
    proof {
        assert(all.skip(i as int) =~= Seq::<Seq<char>>::empty());
        assert(texts(out@) =~= Seq::<Seq<char>>::empty());
    }
    while i > 0
        invariant
            i <= list.len(),
            all == texts(list@),
            texts(out@) == normalized(all.skip(i as int)),
        decreases i,
    {
        i -= 1;
        proof {
            assert(all.skip(i as int).drop_first() =~= all.skip(i + 1));
            assert(all.skip(i as int)[0] == list@[i as int]@);
        }
        push_recent(&mut out, list[i].clone());
    }
    proof {
        assert(all.skip(0) =~= all);
        lemma_normalized_wf(all);
    }
    out
}

/// A copy of a list of file names.
pub fn copy_list(list: &Vec<String>) -> (out: Vec<String>)
    ensures
        out@ == list@,
{
    let mut out: Vec<String> = Vec::new();
    let mut i: usize = 0;
    while i < list.len()
        invariant
            i <= list.len(),
            out@ == list@.take(i as int),
        decreases list.len() - i,
    {
        out.push(list[i].clone());
        proof {
            assert(out@ =~= list@.take(i + 1));
        }
        i += 1;
    }
    proof {
        assert(list@.take(list.len() as int) =~= list@);
    }
    out
}

} // verus!
