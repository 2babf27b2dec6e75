//! The part of a sequence that passes a test, and lists of strings
//! without one of them.

use crate::text::{same_text, views};
use vstd::prelude::*;

verus! {

/// What passes the test is what the sequence holds and the test accepts.
pub proof fn filter_membership<A>(s: Seq<A>, pred: spec_fn(A) -> bool, x: A)
    ensures
        s.filter(pred).contains(x) <==> s.contains(x) && pred(x),
    decreases s.len(),
{
    reveal(Seq::filter);
    if s.len() > 0 {
        let front = s.drop_last();
        filter_membership(front, pred, x);
        let kept = front.filter(pred);
        if s.contains(x) {
            let i = choose|i: int| 0 <= i < s.len() && s[i] == x;
            if i < front.len() {
                assert(front[i] == x);
            } else {
                assert(s.last() == x);
            }
        }
        if front.contains(x) {
            let i = choose|i: int| 0 <= i < front.len() && front[i] == x;
            assert(s[i] == x);
        }
        if pred(s.last()) {
            let out = kept.push(s.last());
            assert(out[kept.len() as int] == s.last());
            assert(s[s.len() - 1] == s.last());
            if out.contains(x) {
                let i = choose|i: int| 0 <= i < out.len() && out[i] == x;
                if i < kept.len() {
                    assert(kept[i] == x);
                }
            }
            if kept.contains(x) {
                let i = choose|i: int| 0 <= i < kept.len() && kept[i] == x;
                assert(out[i] == x);
            }
        }
    }
}

/// Where nothing occurs twice, nothing occurs twice in what passes the test.
pub proof fn filter_no_duplicates<A>(s: Seq<A>, pred: spec_fn(A) -> bool)
    requires
        s.no_duplicates(),
    ensures
        s.filter(pred).no_duplicates(),
    decreases s.len(),
{
    reveal(Seq::filter);
    if s.len() > 0 {
        let front = s.drop_last();
        assert(front.no_duplicates()) by {
            assert forall|i: int, j: int|
                0 <= i < front.len() && 0 <= j < front.len() && i != j implies front[i]
                != front[j] by {
                assert(front[i] == s[i] && front[j] == s[j]);
            }
        }
        filter_no_duplicates(front, pred);
        let kept = front.filter(pred);
        if pred(s.last()) {
            filter_membership(front, pred, s.last());
            assert(!front.contains(s.last())) by {
                if front.contains(s.last()) {
                    let i = choose|i: int| 0 <= i < front.len() && front[i] == s.last();
                    assert(s[i] == s[s.len() - 1]);
                }
            }
            let out = kept.push(s.last());
            assert forall|i: int, j: int|
                0 <= i < out.len() && 0 <= j < out.len() && i != j implies out[i] != out[j] by {
                if i < kept.len() && j < kept.len() {
                } else if i < kept.len() {
                    assert(kept.contains(kept[i]));
                } else {
                    assert(kept.contains(kept[j]));
                }
            }
        }
    }
}

/// One more item at the end passes the test or is left out.
pub proof fn filter_push<A>(s: Seq<A>, pred: spec_fn(A) -> bool, x: A)
    ensures
        s.push(x).filter(pred) == if pred(x) {
            s.filter(pred).push(x)
        } else {
            s.filter(pred)
        },
{
    reveal(Seq::filter);
    assert(s.push(x).drop_last() == s);
    assert(s.push(x).last() == x);
}

/// The test for any text but `name`.
pub open spec fn other_than(name: Seq<char>) -> spec_fn(Seq<char>) -> bool {
    |other: Seq<char>| other != name
}

/// `items` without every occurrence of `name`, the rest in order.
pub open spec fn without(items: Seq<Seq<char>>, name: Seq<char>) -> Seq<Seq<char>> {
    items.filter(other_than(name))
}

/// What is left without `name` is every other item.
pub proof fn without_membership(items: Seq<Seq<char>>, name: Seq<char>, x: Seq<char>)
    ensures
        without(items, name).contains(x) <==> items.contains(x) && x != name,
{
    filter_membership(items, other_than(name), x);
}

/// Where no item occurs twice, none does in what is left without `name`.
pub proof fn without_no_duplicates(items: Seq<Seq<char>>, name: Seq<char>)
    requires
        items.no_duplicates(),
    ensures
        without(items, name).no_duplicates(),
{
    filter_no_duplicates(items, other_than(name));
}

/// The strings of `items` that differ from `name`, in order.
pub fn strings_without(items: &Vec<String>, name: &str) -> (r: Vec<String>)
    ensures
        views(r@) == without(views(items@), name@),
{
    let ghost keep = other_than(name@);
    let ghost all = views(items@);
    let mut out: Vec<String> = Vec::new();
    let mut i: usize = 0;
    proof {
        reveal(Seq::filter);
    }
    assert(all.take(0) == Seq::<Seq<char>>::empty());
    assert(views(out@) == Seq::<Seq<char>>::empty());
    assert(all.take(0).filter(keep) == Seq::<Seq<char>>::empty());
    while i < items.len()
        invariant
            i <= items.len(),
            all == views(items@),
            keep == other_than(name@),
            views(out@) == all.take(i as int).filter(keep),
        decreases items.len() - i,
    {
        let ghost before = views(out@);
        let current = items[i].as_str();
        proof {
            filter_push(all.take(i as int), keep, current@);
            assert(all.take(i as int).push(current@) == all.take(i + 1));
        }
        if !same_text(current, name) {
            out.push(items[i].clone());
            assert(views(out@) == before.push(current@));
        }
        i += 1;
    }
    assert(all.take(items.len() as int) == all);
    out
}

} // verus!
