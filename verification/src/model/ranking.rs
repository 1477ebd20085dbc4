//! Stable sorting of records by an integer rank.

use vstd::prelude::*;
use vstd::seq_lib::lemma_multiset_commutative;
use vstd::seq_lib::to_multiset_build;

verus! {

/// A way to rank the items of a list: items of lower rank come first.
pub trait Ranking<T> {
    /// The rank of an item.
    spec fn rank(item: T) -> int;

    /// Whether `a` has a lower rank than `b`.
    fn precedes(a: &T, b: &T) -> (r: bool)
        ensures
            r == (Self::rank(*a) < Self::rank(*b)),
    ;
}

/// No item of `s` is followed by an item of lower rank.
pub open spec fn is_sorted<T, R: Ranking<T>>(s: Seq<T>) -> bool {
    forall|i: int, j: int| 0 <= i <= j < s.len() ==> R::rank(s[i]) <= R::rank(s[j])
}

/// The items of `s` whose rank is `k`, in the order in which `s` holds them.
pub open spec fn with_rank<T, R: Ranking<T>>(s: Seq<T>, k: int) -> Seq<T>
    decreases s.len(),
{
    if s.len() == 0 {
        Seq::empty()
    } else if R::rank(s.last()) == k {
        with_rank::<T, R>(s.drop_last(), k).push(s.last())
    } else {
        with_rank::<T, R>(s.drop_last(), k)
    }
}

/// `out` holds the items of `input`, ordered by rank, and items of equal rank
/// stand in `out` in the order in which they stand in `input`.
pub open spec fn is_stable_sort_of<T, R: Ranking<T>>(out: Seq<T>, input: Seq<T>) -> bool {
    &&& is_sorted::<T, R>(out)
    &&& out.to_multiset() == input.to_multiset()
    &&& forall|k: int| #[trigger] with_rank::<T, R>(out, k) == with_rank::<T, R>(input, k)
}

/// Selecting by rank goes through concatenation.
pub proof fn lemma_with_rank_concat<T, R: Ranking<T>>(a: Seq<T>, b: Seq<T>, k: int)
    ensures
        with_rank::<T, R>(a + b, k) == with_rank::<T, R>(a, k) + with_rank::<T, R>(b, k),
    decreases b.len(),
{
    if b.len() == 0 {
        assert(a + b =~= a);
        assert(with_rank::<T, R>(a, k) + with_rank::<T, R>(b, k) =~= with_rank::<T, R>(a, k));
    } else {
        lemma_with_rank_concat::<T, R>(a, b.drop_last(), k);
        assert((a + b).drop_last() =~= a + b.drop_last());
        assert((a + b).last() == b.last());
        if R::rank(b.last()) == k {
            assert(with_rank::<T, R>(a + b, k) =~= with_rank::<T, R>(a, k) + with_rank::<T, R>(
                b,
                k,
            ));
        }
    }
}

/// Selecting by rank from a list of one item.
pub proof fn lemma_with_rank_single<T, R: Ranking<T>>(x: T, k: int)
    ensures
        with_rank::<T, R>(seq![x], k) == if R::rank(x) == k {
            seq![x]
        } else {
            Seq::<T>::empty()
        },
{
    let s = seq![x];
    assert(s.drop_last() =~= Seq::<T>::empty());
    assert(with_rank::<T, R>(s.drop_last(), k) =~= Seq::<T>::empty());
    assert(s.last() == x);
    if R::rank(x) == k {
        assert(Seq::<T>::empty().push(x) =~= seq![x]);
    }
}

/// Every item that is selected by rank `k` has rank `k` and stands in the list.
pub proof fn lemma_with_rank_items<T, R: Ranking<T>>(s: Seq<T>, k: int)
    ensures
        forall|i: int|
            0 <= i < with_rank::<T, R>(s, k).len() ==> R::rank(
                #[trigger] with_rank::<T, R>(s, k)[i],
            ) == k && s.contains(with_rank::<T, R>(s, k)[i]),
    decreases s.len(),
{
    if s.len() > 0 {
        lemma_with_rank_items::<T, R>(s.drop_last(), k);
        let sel = with_rank::<T, R>(s, k);
        assert forall|i: int| 0 <= i < sel.len() implies R::rank(#[trigger] sel[i]) == k
            && s.contains(sel[i]) by {
            let rest = with_rank::<T, R>(s.drop_last(), k);
            if i < rest.len() {
                assert(sel[i] == rest[i]);
                let j = choose|j: int| 0 <= j < s.drop_last().len() && s.drop_last()[j] == rest[i];
                assert(s[j] == sel[i]);
            } else {
                assert(sel[i] == s.last());
                assert(s[s.len() - 1] == sel[i]);
            }
        }
    }
}

/// A list that holds no item of rank `k` selects nothing by `k`.
pub proof fn lemma_with_rank_absent<T, R: Ranking<T>>(s: Seq<T>, k: int)
    requires
        forall|i: int| 0 <= i < s.len() ==> R::rank(#[trigger] s[i]) != k,
    ensures
        with_rank::<T, R>(s, k) == Seq::<T>::empty(),
    decreases s.len(),
{
    if s.len() > 0 {
        assert forall|i: int| 0 <= i < s.drop_last().len() implies R::rank(
            #[trigger] s.drop_last()[i],
        ) != k by {
            assert(s.drop_last()[i] == s[i]);
        }
        lemma_with_rank_absent::<T, R>(s.drop_last(), k);
        assert(R::rank(s[s.len() - 1]) != k);
    }
}

/// The stable sort of `input`: its items ordered by rank, those of equal rank
/// in the order in which `input` holds them.
pub open spec fn stable_sorted<T, R: Ranking<T>>(input: Seq<T>) -> Seq<T> {
    choose|out: Seq<T>| is_stable_sort_of::<T, R>(out, input)
}

/// The number of items at the front of the sorted list `s` whose rank is at
/// most `k`.
spec fn front_up_to<T, R: Ranking<T>>(s: Seq<T>, k: int) -> int
    decreases s.len(),
{
    if s.len() == 0 {
        0
    } else if R::rank(s.last()) <= k {
        s.len() as int
    } else {
        front_up_to::<T, R>(s.drop_last(), k)
    }
}

proof fn lemma_front_up_to<T, R: Ranking<T>>(s: Seq<T>, k: int)
    requires
        is_sorted::<T, R>(s),
    ensures
        0 <= front_up_to::<T, R>(s, k) <= s.len(),
        forall|i: int| 0 <= i < front_up_to::<T, R>(s, k) ==> R::rank(#[trigger] s[i]) <= k,
        forall|i: int| front_up_to::<T, R>(s, k) <= i < s.len() ==> R::rank(#[trigger] s[i]) > k,
    decreases s.len(),
{
    if s.len() > 0 {
        if R::rank(s.last()) <= k {
            assert forall|i: int| 0 <= i < s.len() implies R::rank(#[trigger] s[i]) <= k by {
                assert(R::rank(s[i]) <= R::rank(s[s.len() - 1]));
            }
        } else {
            assert forall|i: int, j: int| 0 <= i <= j < s.drop_last().len() implies R::rank(
                s.drop_last()[i],
            ) <= R::rank(s.drop_last()[j]) by {
                assert(R::rank(s[i]) <= R::rank(s[j]));
            }
            lemma_front_up_to::<T, R>(s.drop_last(), k);
            let p = front_up_to::<T, R>(s.drop_last(), k);
            assert forall|i: int| 0 <= i < p implies R::rank(#[trigger] s[i]) <= k by {
                assert(s[i] == s.drop_last()[i]);
            }
            assert forall|i: int| p <= i < s.len() implies R::rank(#[trigger] s[i]) > k by {
                if i < s.len() - 1 {
                    assert(s[i] == s.drop_last()[i]);
                }
            }
        }
    }
}

/// A sorted list stays a stable sort when one more item comes in behind the
/// items that do not rank above it.
proof fn lemma_stable_sort_grows<T, R: Ranking<T>>(out: Seq<T>, input: Seq<T>, x: T)
    requires
        is_stable_sort_of::<T, R>(out, input),
    ensures
        is_stable_sort_of::<T, R>(
            out.insert(front_up_to::<T, R>(out, R::rank(x)), x),
            input.push(x),
        ),
{
    let kx = R::rank(x);
    let p = front_up_to::<T, R>(out, kx);
    lemma_front_up_to::<T, R>(out, kx);
    let front = out.subrange(0, p);
    let rest = out.subrange(p, out.len() as int);
    let next = out.insert(p, x);
    assert(out =~= front + rest);
    assert(next =~= front + seq![x] + rest);
    assert forall|i: int, j: int| 0 <= i <= j < next.len() implies R::rank(next[i]) <= R::rank(
        next[j],
    ) by {
        let ri = if i < p {
            out[i]
        } else if i == p {
            x
        } else {
            out[i - 1]
        };
        let rj = if j < p {
            out[j]
        } else if j == p {
            x
        } else {
            out[j - 1]
        };
        assert(next[i] == ri);
        assert(next[j] == rj);
        if i < p && j < p {
            assert(R::rank(out[i]) <= R::rank(out[j]));
        } else if i > p && j > p {
            assert(R::rank(out[i - 1]) <= R::rank(out[j - 1]));
        }
    }
    vstd::seq_lib::to_multiset_insert(out, p, x);
    to_multiset_build(input, x);
    assert forall|k: int| #[trigger]
        with_rank::<T, R>(next, k) == with_rank::<T, R>(input.push(x), k) by {
        assert(with_rank::<T, R>(out, k) == with_rank::<T, R>(input, k));
        assert(input.push(x).drop_last() =~= input);
        lemma_with_rank_concat::<T, R>(front, rest, k);
        lemma_with_rank_concat::<T, R>(front + seq![x], rest, k);
        lemma_with_rank_concat::<T, R>(front, seq![x], k);
        lemma_with_rank_single::<T, R>(x, k);
        let f = with_rank::<T, R>(front, k);
        let r = with_rank::<T, R>(rest, k);
        if k == kx {
            assert forall|i: int| 0 <= i < rest.len() implies R::rank(#[trigger] rest[i])
                != k by {
                assert(rest[i] == out[p + i]);
            }
            lemma_with_rank_absent::<T, R>(rest, k);
            assert(f + seq![x] + r =~= (f + r).push(x));
        } else {
            assert(f + Seq::<T>::empty() + r =~= f + r);
        }
    }
}

/// Every list has a stable sort.
pub proof fn lemma_stable_sort_exists<T, R: Ranking<T>>(input: Seq<T>)
    ensures
        is_stable_sort_of::<T, R>(stable_sorted::<T, R>(input), input),
    decreases input.len(),
{
    if input.len() == 0 {
        assert(is_stable_sort_of::<T, R>(input, input));
    } else {
        lemma_stable_sort_exists::<T, R>(input.drop_last());
        let before = stable_sorted::<T, R>(input.drop_last());
        let x = input.last();
        lemma_stable_sort_grows::<T, R>(before, input.drop_last(), x);
        assert(input.drop_last().push(x) =~= input);
        assert(is_stable_sort_of::<T, R>(
            before.insert(front_up_to::<T, R>(before, R::rank(x)), x),
            input,
        ));
    }
}

/// Whatever is a stable sort of a list is the stable sort of that list.
pub proof fn lemma_stable_sort_is_stable_sorted<T, R: Ranking<T>>(out: Seq<T>, input: Seq<T>)
    requires
        is_stable_sort_of::<T, R>(out, input),
    ensures
        out == stable_sorted::<T, R>(input),
{
    lemma_stable_sort_is_unique::<T, R>(out, stable_sorted::<T, R>(input), input);
}

/// A sorted list is its own stable sort.
pub proof fn lemma_sorted_list_is_stable_sorted<T, R: Ranking<T>>(s: Seq<T>)
    requires
        is_sorted::<T, R>(s),
    ensures
        stable_sorted::<T, R>(s) == s,
{
    assert(is_stable_sort_of::<T, R>(s, s));
    lemma_stable_sort_is_stable_sorted::<T, R>(s, s);
}

/// To sort a second time changes nothing.
pub proof fn lemma_stable_sort_is_idempotent<T, R: Ranking<T>>(s: Seq<T>)
    ensures
        stable_sorted::<T, R>(stable_sorted::<T, R>(s)) == stable_sorted::<T, R>(s),
{
    lemma_stable_sort_exists::<T, R>(s);
    lemma_sorted_list_is_stable_sorted::<T, R>(stable_sorted::<T, R>(s));
}

/// To sort a list and then to sort it again with one more item behind it is
/// to sort the list with that item behind it: items may be sorted in as they
/// come.
pub proof fn lemma_stable_sort_takes_items_in_turn<T, R: Ranking<T>>(s: Seq<T>, x: T)
    ensures
        stable_sorted::<T, R>(stable_sorted::<T, R>(s).push(x)) == stable_sorted::<T, R>(
            s.push(x),
        ),
{
    let first = stable_sorted::<T, R>(s);
    let second = stable_sorted::<T, R>(first.push(x));
    lemma_stable_sort_exists::<T, R>(s);
    lemma_stable_sort_exists::<T, R>(first.push(x));
    to_multiset_build(first, x);
    to_multiset_build(s, x);
    assert forall|k: int| #[trigger]
        with_rank::<T, R>(second, k) == with_rank::<T, R>(s.push(x), k) by {
        assert(with_rank::<T, R>(second, k) == with_rank::<T, R>(first.push(x), k));
        assert(with_rank::<T, R>(first, k) == with_rank::<T, R>(s, k));
        assert(first.push(x).drop_last() =~= first);
        assert(s.push(x).drop_last() =~= s);
    }
    lemma_stable_sort_is_stable_sorted::<T, R>(second, s.push(x));
}

/// A list and its stable sort have the same length, and each item stands
/// as often in the one as in the other.
pub proof fn lemma_stable_sort_is_permutation<T, R: Ranking<T>>(s: Seq<T>)
    ensures
        stable_sorted::<T, R>(s).len() == s.len(),
        stable_sorted::<T, R>(s).to_multiset() == s.to_multiset(),
{
    lemma_stable_sort_exists::<T, R>(s);
    s.to_multiset_ensures();
    stable_sorted::<T, R>(s).to_multiset_ensures();
}

/// Sorts a list by rank. Items of equal rank keep the order in which they came.
pub fn stable_sort<T, R: Ranking<T>>(items: Vec<T>) -> (out: Vec<T>)
    ensures
        out@ == stable_sorted::<T, R>(items@),
        is_stable_sort_of::<T, R>(out@, items@),
    decreases items.len(),
{
    let n = items.len();
    if n <= 1 {
        proof {
            assert(is_stable_sort_of::<T, R>(items@, items@));
            lemma_stable_sort_is_stable_sorted::<T, R>(items@, items@);
        }
        return items;
    }
    let mut left = items;
    let right = left.split_off(n / 2);
    let ghost first = left@;
    let ghost second = right@;
    let left = stable_sort::<T, R>(left);
    let right = stable_sort::<T, R>(right);
    let out = merge::<T, R>(left, right);
    proof {
        assert(items@ =~= first + second);
        lemma_multiset_commutative(left@, right@);
        lemma_multiset_commutative(first, second);
        assert forall|k: int| #[trigger]
            with_rank::<T, R>(out@, k) == with_rank::<T, R>(items@, k) by {
            lemma_with_rank_concat::<T, R>(left@, right@, k);
            lemma_with_rank_concat::<T, R>(first, second, k);
        }
        lemma_stable_sort_is_stable_sorted::<T, R>(out@, items@);
    }
    out
}

/// Two stable sorts of one list are the same list.
pub proof fn lemma_stable_sort_is_unique<T, R: Ranking<T>>(a: Seq<T>, b: Seq<T>, input: Seq<T>)
    requires
        is_stable_sort_of::<T, R>(a, input),
        is_stable_sort_of::<T, R>(b, input),
    ensures
        a == b,
{
    assert forall|k: int| #[trigger]
        with_rank::<T, R>(a, k) == with_rank::<T, R>(b, k) by {
        assert(with_rank::<T, R>(a, k) == with_rank::<T, R>(input, k));
        assert(with_rank::<T, R>(b, k) == with_rank::<T, R>(input, k));
    }
    a.to_multiset_ensures();
    b.to_multiset_ensures();
    lemma_sorted_lists_agree::<T, R>(a, b);
}

/// Two sorted lists of one length that select the same items by every rank
/// are the same list.
proof fn lemma_sorted_lists_agree<T, R: Ranking<T>>(a: Seq<T>, b: Seq<T>)
    requires
        is_sorted::<T, R>(a),
        is_sorted::<T, R>(b),
        a.len() == b.len(),
        forall|k: int| #[trigger] with_rank::<T, R>(a, k) == with_rank::<T, R>(b, k),
    ensures
        a == b,
    decreases a.len(),
{
    if a.len() == 0 {
        assert(a =~= b);
    } else {
        let x = a.last();
        let y = b.last();
        let kx = R::rank(x);
        let ky = R::rank(y);
        // The last item of each list is the last of those that its rank selects.
        assert(with_rank::<T, R>(a, kx).last() == x);
        assert(with_rank::<T, R>(b, ky).last() == y);
        assert(with_rank::<T, R>(b, kx) == with_rank::<T, R>(a, kx));
        assert(with_rank::<T, R>(a, ky) == with_rank::<T, R>(b, ky));
        lemma_with_rank_items::<T, R>(a, ky);
        lemma_with_rank_items::<T, R>(b, kx);
        let sel_a = with_rank::<T, R>(a, ky);
        let sel_b = with_rank::<T, R>(b, kx);
        assert(a.contains(sel_a[sel_a.len() - 1]));
        assert(b.contains(sel_b[sel_b.len() - 1]));
        let i = choose|i: int| 0 <= i < a.len() && a[i] == y;
        let j = choose|j: int| 0 <= j < b.len() && b[j] == x;
        assert(R::rank(a[i]) <= R::rank(a[a.len() - 1]));
        assert(R::rank(b[j]) <= R::rank(b[b.len() - 1]));
        assert(kx == ky);
        assert(x == y);
        assert forall|k: int| #[trigger]
            with_rank::<T, R>(a.drop_last(), k) == with_rank::<T, R>(b.drop_last(), k) by {
            assert(with_rank::<T, R>(a, k) == with_rank::<T, R>(b, k));
            if k == kx {
                assert(with_rank::<T, R>(a, k).drop_last() =~= with_rank::<T, R>(
                    a.drop_last(),
                    k,
                ));
                assert(with_rank::<T, R>(b, k).drop_last() =~= with_rank::<T, R>(
                    b.drop_last(),
                    k,
                ));
            }
        }
        assert forall|i: int, j: int| 0 <= i <= j < a.drop_last().len() implies R::rank(
            a.drop_last()[i],
        ) <= R::rank(a.drop_last()[j]) by {
            assert(R::rank(a[i]) <= R::rank(a[j]));
        }
        assert forall|i: int, j: int| 0 <= i <= j < b.drop_last().len() implies R::rank(
            b.drop_last()[i],
        ) <= R::rank(b.drop_last()[j]) by {
            assert(R::rank(b[i]) <= R::rank(b[j]));
        }
        lemma_sorted_lists_agree::<T, R>(a.drop_last(), b.drop_last());
        assert(a =~= a.drop_last().push(x));
        assert(b =~= b.drop_last().push(y));
    }
}

/// Merges two sorted lists into one. Where an item of `left` and an item of
/// `right` have the same rank, the item of `left` comes first.
fn merge<T, R: Ranking<T>>(left: Vec<T>, right: Vec<T>) -> (out: Vec<T>)
    requires
        is_sorted::<T, R>(left@),
        is_sorted::<T, R>(right@),
    ensures
        is_stable_sort_of::<T, R>(out@, left@ + right@),
{
    let mut left = left;
    let mut right = right;
    let ghost left0 = left@;
    let ghost right0 = right@;
    // The merged items, the last of them first.
    let mut back: Vec<T> = Vec::new();
    let ghost mut tail: Seq<T> = Seq::empty();
    proof {
        assert forall|k: int|
            with_rank::<T, R>(left@, k) + with_rank::<T, R>(right@, k) + #[trigger] with_rank::<
                T,
                R,
            >(tail, k) == with_rank::<T, R>(left0, k) + with_rank::<T, R>(right0, k) by {
            assert(with_rank::<T, R>(left@, k) + with_rank::<T, R>(right@, k) + with_rank::<T, R>(
                tail,
                k,
            ) =~= with_rank::<T, R>(left0, k) + with_rank::<T, R>(right0, k));
        }
        assert(tail.to_multiset() =~= vstd::multiset::Multiset::<T>::empty()) by {
            tail.to_multiset_ensures();
        }
        assert(left@.to_multiset().add(right@.to_multiset()).add(tail.to_multiset())
            =~= left0.to_multiset().add(right0.to_multiset()));
    }
    while left.len() > 0 || right.len() > 0
        invariant
            is_sorted::<T, R>(left@),
            is_sorted::<T, R>(right@),
            is_sorted::<T, R>(tail),
            back@.len() == tail.len(),
            forall|i: int| 0 <= i < tail.len() ==> back@[i] == tail[tail.len() - 1 - i],
            forall|i: int|
                0 <= i < left@.len() && tail.len() > 0 ==> R::rank(#[trigger] left@[i]) <= R::rank(
                    tail[0],
                ),
            forall|i: int|
                0 <= i < right@.len() && tail.len() > 0 ==> R::rank(#[trigger] right@[i])
                    <= R::rank(tail[0]),
            forall|k: int|
                with_rank::<T, R>(left@, k) + with_rank::<T, R>(right@, k) + #[trigger] with_rank::<
                    T,
                    R,
                >(tail, k) == with_rank::<T, R>(left0, k) + with_rank::<T, R>(right0, k),
            left@.to_multiset().add(right@.to_multiset()).add(tail.to_multiset())
                == left0.to_multiset().add(right0.to_multiset()),
        decreases left.len() + right.len(),
    {
        let from_left = if right.len() == 0 {
            true
        } else if left.len() == 0 {
            false
        } else {
            R::precedes(&right[right.len() - 1], &left[left.len() - 1])
        };
        let ghost left1 = left@;
        let ghost right1 = right@;
        let ghost tail1 = tail;
        if from_left {
            let x = left.pop().unwrap();
            back.push(x);
            proof {
                tail = seq![x] + tail1;
                assert(left1 =~= left@.push(x));
                assert forall|i: int| 0 <= i < right1.len() implies R::rank(#[trigger] right1[i])
                    < R::rank(x) by {
                    assert(R::rank(right1[i]) <= R::rank(right1[right1.len() - 1]));
                }
                lemma_merge_step::<T, R>(left@, right1, tail1, x, true);
            }
        } else {
            let x = right.pop().unwrap();
            back.push(x);
            proof {
                tail = seq![x] + tail1;
                assert(right1 =~= right@.push(x));
                assert forall|i: int| 0 <= i < left1.len() implies R::rank(#[trigger] left1[i])
                    <= R::rank(x) by {
                    assert(R::rank(left1[i]) <= R::rank(left1[left1.len() - 1]));
                }
                lemma_merge_step::<T, R>(left1, right@, tail1, x, false);
            }
        }
        proof {
            assert forall|i: int| 0 <= i < tail.len() implies back@[i] == tail[tail.len() - 1
                - i] by {
                if i < tail1.len() {
                    assert(tail[tail.len() - 1 - i] == tail1[tail1.len() - 1 - i]);
                }
            }
        }
    }
    let mut out: Vec<T> = Vec::new();
    while back.len() > 0
        invariant
            out@.len() + back@.len() == tail.len(),
            forall|i: int| 0 <= i < out@.len() ==> out@[i] == tail[i],
            forall|i: int| 0 <= i < back@.len() ==> back@[i] == tail[tail.len() - 1 - i],
        decreases back.len(),
    {
        let x = back.pop().unwrap();
        out.push(x);
    }
    proof {
        assert(out@ =~= tail);
        assert(left@ =~= Seq::<T>::empty());
        assert(right@ =~= Seq::<T>::empty());
        assert(left@.to_multiset() =~= vstd::multiset::Multiset::<T>::empty()) by {
            left@.to_multiset_ensures();
        }
        assert(right@.to_multiset() =~= vstd::multiset::Multiset::<T>::empty()) by {
            right@.to_multiset_ensures();
        }
        assert(tail.to_multiset() =~= left0.to_multiset().add(right0.to_multiset()));
        lemma_multiset_commutative(left0, right0);
        assert forall|k: int| #[trigger]
            with_rank::<T, R>(tail, k) == with_rank::<T, R>(left0 + right0, k) by {
            lemma_with_rank_concat::<T, R>(left0, right0, k);
            assert(with_rank::<T, R>(left@, k) + with_rank::<T, R>(right@, k) + with_rank::<T, R>(
                tail,
                k,
            ) =~= with_rank::<T, R>(tail, k));
        }
    }
    out
}

/// One step of a merge from the back: `x`, the last item of one of the two
/// lists, moves to the front of the merged tail.
proof fn lemma_merge_step<T, R: Ranking<T>>(
    left: Seq<T>,
    right: Seq<T>,
    tail: Seq<T>,
    x: T,
    from_left: bool,
)
    requires
        is_sorted::<T, R>(tail),
        tail.len() > 0 ==> R::rank(x) <= R::rank(tail[0]),
        forall|i: int| 0 <= i < left.len() ==> R::rank(#[trigger] left[i]) <= R::rank(x),
        from_left ==> forall|i: int|
            0 <= i < right.len() ==> R::rank(#[trigger] right[i]) < R::rank(x),
        !from_left ==> forall|i: int|
            0 <= i < right.len() ==> R::rank(#[trigger] right[i]) <= R::rank(x),
    ensures
        is_sorted::<T, R>(seq![x] + tail),
        forall|i: int|
            0 <= i < left.len() ==> R::rank(#[trigger] left[i]) <= R::rank((seq![x] + tail)[0]),
        forall|i: int|
            0 <= i < right.len() ==> R::rank(#[trigger] right[i]) <= R::rank((seq![x] + tail)[0]),
        forall|k: int|
            with_rank::<T, R>(left, k) + with_rank::<T, R>(right, k) + #[trigger] with_rank::<T, R>(
                seq![x] + tail,
                k,
            ) == if from_left {
                with_rank::<T, R>(left.push(x), k) + with_rank::<T, R>(right, k) + with_rank::<
                    T,
                    R,
                >(tail, k)
            } else {
                with_rank::<T, R>(left, k) + with_rank::<T, R>(right.push(x), k) + with_rank::<
                    T,
                    R,
                >(tail, k)
            },
        left.to_multiset().add(right.to_multiset()).add((seq![x] + tail).to_multiset()) == if from_left {
            left.push(x).to_multiset().add(right.to_multiset()).add(tail.to_multiset())
        } else {
            left.to_multiset().add(right.push(x).to_multiset()).add(tail.to_multiset())
        },
{
    let next = seq![x] + tail;
    assert(next[0] == x);
    assert forall|i: int, j: int| 0 <= i <= j < next.len() implies R::rank(next[i]) <= R::rank(
        next[j],
    ) by {
        if i > 0 {
            assert(next[i] == tail[i - 1]);
            assert(next[j] == tail[j - 1]);
        } else if j > 0 {
            assert(next[j] == tail[j - 1]);
            assert(R::rank(tail[0]) <= R::rank(tail[j - 1]));
        }
    }
    assert forall|k: int|
        with_rank::<T, R>(left, k) + with_rank::<T, R>(right, k) + #[trigger] with_rank::<T, R>(
            next,
            k,
        ) == if from_left {
            with_rank::<T, R>(left.push(x), k) + with_rank::<T, R>(right, k) + with_rank::<T, R>(
                tail,
                k,
            )
        } else {
            with_rank::<T, R>(left, k) + with_rank::<T, R>(right.push(x), k) + with_rank::<T, R>(
                tail,
                k,
            )
        } by {
        lemma_with_rank_concat::<T, R>(seq![x], tail, k);
        lemma_with_rank_single::<T, R>(x, k);
        let l = with_rank::<T, R>(left, k);
        let r = with_rank::<T, R>(right, k);
        let t = with_rank::<T, R>(tail, k);
        assert(left.push(x).drop_last() =~= left);
        assert(right.push(x).drop_last() =~= right);
        if R::rank(x) == k {
            if from_left {
                lemma_with_rank_absent::<T, R>(right, k);
                assert(l + r + (seq![x] + t) =~= l.push(x) + r + t);
            } else {
                assert(l + r + (seq![x] + t) =~= l + r.push(x) + t);
            }
        } else {
            assert(Seq::<T>::empty() + t =~= t);
        }
    }
    lemma_multiset_commutative(seq![x], tail);
    to_multiset_build(Seq::<T>::empty(), x);
    assert(Seq::<T>::empty().push(x) =~= seq![x]);
    to_multiset_build(left, x);
    to_multiset_build(right, x);
    assert(Seq::<T>::empty().to_multiset() =~= vstd::multiset::Multiset::<T>::empty()) by {
        Seq::<T>::empty().to_multiset_ensures();
    }
    if from_left {
        assert(left.to_multiset().add(right.to_multiset()).add(next.to_multiset())
            =~= left.push(x).to_multiset().add(right.to_multiset()).add(tail.to_multiset()));
    } else {
        assert(left.to_multiset().add(right.to_multiset()).add(next.to_multiset())
            =~= left.to_multiset().add(right.push(x).to_multiset()).add(tail.to_multiset()));
    }
}

} // verus!
