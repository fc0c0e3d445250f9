//! Stable sorting by an integer key.
//!
//! Each sorted type maps its values to an integer key whose order is the
//! order the sort uses (a tuple of unsigned components is packed into one
//! integer, most significant component first). A stable sort orders by
//! the key and keeps the input order among values with equal keys; both
//! facts are stated by [`is_stable_sort_of`].

use vstd::prelude::*;

verus! {

/// A value with an integer sort key and an executable comparison of keys.
pub trait SortKey: Copy {
    /// The key by which values are ordered.
    spec fn sort_key(self) -> int;

    /// Whether this value's key is at most `other`'s key.
    fn key_le(&self, other: &Self) -> (r: bool)
        ensures
            r == (self.sort_key() <= other.sort_key()),
    ;
}

/// The keys of `s` never decrease.
pub open spec fn sorted_by_key<T: SortKey>(s: Seq<T>) -> bool {
    forall|i: int, j: int| 0 <= i < j < s.len() ==> s[i].sort_key() <= s[j].sort_key()
}

/// The values of `s` whose key is `k`, in their order in `s`.
pub open spec fn key_class<T: SortKey>(s: Seq<T>, k: int) -> Seq<T> {
    s.filter(|x: T| x.sort_key() == k)
}

/// `sorted` is `input` stably sorted by key: keys never decrease, and
/// for every key the values with that key come in their input order.
/// (Together these determine `sorted` from `input`.)
pub open spec fn is_stable_sort_of<T: SortKey>(sorted: Seq<T>, input: Seq<T>) -> bool {
    &&& sorted_by_key(sorted)
    &&& forall|k: int| #[trigger] key_class(sorted, k) == key_class(input, k)
}

pub proof fn lemma_key_class_push<T: SortKey>(a: Seq<T>, x: T, k: int)
    ensures
        key_class(a.push(x), k) == if x.sort_key() == k {
            key_class(a, k).push(x)
        } else {
            key_class(a, k)
        },
{
    broadcast use Seq::lemma_filter_push;

}

pub proof fn lemma_key_class_add<T: SortKey>(a: Seq<T>, b: Seq<T>, k: int)
    ensures
        key_class(a + b, k) == key_class(a, k) + key_class(b, k),
{
    broadcast use Seq::filter_distributes_over_add;

}

pub proof fn lemma_key_class_absent<T: SortKey>(a: Seq<T>, k: int)
    requires
        forall|i: int| 0 <= i < a.len() ==> a[i].sort_key() != k,
    ensures
        key_class(a, k) == Seq::<T>::empty(),
    decreases a.len(),
{
    if a.len() > 0 {
        let p = a.drop_last();
        lemma_key_class_absent(p, k);
        assert(p.push(a.last()) == a);
        lemma_key_class_push(p, a.last(), k);
    } else {
        reveal(Seq::filter);
    }
}

proof fn lemma_key_present<T: SortKey>(a: Seq<T>, k: int)
    requires
        key_class(a, k).len() > 0,
    ensures
        exists|i: int| 0 <= i < a.len() && a[i].sort_key() == k,
{
    if forall|i: int| 0 <= i < a.len() ==> a[i].sort_key() != k {
        lemma_key_class_absent(a, k);
    }
}

proof fn lemma_same_classes_equal<T: SortKey>(a: Seq<T>, b: Seq<T>)
    requires
        sorted_by_key(a),
        sorted_by_key(b),
        forall|k: int| #[trigger] key_class(a, k) == key_class(b, k),
    ensures
        a == b,
    decreases a.len() + b.len(),
{
    if a.len() == 0 && b.len() == 0 {
        assert(a =~= b);
    } else if a.len() == 0 {
        let kb = b.last().sort_key();
        assert(b.drop_last().push(b.last()) == b);
        lemma_key_class_push(b.drop_last(), b.last(), kb);
        assert(key_class(a, kb) == key_class(b, kb));
        lemma_key_present(a, kb);
    } else if b.len() == 0 {
        let ka = a.last().sort_key();
        assert(a.drop_last().push(a.last()) == a);
        lemma_key_class_push(a.drop_last(), a.last(), ka);
        assert(key_class(a, ka) == key_class(b, ka));
        lemma_key_present(b, ka);
    } else {
        let a1 = a.drop_last();
        let b1 = b.drop_last();
        let ka = a.last().sort_key();
        let kb = b.last().sort_key();
        assert(a1.push(a.last()) == a);
        assert(b1.push(b.last()) == b);
        lemma_key_class_push(a1, a.last(), ka);
        lemma_key_class_push(b1, b.last(), kb);
        assert(key_class(a, kb) == key_class(b, kb));
        assert(key_class(a, ka) == key_class(b, ka));
        lemma_key_present(a, kb);
        lemma_key_present(b, ka);
        let k = ka;
        assert(ka == kb);
        assert forall|j: int| #[trigger] key_class(a1, j) == key_class(b1, j) by {
            lemma_key_class_push(a1, a.last(), j);
            lemma_key_class_push(b1, b.last(), j);
            assert(key_class(a, j) == key_class(b, j));
            if j == k {
                assert(key_class(a1, j) == key_class(a, j).drop_last());
                assert(key_class(b1, j) == key_class(b, j).drop_last());
            }
        }
        assert(key_class(a, k).last() == a.last());
        assert(key_class(b, k).last() == b.last());
        lemma_same_classes_equal(a1, b1);
    }
}

/// A stable sort is unique: two stable sorts of one sequence are equal.
pub proof fn lemma_stable_sort_unique<T: SortKey>(a: Seq<T>, b: Seq<T>, input: Seq<T>)
    requires
        is_stable_sort_of(a, input),
        is_stable_sort_of(b, input),
    ensures
        a == b,
{
    assert forall|k: int| #[trigger] key_class(a, k) == key_class(b, k) by {
        assert(key_class(a, k) == key_class(input, k));
        assert(key_class(b, k) == key_class(input, k));
    }
    lemma_same_classes_equal(a, b);
}

/// `x` inserted into `r` after every value whose key is at most `x`'s.
pub open spec fn insert_by_key<T: SortKey>(r: Seq<T>, x: T) -> Seq<T>
    decreases r.len(),
{
    if r.len() == 0 {
        seq![x]
    } else if r.last().sort_key() <= x.sort_key() {
        r.push(x)
    } else {
        insert_by_key(r.drop_last(), x).push(r.last())
    }
}

/// The stable sort of `s` by key (the values inserted one by one, in order).
pub open spec fn stable_sorted<T: SortKey>(s: Seq<T>) -> Seq<T>
    decreases s.len(),
{
    if s.len() == 0 {
        Seq::empty()
    } else {
        insert_by_key(stable_sorted(s.drop_last()), s.last())
    }
}

proof fn lemma_insert_by_key<T: SortKey>(r: Seq<T>, x: T)
    requires
        sorted_by_key(r),
    ensures
        sorted_by_key(insert_by_key(r, x)),
        forall|k: int| #[trigger] key_class(insert_by_key(r, x), k) == key_class(r.push(x), k),
        forall|i: int|
            0 <= i < insert_by_key(r, x).len() ==> #[trigger] insert_by_key(r, x)[i] == x
                || r.contains(insert_by_key(r, x)[i]),
    decreases r.len(),
{
    let ins = insert_by_key(r, x);
    if r.len() == 0 {
        assert forall|k: int| #[trigger] key_class(ins, k) == key_class(r.push(x), k) by {
            assert(r.push(x) == seq![x]);
        }
    } else if r.last().sort_key() <= x.sort_key() {
    } else {
        let r1 = r.drop_last();
        let l = r.last();
        let i1 = insert_by_key(r1, x);
        assert(r1.push(l) == r);
        assert(sorted_by_key(r1));
        lemma_insert_by_key(r1, x);
        assert forall|i: int| 0 <= i < i1.len() implies #[trigger] i1[i].sort_key() <= l.sort_key() by {
            if i1[i] != x {
                assert(r1.contains(i1[i]));
                let j = choose|j: int| 0 <= j < r1.len() && r1[j] == i1[i];
                assert(r[j] == r1[j]);
            }
        }
        assert forall|a: int, b: int| 0 <= a < b < ins.len() implies ins[a].sort_key() <= ins[b].sort_key() by {
            if b == i1.len() {
                assert(ins[a] == i1[a]);
            } else {
                assert(ins[a] == i1[a]);
                assert(ins[b] == i1[b]);
            }
        }
        assert forall|k: int| #[trigger] key_class(ins, k) == key_class(r.push(x), k) by {
            lemma_key_class_push(i1, l, k);
            lemma_key_class_push(r1, x, k);
            lemma_key_class_push(r, x, k);
            lemma_key_class_push(r1, l, k);
            assert(key_class(i1, k) == key_class(r1.push(x), k));
            lemma_key_class_push(r1.push(l), x, k);
        }
        assert forall|i: int| 0 <= i < ins.len() implies #[trigger] ins[i] == x || r.contains(ins[i]) by {
            if i < i1.len() {
                assert(ins[i] == i1[i]);
                if i1[i] != x {
                    let j = choose|j: int| 0 <= j < r1.len() && r1[j] == i1[i];
                    assert(r[j] == r1[j]);
                }
            } else {
                assert(ins[i] == l);
                assert(r[r.len() - 1] == l);
            }
        }
    }
}

/// The stable sort of `s` is a stable sort of `s`.
pub proof fn lemma_stable_sorted_exists<T: SortKey>(s: Seq<T>)
    ensures
        is_stable_sort_of(stable_sorted(s), s),
    decreases s.len(),
{
    if s.len() == 0 {
        assert forall|k: int| #[trigger] key_class(stable_sorted(s), k) == key_class(s, k) by {
            reveal(Seq::filter);
        }
    } else {
        let s1 = s.drop_last();
        lemma_stable_sorted_exists(s1);
        let r1 = stable_sorted(s1);
        lemma_insert_by_key(r1, s.last());
        assert(s1.push(s.last()) == s);
        assert forall|k: int| #[trigger] key_class(stable_sorted(s), k) == key_class(s, k) by {
            lemma_key_class_push(r1, s.last(), k);
            lemma_key_class_push(s1, s.last(), k);
            assert(key_class(r1, k) == key_class(s1, k));
        }
    }
}

/// A stable sort of `s` is the stable sort of `s`.
pub proof fn lemma_is_stable_sorted<T: SortKey>(r: Seq<T>, s: Seq<T>)
    requires
        is_stable_sort_of(r, s),
    ensures
        r == stable_sorted(s),
{
    let c = stable_sorted(s);
    lemma_stable_sorted_exists(s);
    lemma_stable_sort_unique(r, c, s);
}

/// Sorts `v` stably by key (insertion sort).
pub fn stable_sort<T: SortKey>(v: &Vec<T>) -> (r: Vec<T>)
    ensures
        is_stable_sort_of(r@, v@),
        r@ == stable_sorted(v@),
{
    let mut r: Vec<T> = Vec::new();
    let mut i: usize = 0;
    proof {
        assert forall|k: int| #[trigger] key_class(r@, k) == key_class(v@.take(0), k) by {
            reveal(Seq::filter);
            assert(v@.take(0) == Seq::<T>::empty());
        }
    }
    while i < v.len()
        invariant
            i <= v.len(),
            is_stable_sort_of(r@, v@.take(i as int)),
        decreases v.len() - i,
    {
        let x = v[i];
        let mut p: usize = 0;
        while p < r.len() && r[p].key_le(&x)
            invariant
                p <= r.len(),
                forall|q: int| 0 <= q < p ==> r@[q].sort_key() <= x.sort_key(),
            decreases r.len() - p,
        {
            p = p + 1;
        }
        let ghost old_r = r@;
        proof {
            assert forall|q: int| p <= q < old_r.len() implies old_r[q].sort_key() > x.sort_key() by {
                assert(old_r[p as int].sort_key() > x.sort_key());
            }
        }
        r.insert(p, x);
        proof {
            let left = old_r.subrange(0, p as int);
            let right = old_r.subrange(p as int, old_r.len() as int);
            assert(old_r == left + right);
            assert(r@ == left.push(x) + right);
            assert(v@.take(i + 1) == v@.take(i as int).push(x));
            assert forall|a: int, b: int| 0 <= a < b < r@.len() implies r@[a].sort_key()
                <= r@[b].sort_key() by {
                if b < p {
                } else if b == p {
                } else if a < p {
                    assert(r@[b] == old_r[b - 1]);
                } else if a == p {
                    assert(r@[b] == old_r[b - 1]);
                } else {
                    assert(r@[a] == old_r[a - 1]);
                    assert(r@[b] == old_r[b - 1]);
                }
            }
            assert forall|k: int| #[trigger] key_class(r@, k) == key_class(v@.take(i + 1), k) by {
                lemma_key_class_add(left, right, k);
                lemma_key_class_add(left.push(x), right, k);
                lemma_key_class_push(left, x, k);
                lemma_key_class_push(v@.take(i as int), x, k);
                assert(key_class(old_r, k) == key_class(v@.take(i as int), k));
                if x.sort_key() == k {
                    assert forall|q: int| 0 <= q < right.len() implies right[q].sort_key() != k by {
                        assert(right[q] == old_r[p + q]);
                    }
                    lemma_key_class_absent(right, k);
                    assert(key_class(left, k) + Seq::<T>::empty() == key_class(left, k));
                    assert(key_class(left, k).push(x) + Seq::<T>::empty() == key_class(left, k).push(x));
                }
            }
        }
        i = i + 1;
    }
    proof {
        assert(v@.take(v@.len() as int) == v@);
        lemma_is_stable_sorted(r@, v@);
    }
    r
}

/// Window ids are ordered by their value.
impl SortKey for u64 {
    open spec fn sort_key(self) -> int {
        self as int
    }

    fn key_le(&self, other: &Self) -> (r: bool) {
        *self <= *other
    }
}

} // verus!
