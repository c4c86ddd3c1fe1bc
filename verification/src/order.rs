//! Ordering of file names, as `String`'s `Ord` orders them, and a sort of
//! named items by it.

use vstd::prelude::*;
use vstd::multiset::Multiset;

use crate::models::{ArchiveFileItem, DeletableLogInfo};
use crate::text::chars_of;

verus! {

/// `a` sorts strictly before `b`: character by character, a proper prefix
/// first. UTF-8 keeps code-point order, so this is the order of the bytes.
pub open spec fn text_lt(a: Seq<char>, b: Seq<char>) -> bool
    decreases a.len(),
{
    if a.len() == 0 {
        b.len() > 0
    } else if b.len() == 0 {
        false
    } else if a[0] != b[0] {
        a[0] < b[0]
    } else {
        text_lt(a.drop_first(), b.drop_first())
    }
}

/// No text sorts before itself.
pub proof fn lemma_text_lt_irreflexive(a: Seq<char>)
    ensures
        !text_lt(a, a),
    decreases a.len(),
{
    if a.len() > 0 {
        lemma_text_lt_irreflexive(a.drop_first());
    }
}

/// The order is transitive.
pub proof fn lemma_text_lt_transitive(a: Seq<char>, b: Seq<char>, c: Seq<char>)
    requires
        text_lt(a, b),
        text_lt(b, c),
    ensures
        text_lt(a, c),
    decreases a.len(),
{
    if a.len() > 0 && b.len() > 0 && c.len() > 0 && a[0] == b[0] && b[0] == c[0] {
        lemma_text_lt_transitive(a.drop_first(), b.drop_first(), c.drop_first());
    }
}

/// Two different texts are ordered one way or the other.
pub proof fn lemma_text_lt_total(a: Seq<char>, b: Seq<char>)
    requires
        a != b,
    ensures
        text_lt(a, b) || text_lt(b, a),
    decreases a.len(),
{
    if a.len() == 0 || b.len() == 0 {
        if a.len() == 0 && b.len() == 0 {
            assert(a =~= b);
        }
    } else if a[0] != b[0] {
    } else {
        if a.drop_first() =~= b.drop_first() {
            assert forall|k: int| 0 <= k < a.len() implies a[k] == b[k] by {
                if k > 0 {
                    assert(a[k] == a.drop_first()[k - 1]);
                    assert(b[k] == b.drop_first()[k - 1]);
                }
            }
            assert(a =~= b);
        }
        lemma_text_lt_total(a.drop_first(), b.drop_first());
    }
}

/// Executable form of [`text_lt`].
pub fn text_less(a: &str, b: &str) -> (r: bool)
    ensures
        r == text_lt(a@, b@),
{
    let av = chars_of(a);
    let bv = chars_of(b);
    let mut i: usize = 0;
    assert(a@.skip(0) =~= a@);
    assert(b@.skip(0) =~= b@);
    while i < av.len() && i < bv.len()
        invariant
            av@ == a@,
            bv@ == b@,
            i <= av.len(),
            i <= bv.len(),
            text_lt(a@, b@) == text_lt(a@.skip(i as int), b@.skip(i as int)),
        decreases av.len() - i,
    {
        assert(a@.skip(i as int)[0] == av@[i as int]);
        assert(b@.skip(i as int)[0] == bv@[i as int]);
        if av[i] != bv[i] {
            return av[i] < bv[i];
        }
        assert(a@.skip(i as int).drop_first() =~= a@.skip(i + 1));
        assert(b@.skip(i as int).drop_first() =~= b@.skip(i + 1));
        i = i + 1;
    }
    av.len() < bv.len()
}

/// `a` goes strictly before `b` in the requested direction.
pub open spec fn goes_before(a: Seq<char>, b: Seq<char>, descending: bool) -> bool {
    if descending {
        text_lt(b, a)
    } else {
        text_lt(a, b)
    }
}

/// `a` may stand before `b` in the requested direction.
pub open spec fn may_precede(a: Seq<char>, b: Seq<char>, descending: bool) -> bool {
    !goes_before(b, a, descending)
}

proof fn lemma_before_is_asymmetric(a: Seq<char>, b: Seq<char>, descending: bool)
    requires
        goes_before(a, b, descending),
    ensures
        may_precede(a, b, descending),
{
    if goes_before(b, a, descending) {
        if descending {
            lemma_text_lt_transitive(a, b, a);
        } else {
            lemma_text_lt_transitive(a, b, a);
        }
        lemma_text_lt_irreflexive(a);
    }
}

proof fn lemma_may_precede_transitive(a: Seq<char>, b: Seq<char>, c: Seq<char>, descending: bool)
    requires
        may_precede(a, b, descending),
        may_precede(b, c, descending),
    ensures
        may_precede(a, c, descending),
{
    if goes_before(c, a, descending) {
        if a == b {
        } else if b == c {
        } else {
            lemma_text_lt_total(a, b);
            lemma_text_lt_total(b, c);
            if descending {
                lemma_text_lt_transitive(c, b, a);
                lemma_text_lt_transitive(a, c, a);
            } else {
                lemma_text_lt_transitive(a, b, c);
                lemma_text_lt_transitive(a, c, a);
            }
            lemma_text_lt_irreflexive(a);
        }
    }
}

/// An item with a file name.
pub trait Named {
    spec fn name_view(&self) -> Seq<char>;

    fn name(&self) -> (r: &str)
        ensures
            r@ == self.name_view(),
    ;
}

impl Named for String {
    open spec fn name_view(&self) -> Seq<char> {
        self@
    }

    fn name(&self) -> (r: &str) {
        self.as_str()
    }
}

impl Named for ArchiveFileItem {
    open spec fn name_view(&self) -> Seq<char> {
        self.name@
    }

    fn name(&self) -> (r: &str) {
        self.name.as_str()
    }
}

impl Named for DeletableLogInfo {
    open spec fn name_view(&self) -> Seq<char> {
        self.file_name@
    }

    fn name(&self) -> (r: &str) {
        self.file_name.as_str()
    }
}

/// The items stand in name order, in the requested direction.
pub open spec fn sorted_by_name<T: Named>(s: Seq<T>, descending: bool) -> bool {
    forall|i: int, j: int|
        0 <= i < j < s.len() ==> may_precede(
            #[trigger] s[i].name_view(),
            #[trigger] s[j].name_view(),
            descending,
        )
}

/// Where a stable insertion puts `x` among sorted items: before the first
/// item that `x` goes before, else at the end.
pub open spec fn insert_position<T: Named>(s: Seq<T>, x: T, descending: bool) -> int
    decreases s.len(),
{
    if s.len() == 0 {
        0
    } else if goes_before(x.name_view(), s[0].name_view(), descending) {
        0
    } else {
        1 + insert_position(s.drop_first(), x, descending)
    }
}

/// The items sorted by inserting them one by one, in their order, each at
/// its [`insert_position`]: a stable sort, so that items with equal names
/// keep their order.
pub open spec fn name_sorted<T: Named>(s: Seq<T>, descending: bool) -> Seq<T>
    decreases s.len(),
{
    if s.len() == 0 {
        Seq::empty()
    } else {
        let t = name_sorted(s.drop_last(), descending);
        t.insert(insert_position(t, s.last(), descending), s.last())
    }
}

proof fn lemma_insert_position<T: Named>(s: Seq<T>, x: T, descending: bool, p: int)
    requires
        0 <= p <= s.len(),
        forall|k: int| 0 <= k < p ==> !goes_before(x.name_view(), #[trigger] s[k].name_view(), descending),
        p == s.len() || goes_before(x.name_view(), s[p].name_view(), descending),
    ensures
        insert_position(s, x, descending) == p,
    decreases p,
{
    if p > 0 {
        assert(!goes_before(x.name_view(), s[0].name_view(), descending));
        assert forall|k: int| 0 <= k < p - 1 implies !goes_before(
            x.name_view(),
            #[trigger] s.drop_first()[k].name_view(),
            descending,
        ) by {
            assert(s.drop_first()[k] == s[k + 1]);
        }
        if p < s.len() {
            assert(s.drop_first()[p - 1] == s[p]);
        }
        lemma_insert_position(s.drop_first(), x, descending, p - 1);
    }
}

/// Sorts items by name, ascending or descending, keeping every item and
/// keeping the order of items with equal names.
pub fn sort_by_name<T: Named>(items: Vec<T>, descending: bool) -> (r: Vec<T>)
    ensures
        r@ == name_sorted(items@, descending),
        r@.to_multiset() == items@.to_multiset(),
        sorted_by_name(r@, descending),
{
    broadcast use vstd::multiset::group_multiset_axioms;
    broadcast use vstd::seq_lib::group_to_multiset_ensures;

    let ghost orig = items@;
    let mut src = items;
    let mut out: Vec<T> = Vec::new();
    assert(out@.to_multiset() =~= Multiset::<T>::empty());
    assert(out@.to_multiset().add(src@.to_multiset()) =~= orig.to_multiset());
    assert(orig.take(0) =~= Seq::<T>::empty());
    assert(orig.skip(0) =~= orig);
    while src.len() > 0
        invariant
            out@.to_multiset().add(src@.to_multiset()) == orig.to_multiset(),
            sorted_by_name(out@, descending),
            src@.len() <= orig.len(),
            src@ == orig.skip(orig.len() - src@.len()),
            out@ == name_sorted(orig.take(orig.len() - src@.len()), descending),
        decreases src.len(),
    {
        let ghost n = orig.len() - src@.len();
        let ghost src0 = src@;
        let ghost out0 = out@;
        let x = src.remove(0);
        proof {
            vstd::seq_lib::to_multiset_remove(src0, 0);
            vstd::seq_lib::to_multiset_contains(src0, src0[0]);
            assert(src0.contains(src0[0]));
        }
        let mut p: usize = 0;
        while p < out.len() && !goes_before_exec(x.name(), out[p].name(), descending)
            invariant
                p <= out.len(),
                out@ == out0,
                forall|k: int| 0 <= k < p ==> may_precede(
                    #[trigger] out@[k].name_view(),
                    x.name_view(),
                    descending,
                ),
            decreases out.len() - p,
        {
            p = p + 1;
        }
        let ghost xv = x.name_view();
        proof {
            assert(src0[0] == orig[n]);
            lemma_insert_position(out0, src0[0], descending, p as int);
            assert(orig.take(n + 1).drop_last() =~= orig.take(n));
            assert(orig.take(n + 1).last() == orig[n]);
            assert(src@ =~= orig.skip(n + 1));
        }
        out.insert(p, x);
        proof {
            vstd::seq_lib::to_multiset_insert(out0, p as int, src0[0]);
            assert(out@.to_multiset().add(src@.to_multiset()) =~= orig.to_multiset());
            assert forall|i: int, j: int| 0 <= i < j < out@.len() implies may_precede(
                #[trigger] out@[i].name_view(),
                #[trigger] out@[j].name_view(),
                descending,
            ) by {
                if j < p {
                    assert(out@[i] == out0[i] && out@[j] == out0[j]);
                } else if j == p {
                    assert(out@[i] == out0[i]);
                } else if i == p {
                    assert(out@[j] == out0[j - 1]);
                    lemma_before_is_asymmetric(xv, out0[p as int].name_view(), descending);
                    if j - 1 > p {
                        lemma_may_precede_transitive(
                            xv,
                            out0[p as int].name_view(),
                            out0[j - 1].name_view(),
                            descending,
                        );
                    }
                } else if i < p {
                    assert(out@[i] == out0[i] && out@[j] == out0[j - 1]);
                } else {
                    assert(out@[i] == out0[i - 1] && out@[j] == out0[j - 1]);
                }
            }
        }
    }
    assert(src@.to_multiset() =~= Multiset::<T>::empty());
    assert(out@.to_multiset() =~= out@.to_multiset().add(src@.to_multiset()));
    assert(orig.take(orig.len() as int) =~= orig);
    out
}

/// Executable form of [`goes_before`].
fn goes_before_exec(a: &str, b: &str, descending: bool) -> (r: bool)
    ensures
        r == goes_before(a@, b@, descending),
{
    if descending {
        text_less(b, a)
    } else {
        text_less(a, b)
    }
}

} // verus!
