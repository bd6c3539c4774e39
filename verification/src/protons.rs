//! The list of installed Proton builds, newest name first.

use crate::text::chars_of;
use crate::types::InstalledProton;
use vstd::prelude::*;

verus! {

/// An installed Proton build as text.
pub struct InstalledProtonView {
    pub name: Seq<char>,
    pub path: Seq<char>,
}

impl View for InstalledProton {
    type V = InstalledProtonView;

    open spec fn view(&self) -> InstalledProtonView {
        InstalledProtonView { name: self.name@, path: self.path@ }
    }
}

/// The views of a list of installed builds.
pub open spec fn protons_view(v: Seq<InstalledProton>) -> Seq<InstalledProtonView> {
    v.map_values(|p: InstalledProton| p@)
}

/// `a` comes before `b` in the order of `str`: lexicographic by characters
/// (for UTF-8 text the same order as by bytes), a proper prefix first.
pub open spec fn text_less(a: Seq<char>, b: Seq<char>) -> bool
    decreases a.len(),
{
    if a.len() == 0 {
        b.len() > 0
    } else if b.len() == 0 {
        false
    } else if a[0] != b[0] {
        a[0] < b[0]
    } else {
        text_less(a.drop_first(), b.drop_first())
    }
}

/// Inserts `x` into a list sorted by descending name: before the first entry
/// whose name comes before `x`'s, so after every entry with the same name.
pub open spec fn insert_desc(sorted: Seq<InstalledProtonView>, x: InstalledProtonView) -> Seq<
    InstalledProtonView,
>
    decreases sorted.len(),
{
    if sorted.len() == 0 {
        seq![x]
    } else if text_less(sorted[0].name, x.name) {
        seq![x] + sorted
    } else {
        seq![sorted[0]] + insert_desc(sorted.drop_first(), x)
    }
}

/// The list sorted by descending name, keeping the order of entries with the
/// same name (a stable sort).
pub open spec fn sort_desc(s: Seq<InstalledProtonView>) -> Seq<InstalledProtonView>
    decreases s.len(),
{
    if s.len() == 0 {
        s
    } else {
        insert_desc(sort_desc(s.drop_last()), s.last())
    }
}

/// Sorted by descending name.
pub open spec fn is_sorted_desc(s: Seq<InstalledProtonView>) -> bool {
    forall|i: int, j: int| 0 <= i < j < s.len() ==> !text_less(s[i].name, s[j].name)
}

// ---------------------------------------------------------------------------
// The order of text
// ---------------------------------------------------------------------------

proof fn lemma_text_less_irreflexive(a: Seq<char>)
    ensures
        !text_less(a, a),
    decreases a.len(),
{
    if a.len() > 0 {
        lemma_text_less_irreflexive(a.drop_first());
    }
}

proof fn lemma_text_less_total(a: Seq<char>, b: Seq<char>)
    ensures
        text_less(a, b) || text_less(b, a) || a == b,
    decreases a.len(),
{
    if a.len() > 0 && b.len() > 0 && a[0] == b[0] {
        lemma_text_less_total(a.drop_first(), b.drop_first());
        if a.drop_first() == b.drop_first() {
            assert(a =~= seq![a[0]] + a.drop_first());
            assert(b =~= seq![b[0]] + b.drop_first());
        }
    } else if a.len() == 0 && b.len() == 0 {
        assert(a =~= b);
    }
}

proof fn lemma_text_less_transitive(a: Seq<char>, b: Seq<char>, c: Seq<char>)
    requires
        text_less(a, b),
        text_less(b, c),
    ensures
        text_less(a, c),
    decreases a.len(),
{
    if a.len() > 0 && b.len() > 0 && c.len() > 0 && a[0] == b[0] && b[0] == c[0] {
        lemma_text_less_transitive(a.drop_first(), b.drop_first(), c.drop_first());
    }
}

/// `b` does not come after `a`, and `a` comes before `c`: `c` does not come
/// before `b`.
proof fn lemma_at_most_then_less(a: Seq<char>, b: Seq<char>, c: Seq<char>)
    requires
        !text_less(a, b),
        text_less(a, c),
    ensures
        text_less(b, c),
        !text_less(c, b),
{
    lemma_text_less_total(a, b);
    if a != b {
        lemma_text_less_transitive(b, a, c);
    }
    if text_less(c, b) {
        lemma_text_less_transitive(b, c, b);
        lemma_text_less_irreflexive(b);
    }
}

// ---------------------------------------------------------------------------
// Laws of the sort
// ---------------------------------------------------------------------------

proof fn lemma_insert_desc(sorted: Seq<InstalledProtonView>, x: InstalledProtonView)
    requires
        is_sorted_desc(sorted),
    ensures
        is_sorted_desc(insert_desc(sorted, x)),
        insert_desc(sorted, x).to_multiset() =~= sorted.to_multiset().insert(x),
        insert_desc(sorted, x).len() == sorted.len() + 1,
        forall|i: int|
            0 <= i < insert_desc(sorted, x).len() ==> #[trigger] insert_desc(sorted, x)[i] == x
                || sorted.contains(insert_desc(sorted, x)[i]),
    decreases sorted.len(),
{
    broadcast use vstd::seq_lib::group_to_multiset_ensures;

    let r = insert_desc(sorted, x);
    if sorted.len() == 0 {
        assert(r.to_multiset() =~= Seq::<InstalledProtonView>::empty().push(x).to_multiset()) by {
            assert(r =~= Seq::<InstalledProtonView>::empty().push(x));
        }
    } else if text_less(sorted[0].name, x.name) {
        assert forall|i: int, j: int| 0 <= i < j < r.len() implies !text_less(
            r[i].name,
            r[j].name,
        ) by {
            if i == 0 {
                if j > 1 {
                    assert(!text_less(sorted[0].name, sorted[j - 1].name));
                    lemma_at_most_then_less(sorted[0].name, sorted[j - 1].name, x.name);
                } else {
                    lemma_text_less_irreflexive(sorted[0].name);
                    lemma_at_most_then_less(sorted[0].name, sorted[0].name, x.name);
                }
                assert(r[i] == x);
                assert(r[j] == sorted[j - 1]);
            } else {
                assert(r[i] == sorted[i - 1]);
                assert(r[j] == sorted[j - 1]);
            }
        }
        sorted.lemma_add_last_back();
        assert(r =~= seq![x] + sorted);
        assert((seq![x] + sorted).to_multiset() =~= sorted.to_multiset().insert(x)) by {
            vstd::seq_lib::lemma_multiset_commutative(seq![x], sorted);
            assert(seq![x].to_multiset() =~= Seq::<InstalledProtonView>::empty().push(x).to_multiset());
            assert(Seq::<InstalledProtonView>::empty().push(x) =~= seq![x]);
        }
        assert forall|i: int| 0 <= i < r.len() implies #[trigger] r[i] == x || sorted.contains(r[i]) by {
            if i > 0 {
                assert(r[i] == sorted[i - 1]);
            }
        }
    } else {
        let rest = sorted.drop_first();
        assert(is_sorted_desc(rest)) by {
            assert forall|i: int, j: int| 0 <= i < j < rest.len() implies !text_less(
                rest[i].name,
                rest[j].name,
            ) by {
                assert(rest[i] == sorted[i + 1]);
                assert(rest[j] == sorted[j + 1]);
            }
        }
        lemma_insert_desc(rest, x);
        let t = insert_desc(rest, x);
        assert(r =~= seq![sorted[0]] + t);
        assert forall|i: int, j: int| 0 <= i < j < r.len() implies !text_less(
            r[i].name,
            r[j].name,
        ) by {
            if i == 0 {
                let y = r[j];
                assert(y == t[j - 1]);
                if y == x {
                } else {
                    assert(rest.contains(y));
                    let k = choose|k: int| 0 <= k < rest.len() && rest[k] == y;
                    assert(sorted[k + 1] == y);
                }
            } else {
                assert(r[i] == t[i - 1]);
                assert(r[j] == t[j - 1]);
            }
        }
        assert(sorted =~= seq![sorted[0]] + rest);
        vstd::seq_lib::lemma_multiset_commutative(seq![sorted[0]], t);
        vstd::seq_lib::lemma_multiset_commutative(seq![sorted[0]], rest);
        assert forall|i: int| 0 <= i < r.len() implies #[trigger] r[i] == x || sorted.contains(r[i]) by {
            if i == 0 {
                assert(sorted[0] == r[0]);
            } else {
                assert(r[i] == t[i - 1]);
                if t[i - 1] != x {
                    assert(rest.contains(t[i - 1]));
                    let k = choose|k: int| 0 <= k < rest.len() && rest[k] == t[i - 1];
                    assert(sorted[k + 1] == t[i - 1]);
                }
            }
        }
    }
}

/// The sort orders the builds by descending name and keeps every build, each
/// as often as it came.
pub proof fn law_sort_desc_sorts_and_permutes(s: Seq<InstalledProtonView>)
    ensures
        is_sorted_desc(sort_desc(s)),
        sort_desc(s).to_multiset() =~= s.to_multiset(),
        sort_desc(s).len() == s.len(),
    decreases s.len(),
{
    broadcast use vstd::seq_lib::group_to_multiset_ensures;

    if s.len() > 0 {
        law_sort_desc_sorts_and_permutes(s.drop_last());
        lemma_insert_desc(sort_desc(s.drop_last()), s.last());
        s.lemma_add_last_back();
        assert(s =~= s.drop_last().push(s.last()));
    } else {
        assert(s.to_multiset() =~= vstd::multiset::Multiset::empty());
        assert(sort_desc(s).to_multiset() =~= vstd::multiset::Multiset::empty());
    }
}

// ---------------------------------------------------------------------------
// The sort
// ---------------------------------------------------------------------------

/// Whether `a` comes before `b` in the order of `str`.
pub fn name_less(a: &str, b: &str) -> (r: bool)
    ensures
        r == text_less(a@, b@),
{
    let x = chars_of(a);
    let y = chars_of(b);
    let mut i: usize = 0;
    assert(x@.skip(0) =~= x@);
    assert(y@.skip(0) =~= y@);
    while i < x.len() && i < y.len() && x[i] == y[i]
        invariant
            i <= x.len(),
            i <= y.len(),
            x@ == a@,
            y@ == b@,
            text_less(a@, b@) == text_less(x@.skip(i as int), y@.skip(i as int)),
        decreases x.len() - i,
    {
        assert(x@.skip(i as int).drop_first() =~= x@.skip(i + 1));
        assert(y@.skip(i as int).drop_first() =~= y@.skip(i + 1));
        i = i + 1;
    }
    if i == x.len() {
        i < y.len()
    } else if i == y.len() {
        false
    } else {
        x[i] < y[i]
    }
}

proof fn lemma_insert_desc_at(sorted: Seq<InstalledProtonView>, x: InstalledProtonView, k: int)
    requires
        0 <= k <= sorted.len(),
        forall|j: int| 0 <= j < k ==> !text_less(#[trigger] sorted[j].name, x.name),
        k == sorted.len() || text_less(sorted[k].name, x.name),
    ensures
        insert_desc(sorted, x) == sorted.insert(k, x),
    decreases k,
{
    if sorted.len() == 0 {
        assert(sorted.insert(k, x) =~= seq![x]);
    } else if k == 0 {
        assert(sorted.insert(0, x) =~= seq![x] + sorted);
    } else {
        let rest = sorted.drop_first();
        assert(!text_less(sorted[0].name, x.name));
        assert forall|j: int| 0 <= j < k - 1 implies !text_less(#[trigger] rest[j].name, x.name) by {
            assert(rest[j] == sorted[j + 1]);
        }
        if k < sorted.len() {
            assert(rest[k - 1] == sorted[k]);
        }
        lemma_insert_desc_at(rest, x, k - 1);
        assert(sorted.insert(k, x) =~= seq![sorted[0]] + rest.insert(k - 1, x));
    }
}

/// Sorts the installed builds by descending name, keeping the order of builds
/// with the same name.
pub fn sort_by_name_desc(items: Vec<InstalledProton>) -> (r: Vec<InstalledProton>)
    ensures
        protons_view(r@) == sort_desc(protons_view(items@)),
{
    let ghost all = protons_view(items@);
    let n = items.len();
    let mut rest = items;
    let mut out: Vec<InstalledProton> = Vec::new();
    let mut i: usize = 0;
    assert(all.take(0) =~= Seq::<InstalledProtonView>::empty());
    assert(protons_view(rest@) =~= all.skip(0));
    while i < n
        invariant
            i <= n,
            n == all.len(),
            protons_view(rest@) =~= all.skip(i as int),
            protons_view(out@) =~= sort_desc(all.take(i as int)),
        decreases n - i,
    {
        let ghost before_rest = rest@;
        assert(protons_view(before_rest).len() == n - i);
        let x = rest.remove(0);
        assert(rest@ =~= before_rest.drop_first());
        assert(x@ == all[i as int]) by {
            assert(protons_view(before_rest)[0] == all.skip(i as int)[0]);
        }
        assert(protons_view(rest@) =~= all.skip(i + 1)) by {
            assert forall|j: int| 0 <= j < rest@.len() implies #[trigger] protons_view(rest@)[j]
                == all.skip(i + 1)[j] by {
                assert(protons_view(before_rest)[j + 1] == all.skip(i as int)[j + 1]);
            }
        }
        let ghost sorted = protons_view(out@);
        let mut k: usize = 0;
        while k < out.len() && !name_less(out[k].name.as_str(), x.name.as_str())
            invariant
                k <= out.len(),
                sorted == protons_view(out@),
                forall|j: int| 0 <= j < k ==> !text_less(#[trigger] sorted[j].name, x@.name),
            decreases out.len() - k,
        {
            k = k + 1;
        }
        proof {
            lemma_insert_desc_at(sorted, x@, k as int);
        }
        let ghost before_out = out@;
        out.insert(k, x);
        assert(protons_view(out@) =~= sorted.insert(k as int, x@)) by {
            assert(out@ =~= before_out.insert(k as int, x));
        }
        assert(all.take(i + 1).drop_last() =~= all.take(i as int));
        assert(all.take(i + 1).last() == all[i as int]);
        i = i + 1;
    }
    assert(all.take(n as int) =~= all);
    out
}

} // verus!
