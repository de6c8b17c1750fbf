//! The order of strings, as `String`'s `Ord` compares them, and sorting by it.
use crate::text::{chars_of, texts};
use vstd::prelude::*;
use vstd::relations::{sorted_by, total_ordering};

verus! {

/// `a` comes no later than `b`: they are compared character by character, by
/// code point, and a proper prefix comes first. (UTF-8 keeps the order of code
/// points, so this is the order of the strings' bytes.)
pub open spec fn text_le(a: Seq<char>, b: Seq<char>) -> bool
    decreases a.len(),
{
    if a.len() == 0 {
        true
    } else if b.len() == 0 {
        false
    } else if a[0] != b[0] {
        a[0] < b[0]
    } else {
        text_le(a.drop_first(), b.drop_first())
    }
}

/// The order as a relation.
pub open spec fn text_order() -> spec_fn(Seq<char>, Seq<char>) -> bool {
    |a: Seq<char>, b: Seq<char>| text_le(a, b)
}

proof fn lemma_text_le_reflexive(a: Seq<char>)
    ensures
        text_le(a, a),
    decreases a.len(),
{
    if a.len() > 0 {
        lemma_text_le_reflexive(a.drop_first());
    }
}

proof fn lemma_text_le_antisymmetric(a: Seq<char>, b: Seq<char>)
    requires
        text_le(a, b),
        text_le(b, a),
    ensures
        a == b,
    decreases a.len(),
{
    if a.len() > 0 && b.len() > 0 {
        lemma_text_le_antisymmetric(a.drop_first(), b.drop_first());
        assert(a =~= seq![a[0]] + a.drop_first());
        assert(b =~= seq![b[0]] + b.drop_first());
    }
}

proof fn lemma_text_le_transitive(a: Seq<char>, b: Seq<char>, c: Seq<char>)
    requires
        text_le(a, b),
        text_le(b, c),
    ensures
        text_le(a, c),
    decreases a.len(),
{
    if a.len() > 0 && b.len() > 0 && c.len() > 0 {
        if a[0] == b[0] && b[0] == c[0] {
            lemma_text_le_transitive(a.drop_first(), b.drop_first(), c.drop_first());
        }
    }
}

proof fn lemma_text_le_total(a: Seq<char>, b: Seq<char>)
    ensures
        text_le(a, b) || text_le(b, a),
    decreases a.len(),
{
    if a.len() > 0 && b.len() > 0 && a[0] == b[0] {
        lemma_text_le_total(a.drop_first(), b.drop_first());
    }
}

/// The order of strings is a total order.
pub proof fn lemma_text_order_total()
    ensures
        total_ordering(text_order()),
{
    assert forall|a: Seq<char>| #[trigger] text_order()(a, a) by {
        lemma_text_le_reflexive(a);
    }
    assert forall|a: Seq<char>, b: Seq<char>|
        #[trigger] text_order()(a, b) && #[trigger] text_order()(b, a) implies a == b by {
        lemma_text_le_antisymmetric(a, b);
    }
    assert forall|a: Seq<char>, b: Seq<char>, c: Seq<char>|
        #[trigger] text_order()(a, b) && #[trigger] text_order()(b, c) implies text_order()(a, c) by {
        lemma_text_le_transitive(a, b, c);
    }
    assert forall|a: Seq<char>, b: Seq<char>|
        #[trigger] text_order()(a, b) || #[trigger] text_order()(b, a) by {
        lemma_text_le_total(a, b);
    }
}

/// Whether `a` comes no later than `b`.
pub fn text_le_exec(a: &String, b: &String) -> (r: bool)
    ensures
        r == text_le(a@, b@),
{
    let x = chars_of(a.as_str());
    let y = chars_of(b.as_str());
    let mut i: usize = 0;
    assert(a@.skip(0) =~= a@);
    assert(b@.skip(0) =~= b@);
    while i < x.len() && i < y.len()
        invariant
            x@ == a@,
            y@ == b@,
            i <= x@.len(),
            i <= y@.len(),
            forall|k: int| 0 <= k < i ==> x@[k] == y@[k],
            text_le(a@, b@) == text_le(a@.skip(i as int), b@.skip(i as int)),
        decreases x@.len() - i,
    {
        assert(a@.skip(i as int).drop_first() =~= a@.skip(i + 1));
        assert(b@.skip(i as int).drop_first() =~= b@.skip(i + 1));
        assert(a@.skip(i as int)[0] == a@[i as int]);
        assert(b@.skip(i as int)[0] == b@[i as int]);
        if x[i] != y[i] {
            return x[i] < y[i];
        }
        i = i + 1;
    }
    assert(a@.skip(i as int).len() == 0 || b@.skip(i as int).len() == 0);
    i == x.len()
}

/// The strings of `items` in ascending order.
pub fn sort_strings(items: Vec<String>) -> (r: Vec<String>)
    ensures
        texts(r@) == texts(items@).sort_by(text_order()),
{
    proof {
        lemma_text_order_total();
    }
    let mut out: Vec<String> = Vec::new();
    let mut i: usize = 0;
    assert(texts(out@) =~= texts(items@.take(0)));
    while i < items.len()
        invariant
            i <= items@.len(),
            total_ordering(text_order()),
            sorted_by(texts(out@), text_order()),
            texts(out@).to_multiset() == texts(items@.take(i as int)).to_multiset(),
        decreases items@.len() - i,
    {
        let x = items[i].clone();
        let mut k: usize = 0;
        while k < out.len() && text_le_exec(&out[k], &x)
            invariant
                k <= out@.len(),
                forall|j: int| 0 <= j < k ==> text_le(#[trigger] out@[j]@, x@),
            decreases out@.len() - k,
        {
            k = k + 1;
        }
        let ghost before = texts(out@);
        proof {
            if k < out@.len() {
                lemma_text_le_total(out@[k as int]@, x@);
            }
        }
        out.insert(k, x);
        proof {
            assert(texts(out@) =~= before.insert(k as int, x@));
            assert forall|p: int, q: int| 0 <= p < q < texts(out@).len() implies #[trigger] text_order()(
                texts(out@)[p],
                texts(out@)[q],
            ) by {
                let s = texts(out@);
                if q < k {
                    assert(s[p] == before[p] && s[q] == before[q]);
                } else if q == k {
                    assert(s[p] == before[p]);
                } else if p == k {
                    assert(s[q] == before[q - 1]);
                    assert(text_order()(before[k as int], before[q - 1]));
                    lemma_text_le_transitive(x@, before[k as int], before[q - 1]);
                } else if p < k {
                    assert(s[p] == before[p] && s[q] == before[q - 1]);
                } else {
                    assert(s[p] == before[p - 1] && s[q] == before[q - 1]);
                }
            }
            vstd::seq_lib::to_multiset_insert(before, k as int, x@);
            assert(texts(items@.take(i + 1)) =~= texts(items@.take(i as int)).push(x@));
            vstd::seq_lib::to_multiset_build(texts(items@.take(i as int)), x@);
        }
        i = i + 1;
    }
    proof {
        assert(items@.take(items@.len() as int) =~= items@);
        texts(items@).lemma_sort_by_ensures(text_order());
        vstd::seq_lib::lemma_sorted_unique(
            texts(out@),
            texts(items@).sort_by(text_order()),
            text_order(),
        );
    }
    out
}

/// Sorting strings gives the same strings, each as often as before, in
/// ascending order.
pub proof fn law_sorted_strings_are_ordered_permutation(items: Seq<Seq<char>>)
    ensures
        items.sort_by(text_order()).to_multiset() =~= items.to_multiset(),
        sorted_by(items.sort_by(text_order()), text_order()),
{
    lemma_text_order_total();
    items.lemma_sort_by_ensures(text_order());
}

} // verus!
