//! Facts about `filter`, `filter_map` and `flat_map` on sequences that the
//! rest of the library rests on.

use vstd::prelude::*;

verus! {

/// The negation of a test.
pub open spec fn not_fn<A>(pred: spec_fn(A) -> bool) -> spec_fn(A) -> bool {
    |a: A| !pred(a)
}

/// Where every element passes, `filter` keeps the sequence.
pub proof fn lemma_filter_all<A>(s: Seq<A>, pred: spec_fn(A) -> bool)
    requires
        forall|i: int| 0 <= i < s.len() ==> #[trigger] pred(s[i]),
    ensures
        s.filter(pred) == s,
    decreases s.len(),
{
    reveal(Seq::filter);
    if s.len() > 0 {
        let rest = s.drop_last();
        assert forall|i: int| 0 <= i < rest.len() implies #[trigger] pred(rest[i]) by {
            assert(rest[i] == s[i]);
        }
        lemma_filter_all(rest, pred);
        assert(pred(s[s.len() - 1]));
        assert(rest.push(s.last()) =~= s);
    } else {
        assert(s.filter(pred) =~= s);
    }
}

/// Where no element passes, `filter` keeps nothing.
pub proof fn lemma_filter_none<A>(s: Seq<A>, pred: spec_fn(A) -> bool)
    requires
        forall|i: int| 0 <= i < s.len() ==> !pred(#[trigger] s[i]),
    ensures
        s.filter(pred) == Seq::<A>::empty(),
    decreases s.len(),
{
    reveal(Seq::filter);
    if s.len() > 0 {
        let rest = s.drop_last();
        assert forall|i: int| 0 <= i < rest.len() implies !pred(#[trigger] rest[i]) by {
            assert(rest[i] == s[i]);
        }
        lemma_filter_none(rest, pred);
        assert(!pred(s[s.len() - 1]));
    } else {
        assert(s.filter(pred) =~= Seq::<A>::empty());
    }
}

/// A test parts a sequence: what passes and what fails make up the whole.
pub proof fn lemma_filter_parts<A>(s: Seq<A>, pred: spec_fn(A) -> bool)
    ensures
        s.filter(pred).len() + s.filter(not_fn(pred)).len() == s.len(),
    decreases s.len(),
{
    reveal(Seq::filter);
    if s.len() > 0 {
        lemma_filter_parts(s.drop_last(), pred);
    }
}

/// What `filter` keeps of a sequence without repetitions has none.
pub proof fn lemma_filter_no_duplicates<A>(s: Seq<A>, pred: spec_fn(A) -> bool)
    requires
        s.no_duplicates(),
    ensures
        s.filter(pred).no_duplicates(),
    decreases s.len(),
{
    reveal(Seq::filter);
    if s.len() > 0 {
        let rest = s.drop_last();
        lemma_filter_no_duplicates(rest, pred);
        if pred(s.last()) {
            if rest.filter(pred).contains(s.last()) {
                rest.lemma_filter_contains_rev(pred, s.last());
                let i = choose|i: int| 0 <= i < rest.len() && rest[i] == s.last();
                assert(s[i] == s[s.len() - 1]);
            }
        }
    }
}

/// What a kept element maps to is in the result of `filter_map`.
pub proof fn lemma_filter_map_has<A, B>(s: Seq<A>, f: spec_fn(A) -> Option<B>, a: A, b: B)
    requires
        s.contains(a),
        f(a) == Some(b),
    ensures
        s.filter_map(f).contains(b),
    decreases s.len(),
{
    if s.len() > 0 {
        let rest = s.drop_last();
        if s.last() == a {
            let r = rest.filter_map(f) + seq![b];
            assert(r[r.len() - 1] == b);
        } else {
            let i = choose|i: int| 0 <= i < s.len() && s[i] == a;
            assert(rest[i] == a);
            lemma_filter_map_has(rest, f, a, b);
            let j = choose|j: int| 0 <= j < rest.filter_map(f).len() && rest.filter_map(f)[j] == b;
            assert(s.filter_map(f)[j] == b);
        }
    }
}

/// Where every element is kept, `filter_map` maps element by element.
pub proof fn lemma_filter_map_total<A, B>(s: Seq<A>, f: spec_fn(A) -> Option<B>)
    requires
        forall|i: int| 0 <= i < s.len() ==> (#[trigger] f(s[i])) is Some,
    ensures
        s.filter_map(f).len() == s.len(),
        forall|i: int| 0 <= i < s.len() ==> Some(#[trigger] s.filter_map(f)[i]) == f(s[i]),
    decreases s.len(),
{
    if s.len() > 0 {
        let rest = s.drop_last();
        assert forall|i: int| 0 <= i < rest.len() implies (#[trigger] f(rest[i])) is Some by {
            assert(rest[i] == s[i]);
        }
        lemma_filter_map_total(rest, f);
        assert forall|i: int| 0 <= i < s.len() implies Some(#[trigger] s.filter_map(f)[i]) == f(
            s[i],
        ) by {
            if i < rest.len() {
                assert(rest[i] == s[i]);
                assert(s.filter_map(f)[i] == rest.filter_map(f)[i]);
            }
        }
    }
}

/// Where no element is kept, `filter_map` gives nothing.
pub proof fn lemma_filter_map_none<A, B>(s: Seq<A>, f: spec_fn(A) -> Option<B>)
    requires
        forall|i: int| 0 <= i < s.len() ==> (#[trigger] f(s[i])) is None,
    ensures
        s.filter_map(f).len() == 0,
    decreases s.len(),
{
    if s.len() > 0 {
        let rest = s.drop_last();
        assert forall|i: int| 0 <= i < rest.len() implies (#[trigger] f(rest[i])) is None by {
            assert(rest[i] == s[i]);
        }
        lemma_filter_map_none(rest, f);
        assert(f(s[s.len() - 1]) is None);
    }
}

/// Two `filter_map`s that between them keep every element once part the
/// sequence: their results make up its length.
pub proof fn lemma_filter_map_parts<A, B>(
    s: Seq<A>,
    f: spec_fn(A) -> Option<B>,
    g: spec_fn(A) -> Option<B>,
)
    requires
        forall|i: int| 0 <= i < s.len() ==> ((#[trigger] f(s[i])) is Some) != (g(s[i]) is Some),
    ensures
        s.filter_map(f).len() + s.filter_map(g).len() == s.len(),
    decreases s.len(),
{
    if s.len() > 0 {
        let rest = s.drop_last();
        assert forall|i: int| 0 <= i < rest.len() implies ((#[trigger] f(rest[i])) is Some) != (g(
            rest[i],
        ) is Some) by {
            assert(rest[i] == s[i]);
        }
        lemma_filter_map_parts(rest, f, g);
        assert((f(s[s.len() - 1]) is Some) != (g(s[s.len() - 1]) is Some));
    }
}

/// Where one `filter_map` keeps whatever another keeps, it keeps no less.
pub proof fn lemma_both_kept<A, B>(s: Seq<A>, f: spec_fn(A) -> Option<B>, g: spec_fn(A) -> Option<B>)
    requires
        forall|a: A| (#[trigger] f(a)) is Some ==> g(a) is Some,
    ensures
        s.filter_map(f).len() <= s.filter_map(g).len(),
    decreases s.len(),
{
    if s.len() > 0 {
        lemma_both_kept(s.drop_last(), f, g);
    }
}

/// `filter_map` goes through a concatenation part by part.
pub proof fn lemma_filter_map_add<A, B>(a: Seq<A>, b: Seq<A>, f: spec_fn(A) -> Option<B>)
    ensures
        (a + b).filter_map(f) == a.filter_map(f) + b.filter_map(f),
    decreases b.len(),
{
    if b.len() == 0 {
        assert(a + b =~= a);
        assert(a.filter_map(f) + b.filter_map(f) =~= a.filter_map(f));
    } else {
        let rest = b.drop_last();
        assert((a + b).drop_last() =~= a + rest);
        assert((a + b).last() == b.last());
        lemma_filter_map_add(a, rest, f);
        assert((a + b).filter_map(f) =~= a.filter_map(f) + b.filter_map(f));
    }
}

/// Mapping and then `filter_map` is one `filter_map`.
pub proof fn lemma_map_then_filter_map<A, B, C>(
    s: Seq<A>,
    g: spec_fn(A) -> B,
    h: spec_fn(B) -> Option<C>,
    k: spec_fn(A) -> Option<C>,
)
    requires
        forall|x: A| #[trigger] k(x) == h(g(x)),
    ensures
        s.map_values(g).filter_map(h) == s.filter_map(k),
    decreases s.len(),
{
    if s.len() == 0 {
        assert(s.map_values(g) =~= Seq::<B>::empty());
    } else {
        let rest = s.drop_last();
        assert(s.map_values(g).drop_last() =~= rest.map_values(g));
        assert(s.map_values(g).last() == g(s.last()));
        assert(k(s.last()) == h(g(s.last())));
        lemma_map_then_filter_map(rest, g, h, k);
    }
}

/// Two `filter_map`s in a row are one.
pub proof fn lemma_filter_map_twice<A, B, C>(
    s: Seq<A>,
    f: spec_fn(A) -> Option<B>,
    h: spec_fn(B) -> Option<C>,
    k: spec_fn(A) -> Option<C>,
)
    requires
        forall|x: A|
            #[trigger] k(x) == match f(x) {
                Some(y) => h(y),
                None => None,
            },
    ensures
        s.filter_map(f).filter_map(h) == s.filter_map(k),
    decreases s.len(),
{
    if s.len() > 0 {
        let rest = s.drop_last();
        lemma_filter_map_twice(rest, f, h, k);
        assert(k(s.last()) == match f(s.last()) {
            Some(y) => h(y),
            None => None,
        });
        match f(s.last()) {
            Some(y) => {
                lemma_filter_map_add(rest.filter_map(f), seq![y], h);
                Seq::lemma_filter_map_singleton(y, h);
                match h(y) {
                    Some(z) => {},
                    None => {
                        assert(rest.filter_map(k) + Seq::<C>::empty() =~= rest.filter_map(k));
                    },
                }
            },
            None => {},
        }
    }
}

/// `flat_map` goes through a concatenation part by part.
pub proof fn lemma_flat_map_add<A, B>(a: Seq<A>, b: Seq<A>, f: spec_fn(A) -> Seq<B>)
    ensures
        (a + b).flat_map(f) == a.flat_map(f) + b.flat_map(f),
    decreases b.len(),
{
    if b.len() == 0 {
        assert(a + b =~= a);
        assert(b.map_values(f) =~= Seq::<Seq<B>>::empty());
        assert(a.flat_map(f) + b.flat_map(f) =~= a.flat_map(f));
    } else {
        let rest = b.drop_last();
        assert(a + b =~= (a + rest).push(b.last()));
        assert(b =~= rest.push(b.last()));
        (a + rest).lemma_flat_map_push(f, b.last());
        rest.lemma_flat_map_push(f, b.last());
        lemma_flat_map_add(a, rest, f);
        assert((a + b).flat_map(f) =~= a.flat_map(f) + b.flat_map(f));
    }
}

/// What `flat_map` gives comes from one of the elements.
pub proof fn lemma_flat_map_contains<A, B>(s: Seq<A>, f: spec_fn(A) -> Seq<B>, b: B)
    requires
        s.flat_map(f).contains(b),
    ensures
        exists|i: int| 0 <= i < s.len() && (#[trigger] f(s[i])).contains(b),
    decreases s.len(),
{
    if s.len() == 0 {
        assert(s.map_values(f) =~= Seq::<Seq<B>>::empty());
    } else {
        let rest = s.drop_last();
        assert(s =~= rest.push(s.last()));
        rest.lemma_flat_map_push(f, s.last());
        let whole = rest.flat_map(f) + f(s.last());
        let k = choose|k: int| 0 <= k < whole.len() && whole[k] == b;
        if k < rest.flat_map(f).len() {
            assert(rest.flat_map(f)[k] == b);
            lemma_flat_map_contains(rest, f, b);
            let i = choose|i: int| 0 <= i < rest.len() && (#[trigger] f(rest[i])).contains(b);
            assert(rest[i] == s[i]);
        } else {
            assert(f(s.last())[k - rest.flat_map(f).len()] == b);
            assert(f(s[s.len() - 1]).contains(b));
        }
    }
}

} // verus!
