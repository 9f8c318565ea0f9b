//! Lists that are kept in the order of pairs of texts, each pair at most once.
use vstd::prelude::*;
use crate::text::{before, before_is_total, before_is_transitive, is_before, same_text};

verus! {

/// A pair of texts, by which a list is ordered.
pub type TextPair = (Seq<char>, Seq<char>);

/// The order of pairs, first text first.
pub open spec fn pair_before(a: TextPair, b: TextPair) -> bool {
    if a.0 != b.0 {
        before(a.0, b.0)
    } else {
        before(a.1, b.1)
    }
}

/// Each pair comes strictly before the next one.
pub open spec fn ascending(pairs: Seq<TextPair>) -> bool {
    forall|i: int| 0 <= i < pairs.len() - 1 ==> pair_before(#[trigger] pairs[i], pairs[i + 1])
}

/// Something that has its place in a list by a pair of texts.
pub trait PairKeyed: Sized {
    spec fn pair(self) -> TextPair;

    fn pair_texts(&self) -> (texts: (&str, &str))
        ensures
            (texts.0@, texts.1@) == self.pair(),
    ;
}

/// The pairs of the items.
pub open spec fn pairs_of<T: PairKeyed>(items: Seq<T>) -> Seq<TextPair> {
    items.map_values(|item: T| item.pair())
}

impl PairKeyed for (String, String) {
    open spec fn pair(self) -> TextPair {
        (self.0@, self.1@)
    }

    fn pair_texts(&self) -> (texts: (&str, &str)) {
        (self.0.as_str(), self.1.as_str())
    }
}

fn is_pair_before(a: (&str, &str), b: (&str, &str)) -> (found: bool)
    ensures
        found == pair_before((a.0@, a.1@), (b.0@, b.1@)),
{
    if same_text(a.0, b.0) {
        is_before(a.1, b.1)
    } else {
        is_before(a.0, b.0)
    }
}

/// Of two pairs one comes before the other, or they are the same.
pub proof fn pairs_are_ordered(a: TextPair, b: TextPair)
    ensures
        pair_before(a, b) || pair_before(b, a) || a == b,
        !(pair_before(a, b) && pair_before(b, a)),
        !pair_before(a, a),
{
    before_is_total(a.0, b.0);
    before_is_total(a.1, b.1);
    before_is_total(a.1, a.1);
}

proof fn pair_before_is_transitive(a: TextPair, b: TextPair, c: TextPair)
    requires
        pair_before(a, b),
        pair_before(b, c),
    ensures
        pair_before(a, c),
{
    before_is_total(a.0, b.0);
    before_is_total(b.0, c.0);
    if a.0 != b.0 && b.0 != c.0 {
        before_is_transitive(a.0, b.0, c.0);
        before_is_total(a.0, c.0);
    } else if a.0 == b.0 && b.0 == c.0 {
        before_is_transitive(a.1, b.1, c.1);
    }
}

/// In an ascending list every pair comes before every later one.
pub proof fn earlier_comes_before(pairs: Seq<TextPair>, i: int, j: int)
    requires
        ascending(pairs),
        0 <= i < j < pairs.len(),
    ensures
        pair_before(pairs[i], pairs[j]),
    decreases j - i,
{
    if i + 1 < j {
        earlier_comes_before(pairs, i, j - 1);
        assert(pair_before(pairs[j - 1], pairs[j - 1 + 1]));
        pair_before_is_transitive(pairs[i], pairs[j - 1], pairs[j]);
    }
}

/// An ascending list depends on nothing but which pairs it holds.
pub proof fn the_pairs_decide_the_list(a: Seq<TextPair>, b: Seq<TextPair>)
    requires
        ascending(a),
        ascending(b),
        forall|pair: TextPair| a.contains(pair) <==> b.contains(pair),
    ensures
        a == b,
    decreases a.len(),
{
    if a.len() == 0 {
        if b.len() > 0 {
            assert(b.contains(b[0]));
        }
        assert(a =~= b);
    } else {
        assert(a.contains(a[0]));
        assert(b.len() > 0);
        let (m, n) = (a.len() - 1, b.len() - 1);
        assert(a.contains(a[m]));
        assert(b.contains(b[n]));
        let j = choose|j: int| 0 <= j < b.len() && b[j] == a[m];
        let i = choose|i: int| 0 <= i < a.len() && a[i] == b[n];
        if j < n {
            earlier_comes_before(b, j, n);
        }
        if i < m {
            earlier_comes_before(a, i, m);
        }
        pairs_are_ordered(a[m], b[n]);
        assert(a[m] == b[n]);
        let (c, d) = (a.drop_last(), b.drop_last());
        assert forall|k: int| 0 <= k < c.len() - 1 implies pair_before(#[trigger] c[k], c[k + 1]) by {
            assert(pair_before(a[k], a[k + 1]));
        }
        assert forall|k: int| 0 <= k < d.len() - 1 implies pair_before(#[trigger] d[k], d[k + 1]) by {
            assert(pair_before(b[k], b[k + 1]));
        }
        assert forall|pair: TextPair| c.contains(pair) <==> d.contains(pair) by {
            if c.contains(pair) {
                let k = choose|k: int| 0 <= k < c.len() && c[k] == pair;
                assert(a[k] == pair);
                earlier_comes_before(a, k, m);
                pairs_are_ordered(a[m], a[m]);
                assert(b.contains(pair));
                let l = choose|l: int| 0 <= l < b.len() && b[l] == pair;
                assert(d[l] == pair);
            }
            if d.contains(pair) {
                let k = choose|k: int| 0 <= k < d.len() && d[k] == pair;
                assert(b[k] == pair);
                earlier_comes_before(b, k, n);
                pairs_are_ordered(b[n], b[n]);
                assert(a.contains(pair));
                let l = choose|l: int| 0 <= l < a.len() && a[l] == pair;
                assert(c[l] == pair);
            }
        }
        the_pairs_decide_the_list(c, d);
        assert(a =~= c.push(a[m]));
        assert(b =~= d.push(b[n]));
    }
}

/// A list that ascends by its items' pairs depends on nothing but which items it holds.
pub proof fn the_items_decide_the_list<T: PairKeyed>(a: Seq<T>, b: Seq<T>)
    requires
        ascending(pairs_of(a)),
        ascending(pairs_of(b)),
        forall|item: T| a.contains(item) <==> b.contains(item),
    ensures
        a == b,
{
    let (p, q) = (pairs_of(a), pairs_of(b));
    assert forall|pair: TextPair| p.contains(pair) <==> q.contains(pair) by {
        if p.contains(pair) {
            let k = choose|k: int| 0 <= k < p.len() && p[k] == pair;
            assert(a.contains(a[k]));
            let l = choose|l: int| 0 <= l < b.len() && b[l] == a[k];
            assert(q[l] == pair);
        }
        if q.contains(pair) {
            let k = choose|k: int| 0 <= k < q.len() && q[k] == pair;
            assert(b.contains(b[k]));
            let l = choose|l: int| 0 <= l < a.len() && a[l] == b[k];
            assert(p[l] == pair);
        }
    }
    the_pairs_decide_the_list(p, q);
    assert forall|k: int| 0 <= k < a.len() implies a[k] == b[k] by {
        assert(a.contains(a[k]));
        let l = choose|l: int| 0 <= l < b.len() && b[l] == a[k];
        assert(p[k] == a[k].pair() && q[l] == b[l].pair());
        pairs_are_ordered(p[k], p[k]);
        if l < k {
            earlier_comes_before(q, l, k);
        } else if k < l {
            earlier_comes_before(q, k, l);
        }
    }
    assert(a.len() == p.len() && b.len() == q.len());
    assert(a =~= b);
}

/// Where the pair stands in the list, or where it would have to stand.
pub fn place_of_pair<T: PairKeyed>(items: &Vec<T>, wanted: (&str, &str)) -> (place: (usize, bool))
    requires
        ascending(pairs_of(items@)),
    ensures
        place.0 <= items@.len(),
        place.1 <==> pairs_of(items@).contains((wanted.0@, wanted.1@)),
        place.1 ==> place.0 < items@.len() && items@[place.0 as int].pair() == (wanted.0@, wanted.1@),
        forall|k: int|
            0 <= k < place.0 ==> pair_before(#[trigger] pairs_of(items@)[k], (wanted.0@, wanted.1@)),
        !place.1 ==> forall|k: int|
            place.0 <= k < items@.len() ==> pair_before(
                (wanted.0@, wanted.1@),
                #[trigger] pairs_of(items@)[k],
            ),
{
    let ghost pairs = pairs_of(items@);
    let ghost pair = (wanted.0@, wanted.1@);
    let mut i: usize = 0;
    while i < items.len() && is_pair_before(items[i].pair_texts(), wanted)
        invariant
            i <= items@.len(),
            pairs == pairs_of(items@),
            pair == (wanted.0@, wanted.1@),
            forall|k: int| 0 <= k < i ==> pair_before(#[trigger] pairs[k], pair),
        decreases items@.len() - i,
    {
        assert(pairs[i as int] == items@[i as int].pair());
        i += 1;
    }
    let there = i < items.len() && {
        let texts = items[i].pair_texts();
        same_text(texts.0, wanted.0) && same_text(texts.1, wanted.1)
    };
    proof {
        if there {
            assert(pairs[i as int] == pair);
        } else {
            assert forall|k: int| i <= k < items@.len() implies pair_before(pair, #[trigger] pairs[k]) by {
                assert(pairs[i as int] == items@[i as int].pair());
                pairs_are_ordered(pair, pairs[i as int]);
                if i < k {
                    earlier_comes_before(pairs, i as int, k);
                    pair_before_is_transitive(pair, pairs[i as int], pairs[k]);
                }
            }
            pairs_are_ordered(pair, pair);
        }
    }
    (i, there)
}

/// Puts an item with a new pair in its place.
pub fn insert_in_order<T: PairKeyed>(items: Vec<T>, item: T) -> (longer: Vec<T>)
    requires
        ascending(pairs_of(items@)),
        !pairs_of(items@).contains(item.pair()),
    ensures
        ascending(pairs_of(longer@)),
        exists|place: int| 0 <= place <= items@.len() && longer@ == #[trigger] items@.insert(place, item),
        forall|any: T| longer@.contains(any) <==> items@.contains(any) || any == item,
{
    let (place, _) = place_of_pair(&items, item.pair_texts());
    let mut longer = items;
    longer.insert(place, item);
    proof {
        let pairs = pairs_of(longer@);
        let shorter = pairs_of(items@);
        assert(longer@ == items@.insert(place as int, item));
        assert forall|k: int| 0 <= k < pairs.len() - 1 implies pair_before(#[trigger] pairs[k], pairs[k + 1]) by {
            if k + 1 < place {
                assert(pairs[k] == shorter[k] && pairs[k + 1] == shorter[k + 1]);
            } else if k + 1 == place {
                assert(pairs[k] == shorter[k] && pairs[k + 1] == item.pair());
            } else if k == place {
                assert(pairs[k] == item.pair() && pairs[k + 1] == shorter[k]);
            } else {
                assert(pairs[k] == shorter[k - 1] && pairs[k + 1] == shorter[k - 1 + 1]);
            }
        }
        assert forall|any: T| longer@.contains(any) <==> items@.contains(any) || any == item by {
            assert(longer@[place as int] == item);
            if items@.contains(any) {
                let k = choose|k: int| 0 <= k < items@.len() && items@[k] == any;
                assert(longer@[if k < place { k } else { k + 1 }] == any);
            }
            if longer@.contains(any) && any != item {
                let k = choose|k: int| 0 <= k < longer@.len() && longer@[k] == any;
                assert(items@[if k < place { k } else { k - 1 }] == any);
            }
        }
    }
    longer
}

}
