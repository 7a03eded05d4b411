use vstd::prelude::*;
use vstd::map::*;
use vstd::assert_sets_equal;
use crate::scalar::confirmation_text;

verus! {

/// After putting `items` under key `k`, reading `k` yields exactly `items`,
/// and `k` is among the listed keys.
pub proof fn lemma_put_then_get(
    m: Map<Seq<char>, Seq<Seq<char>>>,
    k: Seq<char>,
    items: Seq<Seq<char>>,
)
    ensures
        m.insert(k, items).contains_key(k),
        m.insert(k, items)[k] == items,
{
}

/// Overwriting: putting `a` and then `b` under the same key leaves exactly
/// `b` — a full replacement, never a merge of `a` and `b` — and leaves the
/// store as if only `b` had been put.
pub proof fn lemma_overwrite(
    m: Map<Seq<char>, Seq<Seq<char>>>,
    k: Seq<char>,
    a: Seq<Seq<char>>,
    b: Seq<Seq<char>>,
)
    ensures
        m.insert(k, a).insert(k, b)[k] == b,
        m.insert(k, a).insert(k, b) == m.insert(k, b),
{
    assert_maps_equal!(m.insert(k, a).insert(k, b), m.insert(k, b), kk => {});
}

/// The keys of a run of puts, in order.
pub open spec fn keys_of(puts: Seq<(Seq<char>, Seq<Seq<char>>)>) -> Seq<Seq<char>> {
    puts.map_values(|p: (Seq<char>, Seq<Seq<char>>)| p.0)
}

/// A run of puts applied to a store state, in order.
pub open spec fn apply_puts(
    m: Map<Seq<char>, Seq<Seq<char>>>,
    puts: Seq<(Seq<char>, Seq<Seq<char>>)>,
) -> Map<Seq<char>, Seq<Seq<char>>>
    decreases puts.len(),
{
    if puts.len() == 0 {
        m
    } else {
        apply_puts(m, puts.drop_last()).insert(puts.last().0, puts.last().1)
    }
}

/// After any run of puts, the stored keys are exactly the keys put together
/// with the keys the store already held.
pub proof fn lemma_puts_dom(
    m: Map<Seq<char>, Seq<Seq<char>>>,
    puts: Seq<(Seq<char>, Seq<Seq<char>>)>,
)
    ensures
        apply_puts(m, puts).dom() == m.dom() + keys_of(puts).to_set(),
    decreases puts.len(),
{
    if puts.len() == 0 {
        assert_sets_equal!(apply_puts(m, puts).dom(), m.dom() + keys_of(puts).to_set(), k => {});
    } else {
        let prefix = puts.drop_last();
        lemma_puts_dom(m, prefix);
        assert(keys_of(puts).len() == puts.len());
        assert(keys_of(puts)[puts.len() - 1] == puts.last().0);
        assert(keys_of(puts).contains(puts.last().0));
        assert_sets_equal!(
            apply_puts(m, puts).dom(),
            m.dom() + keys_of(puts).to_set(),
            k => {
                if keys_of(puts).to_set().contains(k) {
                    let j = choose|j: int| 0 <= j < keys_of(puts).len() && keys_of(puts)[j] == k;
                    if j < prefix.len() {
                        assert(keys_of(prefix)[j] == k);
                        assert(keys_of(prefix).contains(k));
                    } else {
                        assert(puts.last().0 == k);
                    }
                }
                if keys_of(prefix).to_set().contains(k) {
                    let j = choose|j: int|
                        0 <= j < keys_of(prefix).len() && keys_of(prefix)[j] == k;
                    assert(keys_of(puts)[j] == k);
                    assert(keys_of(puts).contains(k));
                }
            }
        );
    }
}

/// Listing keys after N puts with N distinct keys on a fresh store shows
/// exactly those N keys, as a set of that very cardinality.
pub proof fn lemma_distinct_puts_list_exactly(puts: Seq<(Seq<char>, Seq<Seq<char>>)>)
    requires
        keys_of(puts).no_duplicates(),
    ensures
        apply_puts(Map::empty(), puts).dom() == keys_of(puts).to_set(),
        apply_puts(Map::empty(), puts).dom().len() == puts.len(),
{
    lemma_puts_dom(Map::empty(), puts);
    assert_sets_equal!(
        Map::<Seq<char>, Seq<Seq<char>>>::empty().dom() + keys_of(puts).to_set(),
        keys_of(puts).to_set(),
        k => {}
    );
    keys_of(puts).unique_seq_to_set();
}

/// The confirmation a scalar replacement answers mentions the new value:
/// the value occurs verbatim inside the confirmation text, right after the
/// opening quote.
pub proof fn lemma_confirmation_mentions_value(v: Seq<char>)
    ensures
        confirmation_text(v).subrange(17, 17 + v.len() as int) == v,
{
    reveal_strlit("Greeting set to '");
    assert(("Greeting set to '"@).len() == 17);
    assert(confirmation_text(v).subrange(17, 17 + v.len() as int) =~= v);
}

} // verus!
