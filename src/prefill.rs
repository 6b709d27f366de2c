//! Filling a map before the measured run starts.
use vstd::prelude::*;
use rand::rngs::ThreadRng;
use crate::config::MapKind;
use crate::workload::sample_key;

verus! {

/// The order in which the keys of the prefill are inserted.
#[derive(PartialEq, Eq, Debug, Clone, Copy, Structural)]
pub enum PrefillStrategy {
    /// Independent uniform keys, in the order drawn.
    Random,
    /// Uniform keys, inserted from the largest down.
    Decreasing,
}

pub open spec fn non_increasing(s: Seq<u64>) -> bool {
    forall|i: int, j: int| 0 <= i < j < s.len() ==> s[i] >= s[j]
}

pub open spec fn non_decreasing(s: Seq<u64>) -> bool {
    forall|i: int, j: int| 0 <= i < j < s.len() ==> s[i] <= s[j]
}

pub open spec fn all_below(s: Seq<u64>, range: u64) -> bool {
    forall|i: int| 0 <= i < s.len() ==> s[i] < range
}

impl PrefillStrategy {
    pub open spec fn for_map_spec(map: MapKind) -> PrefillStrategy {
        match map {
            MapKind::List | MapKind::HashMap => PrefillStrategy::Decreasing,
            MapKind::NMTree | MapKind::BonsaiTree => PrefillStrategy::Random,
        }
    }

    /// Lists and hash maps are filled in decreasing order of keys; the trees
    /// in random order, so that the order of insertion does not shape them.
    pub fn for_map(map: MapKind) -> (r: PrefillStrategy)
        ensures
            r == Self::for_map_spec(map),
    {
        match map {
            MapKind::List | MapKind::HashMap => PrefillStrategy::Decreasing,
            MapKind::NMTree | MapKind::BonsaiTree => PrefillStrategy::Random,
        }
    }

    /// The keys to insert, in the order of insertion: `prefill` of them, each
    /// drawn from `[0, range)` (with replacement, so some may repeat).
    pub fn prefill_keys(self, rng: &mut ThreadRng, prefill: usize, range: u64) -> (r: Vec<u64>)
        requires
            range > 0,
        ensures
            r@.len() == prefill,
            all_below(r@, range),
            self == PrefillStrategy::Decreasing ==> non_increasing(r@),
            exists|drawn: Seq<u64>|
                #![trigger drawn.to_multiset()]
                drawn.len() == prefill && all_below(drawn, range) && (self
                    == PrefillStrategy::Random ==> r@ == drawn) && (self
                    == PrefillStrategy::Decreasing ==> r@.to_multiset() == drawn.to_multiset()),
    {
        let mut keys: Vec<u64> = Vec::with_capacity(prefill);
        let mut i: usize = 0;
        while i < prefill
            invariant
                i <= prefill,
                range > 0,
                keys@.len() == i,
                all_below(keys@, range),
            decreases prefill - i,
        {
            let k = sample_key(rng, range);
            keys.push(k);
            i = i + 1;
        }
        let ghost drawn = keys@;
        let r = self.insertion_order(keys);
        proof {
            assert(drawn.to_multiset() == drawn.to_multiset());
        }
        r
    }

    /// The order in which the drawn keys are inserted: as drawn for `Random`;
    /// the same keys, largest first, for `Decreasing`.
    pub fn insertion_order(self, drawn: Vec<u64>) -> (r: Vec<u64>)
        ensures
            self == PrefillStrategy::Random ==> r@ == drawn@,
            self == PrefillStrategy::Decreasing ==> r@.to_multiset() == drawn@.to_multiset()
                && non_increasing(r@),
            r@.len() == drawn@.len(),
            forall|range: u64| all_below(drawn@, range) ==> all_below(#[trigger] r@, range),
    {
        match self {
            PrefillStrategy::Random => drawn,
            PrefillStrategy::Decreasing => {
                let ghost d = drawn@;
                let r = order_decreasing(drawn);
                proof {
                    vstd::seq_lib::to_multiset_len(r@);
                    vstd::seq_lib::to_multiset_len(d);
                    assert forall|range: u64| all_below(d, range) implies all_below(
                        r@,
                        range,
                    ) by {
                        assert forall|j: int| 0 <= j < r@.len() implies r@[j] < range by {
                            assert(r@.contains(r@[j]));
                            vstd::seq_lib::to_multiset_contains(r@, r@[j]);
                            vstd::seq_lib::to_multiset_contains(d, r@[j]);
                            let k = choose|k: int| 0 <= k < d.len() && d[k] == r@[j];
                        }
                    }
                }
                r
            },
        }
    }
}

/// Keys in non-increasing order are fixed by which keys they are: two such
/// orders of the same keys are equal, so the same draws give the same
/// insertion order.
pub proof fn lemma_decreasing_order_unique(a: Seq<u64>, b: Seq<u64>)
    requires
        non_increasing(a),
        non_increasing(b),
        a.to_multiset() == b.to_multiset(),
    ensures
        a == b,
    decreases a.len(),
{
    vstd::seq_lib::to_multiset_len(a);
    vstd::seq_lib::to_multiset_len(b);
    if a.len() > 0 {
        assert(a.contains(a[0]));
        assert(b.contains(b[0]));
        vstd::seq_lib::to_multiset_contains(a, a[0]);
        vstd::seq_lib::to_multiset_contains(b, a[0]);
        vstd::seq_lib::to_multiset_contains(a, b[0]);
        vstd::seq_lib::to_multiset_contains(b, b[0]);
        let i = choose|i: int| 0 <= i < b.len() && b[i] == a[0];
        let j = choose|j: int| 0 <= j < a.len() && a[j] == b[0];
        assert(b[0] >= b[i]);
        assert(a[0] >= a[j]);
        assert(a[0] == b[0]);
        vstd::seq_lib::to_multiset_remove(a, 0);
        vstd::seq_lib::to_multiset_remove(b, 0);
        assert(a.remove(0) =~= a.drop_first());
        assert(b.remove(0) =~= b.drop_first());
        lemma_decreasing_order_unique(a.drop_first(), b.drop_first());
        assert forall|k: int| 0 < k < a.len() implies a[k] == b[k] by {
            assert(a[k] == a.drop_first()[k - 1]);
            assert(b[k] == b.drop_first()[k - 1]);
        }
        assert(a =~= b);
    } else {
        assert(a =~= b);
    }
}

/// Relies on std's `slice::sort`: the same elements, in ascending order.
#[verifier::external_body]
fn sort_ascending(v: &mut Vec<u64>)
    ensures
        final(v)@.to_multiset() == old(v)@.to_multiset(),
        non_decreasing(final(v)@),
{
    v.sort()
}

/// The same keys, largest first.
pub fn order_decreasing(keys: Vec<u64>) -> (r: Vec<u64>)
    ensures
        r@.to_multiset() == keys@.to_multiset(),
        non_increasing(r@),
{
    let mut sorted = keys;
    sort_ascending(&mut sorted);
    let n = sorted.len();
    let mut r: Vec<u64> = Vec::with_capacity(n);
    let mut i: usize = 0;
    while i < n
        invariant
            i <= n,
            n == sorted@.len(),
            r@.len() == i,
            forall|j: int| 0 <= j < i ==> r@[j] == sorted@[n - 1 - j],
        decreases n - i,
    {
        r.push(sorted[n - 1 - i]);
        i = i + 1;
    }
    proof {
        assert(r@ =~= sorted@.reverse());
        sorted@.lemma_reverse_to_multiset();
    }
    r
}

} // verus!
