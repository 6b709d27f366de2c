//! The workload generator: a uniformly drawn key and a weighted choice of
//! operation for every iteration of a worker.
use vstd::prelude::*;
use rand::rngs::ThreadRng;
use rand::Rng;

verus! {

/// rand's per-thread generator, carried through unopened.
#[verifier::external_type_specification]
#[verifier::external_body]
pub struct ExThreadRng(ThreadRng);

/// A map operation performed by a benchmark worker.
#[derive(PartialEq, Eq, Debug, Clone, Copy, Structural)]
pub enum Op {
    Get,
    Insert,
    Remove,
}

/// Weights of `Get`, `Insert` and `Remove`, in that order.
#[derive(PartialEq, Eq, Debug, Clone, Copy, Structural)]
pub struct OpWeights {
    pub get: u64,
    pub insert: u64,
    pub remove: u64,
}

/// Largest weight of a single operation kind.
pub const MAX_WEIGHT: u64 = 0x1_0000_0000;

impl OpWeights {
    pub open spec fn wf(self) -> bool {
        &&& self.get <= MAX_WEIGHT
        &&& self.insert <= MAX_WEIGHT
        &&& self.remove <= MAX_WEIGHT
        &&& self.total_spec() > 0
    }

    pub open spec fn total_spec(self) -> int {
        self.get + self.insert + self.remove
    }

    /// The operation that a draw `u` from `[0, total)` selects: the range is cut
    /// into consecutive intervals, one per operation, as long as its weight.
    pub open spec fn pick_spec(self, u: int) -> Op {
        if u < self.get {
            Op::Get
        } else if u < self.get + self.insert {
            Op::Insert
        } else {
            Op::Remove
        }
    }

    /// The preset weights of a get-rate level: 0% (level 0), about 50% (level 1)
    /// and about 90% (level 2 and above).
    pub open spec fn for_get_rate_spec(level: usize) -> OpWeights {
        if level == 0 {
            OpWeights { get: 0, insert: 1, remove: 1 }
        } else if level == 1 {
            OpWeights { get: 2, insert: 1, remove: 1 }
        } else {
            OpWeights { get: 18, insert: 1, remove: 1 }
        }
    }

    pub fn for_get_rate(level: usize) -> (r: OpWeights)
        ensures
            r == Self::for_get_rate_spec(level),
            r.wf(),
    {
        if level == 0 {
            OpWeights { get: 0, insert: 1, remove: 1 }
        } else if level == 1 {
            OpWeights { get: 2, insert: 1, remove: 1 }
        } else {
            OpWeights { get: 18, insert: 1, remove: 1 }
        }
    }

    pub fn total(&self) -> (r: u64)
        requires
            self.wf(),
        ensures
            r == self.total_spec(),
    {
        self.get + self.insert + self.remove
    }

    /// The operation selected by the draw `u`.
    pub fn pick(&self, u: u64) -> (r: Op)
        requires
            self.wf(),
            u < self.total_spec(),
        ensures
            r == self.pick_spec(u as int),
    {
        if u < self.get {
            Op::Get
        } else if u < self.get + self.insert {
            Op::Insert
        } else {
            Op::Remove
        }
    }

    /// Exactly `weight` of the `total` equally likely draws select each
    /// operation, so the realized mix converges to the ratio of the weights;
    /// an operation of weight zero is never selected.
    pub proof fn lemma_mix_follows_weights(self, u: int)
        requires
            self.wf(),
            0 <= u < self.total_spec(),
        ensures
            (self.pick_spec(u) == Op::Get) <==> (u < self.get),
            (self.pick_spec(u) == Op::Insert) <==> (self.get <= u < self.get + self.insert),
            (self.pick_spec(u) == Op::Remove) <==> (self.get + self.insert <= u),
            self.get == 0 ==> self.pick_spec(u) != Op::Get,
            self.insert == 0 ==> self.pick_spec(u) != Op::Insert,
            self.remove == 0 ==> self.pick_spec(u) != Op::Remove,
    {
    }
}

/// Relies on rand's `Rng::gen_range`: a value drawn from `low..high`, which is
/// nonempty (the call panics on an empty range).
#[verifier::external_body]
fn draw_below(rng: &mut ThreadRng, high: u64) -> (r: u64)
    requires
        high > 0,
    ensures
        r < high,
{
    rng.gen_range(0..high)
}

/// The decimal digit `d`.
pub open spec fn digit_char(d: nat) -> char {
    if d == 0 { '0' }
    else if d == 1 { '1' }
    else if d == 2 { '2' }
    else if d == 3 { '3' }
    else if d == 4 { '4' }
    else if d == 5 { '5' }
    else if d == 6 { '6' }
    else if d == 7 { '7' }
    else if d == 8 { '8' }
    else { '9' }
}

/// The decimal notation of `n`, without leading zeros.
pub open spec fn decimal(n: nat) -> Seq<char>
    decreases n,
{
    if n < 10 {
        seq![digit_char(n)]
    } else {
        decimal(n / 10).push(digit_char(n % 10))
    }
}

/// Relies on std's `ToString` for `u64`: the decimal notation of the value.
#[verifier::external_body]
fn decimal_string(n: u64) -> (r: String)
    ensures
        r@ == decimal(n as nat),
{
    n.to_string()
}

/// The key of the map that stands for the integer `k`: its decimal notation,
/// so that equal integers always give equal keys.
pub fn key_of(k: u64) -> (r: String)
    ensures
        r@ == decimal(k as nat),
{
    decimal_string(k)
}

/// Draws a key uniformly from `[0, range)`.
pub fn sample_key(rng: &mut ThreadRng, range: u64) -> (r: u64)
    requires
        range > 0,
    ensures
        r < range,
{
    draw_below(rng, range)
}

/// Draws an operation with probability proportional to its weight.
pub fn sample_op(rng: &mut ThreadRng, weights: &OpWeights) -> (r: Op)
    requires
        weights.wf(),
    ensures
        exists|u: int| 0 <= u < weights.total_spec() && r == weights.pick_spec(u),
        r == Op::Get ==> weights.get > 0,
        r == Op::Insert ==> weights.insert > 0,
        r == Op::Remove ==> weights.remove > 0,
{
    let u = draw_below(rng, weights.total());
    proof {
        weights.lemma_mix_follows_weights(u as int);
    }
    weights.pick(u)
}

} // verus!
