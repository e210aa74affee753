//! The weighted upgrade pool: weighted draws that never offer a player an
//! upgrade made redundant by one already granted.
//!
//! Entry 0 is the no-op entry ("nothing this round"): it has a small fixed
//! weight that no draw ever changes, so the pool always has probability mass.

use vstd::prelude::*;
use rand::distributions::{Distribution, WeightedError, WeightedIndex};
use rand_chacha::ChaCha20Rng;
use crate::error::ConfigError;
use crate::stream::{stream_key, stream_number, stream_position};
use crate::upgrade::UpgradeType;

verus! {

/// rand's `WeightedIndex<u64>`, held opaque: Verus does not take its
/// declaration, whose type parameter is bound by a trait of rand.
#[verifier::external_body]
pub struct WeightSampler {
    dist: WeightedIndex<u64>,
}

#[verifier::external_type_specification]
#[verifier::external_body]
pub struct ExWeightedError(WeightedError);

/// The weights a sampler draws by, in index order.
pub uninterp spec fn index_weights(d: WeightSampler) -> Seq<u64>;

/// Sum of a sequence of weights.
pub open spec fn sum(s: Seq<u64>) -> nat
    decreases s.len(),
{
    if s.len() == 0 {
        0
    } else {
        (sum(s.drop_last()) + s.last()) as nat
    }
}

/// `s` with each `(index, weight)` of `changes` written in, in order.
pub open spec fn with_changes(s: Seq<u64>, changes: Seq<(usize, u64)>) -> Seq<u64>
    decreases changes.len(),
{
    if changes.len() == 0 {
        s
    } else {
        with_changes(s, changes.drop_last()).update(changes.last().0 as int, changes.last().1)
    }
}

/// Relies on `WeightedIndex::new` (rand 0.8): it keeps the weights it is
/// given, and fails only when there are none or all of them are zero. The
/// running total is a `u64`, hence the bound on the sum.
#[verifier::external_body]
fn weighted_index(weights: &Vec<u64>) -> (r: Result<WeightSampler, WeightedError>)
    requires
        sum(weights@) <= u64::MAX,
    ensures
        r is Ok <==> (weights@.len() > 0 && sum(weights@) > 0),
        r matches Ok(d) ==> index_weights(d) == weights@,
{
    WeightedIndex::new(weights).map(|dist| WeightSampler { dist })
}

/// Relies on `WeightedIndex::update_weights` (rand 0.8): with indices strictly
/// increasing and in range, it writes the new weights in; it fails, and leaves
/// the distribution as it was, when all weights would be zero. Weights only go
/// down here, so its running total cannot overflow.
#[verifier::external_body]
fn update_index_weights(d: &mut WeightSampler, changes: &Vec<(usize, u64)>) -> (r: Result<
    (),
    WeightedError,
>)
    requires
        forall|a: int, b: int| 0 <= a < b < changes@.len() ==> changes@[a].0 < changes@[b].0,
        forall|a: int|
            0 <= a < changes@.len() ==> changes@[a].0 < index_weights(*old(d)).len()
                && changes@[a].1 <= index_weights(*old(d))[changes@[a].0 as int],
    ensures
        r is Ok <==> (changes@.len() == 0 || sum(with_changes(index_weights(*old(d)), changes@))
            > 0),
        r is Ok ==> index_weights(*final(d)) == with_changes(index_weights(*old(d)), changes@),
        r is Err ==> *final(d) == *old(d),
{
    let pairs: Vec<(usize, &u64)> = changes.iter().map(|c| (c.0, &c.1)).collect();
    d.dist.update_weights(&pairs)
}

/// The index a sampler over `weights` draws from a ChaCha20 generator with
/// this key, stream and word position.
pub uninterp spec fn sampled_index(weights: Seq<u64>, key: Seq<u8>, stream: u64, position: u128) -> usize;

/// The word position that draw leaves the generator at.
pub uninterp spec fn position_after_sample(
    weights: Seq<u64>,
    key: Seq<u8>,
    stream: u64,
    position: u128,
) -> u128;

/// Relies on `Distribution::sample` for `WeightedIndex` (rand 0.8): a uniform
/// draw below the total, read from the generator's next words, then a search
/// of the cumulative weights. The index is in range with a positive weight,
/// and it and the words read depend only on the weights and the generator's
/// key, stream and word position; key and stream are kept.
#[verifier::external_body]
fn sample_index(d: &WeightSampler, rng: &mut ChaCha20Rng) -> (r: usize)
    ensures
        r == sampled_index(
            index_weights(*d),
            stream_key(*old(rng)),
            stream_number(*old(rng)),
            stream_position(*old(rng)),
        ),
        r < index_weights(*d).len(),
        index_weights(*d)[r as int] > 0,
        stream_key(*final(rng)) == stream_key(*old(rng)),
        stream_number(*final(rng)) == stream_number(*old(rng)),
        stream_position(*final(rng)) == position_after_sample(
            index_weights(*d),
            stream_key(*old(rng)),
            stream_number(*old(rng)),
            stream_position(*old(rng)),
        ),
{
    d.dist.sample(rng)
}

/// Weight of the no-op entry: negligible against any catalog entry.
pub const NOTHING_WEIGHT: u64 = 5;

/// The weights of the entries, in order.
pub open spec fn weights_of(entries: Seq<(Option<UpgradeType>, u64)>) -> Seq<u64> {
    entries.map_values(|e: (Option<UpgradeType>, u64)| e.1)
}

/// Total weight of the entries.
pub open spec fn total_weight(entries: Seq<(Option<UpgradeType>, u64)>) -> nat {
    sum(weights_of(entries))
}

/// The no-op entry first, with its fixed weight; an upgrade in every other.
pub open spec fn entries_wf(entries: Seq<(Option<UpgradeType>, u64)>) -> bool {
    &&& entries.len() > 0
    &&& entries[0] == (Option::<UpgradeType>::None, NOTHING_WEIGHT)
    &&& forall|k: int| 1 <= k < entries.len() ==> (#[trigger] entries[k]).0 is Some
}

/// The entry holds an upgrade that `drawn` makes redundant.
pub open spec fn dominated(entry: Option<UpgradeType>, drawn: UpgradeType) -> bool {
    match entry {
        Some(u) => u.spec_is_lower(drawn),
        None => false,
    }
}

/// The entry holds an upgrade of the same category and tier as `u`.
pub open spec fn occupies(entry: Option<UpgradeType>, u: UpgradeType) -> bool {
    match entry {
        Some(v) => v.same_slot(u),
        None => false,
    }
}

/// Some entry already holds the category and tier of `u`.
pub open spec fn holds_slot(entries: Seq<(Option<UpgradeType>, u64)>, u: UpgradeType) -> bool {
    exists|k: int| 0 <= k < entries.len() && #[trigger] occupies(entries[k].0, u)
}

/// The entries after entry `i` is drawn: when it is an upgrade, every entry
/// it dominates, itself included, drops to weight zero.
pub open spec fn after_draw(entries: Seq<(Option<UpgradeType>, u64)>, i: int) -> Seq<
    (Option<UpgradeType>, u64),
> {
    match entries[i].0 {
        Some(drawn) => Seq::new(
            entries.len(),
            |k: int|
                if dominated(entries[k].0, drawn) {
                    (entries[k].0, 0u64)
                } else {
                    entries[k]
                },
        ),
        None => entries,
    }
}

/// Key, stream and word position of the generator a pool draws with.
pub type DrawState = (Seq<u8>, u64, u128);

/// The entry the next draw picks, from the entries and the draw state.
pub open spec fn next_index(entries: Seq<(Option<UpgradeType>, u64)>, state: DrawState) -> int {
    sampled_index(weights_of(entries), state.0, state.1, state.2) as int
}

/// The draw state after the next draw.
pub open spec fn next_state(entries: Seq<(Option<UpgradeType>, u64)>, state: DrawState) -> DrawState {
    (state.0, state.1, position_after_sample(weights_of(entries), state.0, state.1, state.2))
}

/// One draw took `pre` to `post` and gave `r`: some entry of positive weight
/// was picked, `r` is what it holds, and the entries it dominates dropped out.
pub open spec fn draw_step(
    pre: Seq<(Option<UpgradeType>, u64)>,
    post: Seq<(Option<UpgradeType>, u64)>,
    r: Option<UpgradeType>,
) -> bool {
    exists|i: int|
        0 <= i < pre.len() && pre[i].1 > 0 && #[trigger] after_draw(pre, i) == post && r
            == pre[i].0
}

/// A draw never raises a weight, and never changes what an entry holds.
proof fn lemma_draw_only_lowers(
    pre: Seq<(Option<UpgradeType>, u64)>,
    post: Seq<(Option<UpgradeType>, u64)>,
    r: Option<UpgradeType>,
)
    requires
        draw_step(pre, post, r),
    ensures
        post.len() == pre.len(),
        forall|k: int|
            0 <= k < pre.len() ==> (#[trigger] post[k]).0 == pre[k].0 && (post[k].1 == pre[k].1
                || post[k].1 == 0),
        entries_wf(pre) ==> entries_wf(post),
{
    let i = choose|i: int|
        0 <= i < pre.len() && pre[i].1 > 0 && #[trigger] after_draw(pre, i) == post && r
            == pre[i].0;
    assert(after_draw(pre, i) == post);
}

/// After `x` has been drawn at step `a`, every entry that `x` dominates keeps
/// weight zero at each later step `c`.
proof fn lemma_dominated_stay_out(
    states: Seq<Seq<(Option<UpgradeType>, u64)>>,
    results: Seq<Option<UpgradeType>>,
    a: int,
    c: int,
    x: UpgradeType,
)
    requires
        states.len() == results.len() + 1,
        forall|k: int|
            0 <= k < results.len() ==> #[trigger] draw_step(states[k], states[k + 1], results[k]),
        0 <= a < c <= results.len(),
        results[a] == Some(x),
    ensures
        states[c].len() == states[a].len(),
        forall|k: int|
            0 <= k < states[c].len() && dominated(#[trigger] states[c][k].0, x) ==> states[c][k].1
                == 0,
    decreases c - a,
{
    if c == a + 1 {
        assert(draw_step(states[a], states[a + 1], results[a]));
        let pre = states[a];
        let i = choose|i: int|
            0 <= i < pre.len() && pre[i].1 > 0 && #[trigger] after_draw(pre, i) == states[a + 1]
                && results[a] == pre[i].0;
        assert(after_draw(pre, i) == states[c]);
    } else {
        lemma_dominated_stay_out(states, results, a, c - 1, x);
        let k = c - 1;
        assert(draw_step(states[k], states[k + 1], results[k]));
        lemma_draw_only_lowers(states[k], states[k + 1], results[k]);
    }
}

/// Progression is monotonic: over a run of draws, once an upgrade of some
/// category and tier has been granted, no later draw grants an upgrade of that
/// category at the same or a lower tier. `Generator::get_upgrade` meets
/// `draw_step` on `Generator::pool`, so this holds of a run's draws too.
pub proof fn lemma_draws_never_regress(
    states: Seq<Seq<(Option<UpgradeType>, u64)>>,
    results: Seq<Option<UpgradeType>>,
    a: int,
    b: int,
)
    requires
        states.len() == results.len() + 1,
        forall|k: int|
            0 <= k < results.len() ==> #[trigger] draw_step(states[k], states[k + 1], results[k]),
        0 <= a < b < results.len(),
        results[a] is Some,
        results[b] is Some,
    ensures
        !results[b]->0.spec_is_lower(results[a]->0),
        results[b]->0.category() == results[a]->0.category() ==> results[b]->0.spec_tier().rank()
            > results[a]->0.spec_tier().rank(),
{
    let x = results[a]->0;
    lemma_dominated_stay_out(states, results, a, b, x);
    assert(draw_step(states[b], states[b + 1], results[b]));
    let pre = states[b];
    let i = choose|i: int|
        0 <= i < pre.len() && pre[i].1 > 0 && #[trigger] after_draw(pre, i) == states[b + 1]
            && results[b] == pre[i].0;
    assert(!dominated(pre[i].0, x));
}

/// Exhaustion: once every entry but the no-op entry has weight zero, a draw
/// gives nothing and leaves the pool as it was.
pub proof fn lemma_exhausted_pool_gives_nothing(
    pre: Seq<(Option<UpgradeType>, u64)>,
    post: Seq<(Option<UpgradeType>, u64)>,
    r: Option<UpgradeType>,
)
    requires
        entries_wf(pre),
        forall|k: int| 1 <= k < pre.len() ==> (#[trigger] pre[k]).1 == 0,
        draw_step(pre, post, r),
    ensures
        r is None,
        post == pre,
{
    let i = choose|i: int|
        0 <= i < pre.len() && pre[i].1 > 0 && #[trigger] after_draw(pre, i) == post && r
            == pre[i].0;
    assert(i == 0);
    assert(after_draw(pre, i) == post);
}

/// Along a run of draws the entries keep their upgrades and their shape.
proof fn lemma_trace_shape(
    states: Seq<Seq<(Option<UpgradeType>, u64)>>,
    results: Seq<Option<UpgradeType>>,
    c: int,
)
    requires
        states.len() == results.len() + 1,
        forall|k: int|
            0 <= k < results.len() ==> #[trigger] draw_step(states[k], states[k + 1], results[k]),
        entries_wf(states[0]),
        0 <= c <= results.len(),
    ensures
        states[c].len() == states[0].len(),
        entries_wf(states[c]),
        forall|k: int| 0 <= k < states[0].len() ==> (#[trigger] states[c][k]).0 == states[0][k].0,
    decreases c,
{
    if c > 0 {
        lemma_trace_shape(states, results, c - 1);
        let k = c - 1;
        assert(draw_step(states[k], states[k + 1], results[k]));
        lemma_draw_only_lowers(states[k], states[k + 1], results[k]);
    }
}

/// The result is an upgrade of the same category as the entry.
pub open spec fn drew_category(r: Option<UpgradeType>, entry: Option<UpgradeType>) -> bool {
    match (r, entry) {
        (Some(u), Some(e)) => u.category() == e.category(),
        _ => false,
    }
}

/// Catalog exhaustion: in a pool that holds at most one upgrade of each
/// category, once an upgrade of every category in it has been drawn, every
/// further draw gives nothing and leaves the pool as it was.
pub proof fn lemma_every_category_drawn_gives_nothing(
    states: Seq<Seq<(Option<UpgradeType>, u64)>>,
    results: Seq<Option<UpgradeType>>,
    b: int,
)
    requires
        states.len() == results.len() + 1,
        forall|k: int|
            0 <= k < results.len() ==> #[trigger] draw_step(states[k], states[k + 1], results[k]),
        entries_wf(states[0]),
        forall|j: int, k: int|
            1 <= j < states[0].len() && 1 <= k < states[0].len() && j != k ==> (
            #[trigger] states[0][j]).0->0.category() != (#[trigger] states[0][k]).0->0.category(),
        forall|k: int|
            #![trigger states[0][k]]
            1 <= k < states[0].len() ==> exists|a: int|
                0 <= a < b && #[trigger] drew_category(results[a], states[0][k].0),
        0 <= b < results.len(),
    ensures
        results[b] is None,
        states[b + 1] == states[b],
{
    lemma_trace_shape(states, results, b);
    let first = states[0];
    assert forall|k: int| 1 <= k < states[b].len() implies (#[trigger] states[b][k]).1 == 0 by {
        let a = choose|a: int| 0 <= a < b && #[trigger] drew_category(results[a], first[k].0);
        let x = results[a]->0;
        assert(draw_step(states[a], states[a + 1], results[a]));
        lemma_trace_shape(states, results, a);
        let pre = states[a];
        let i = choose|i: int|
            0 <= i < pre.len() && pre[i].1 > 0 && #[trigger] after_draw(pre, i) == states[a + 1]
                && results[a] == pre[i].0;
        assert(pre[i].0 == first[i].0);
        assert(i >= 1);
        assert(first[k].0 == Some(x)) by {
            if i != k {
                assert(first[i].0->0.category() != first[k].0->0.category());
            }
        }
        lemma_dominated_stay_out(states, results, a, b, x);
        assert(states[b][k].0 == first[k].0);
        assert(dominated(states[b][k].0, x));
    }
    assert(draw_step(states[b], states[b + 1], results[b]));
    lemma_exhausted_pool_gives_nothing(states[b], states[b + 1], results[b]);
}

/// A pool of upgrades drawn at random in proportion to their weights.
pub struct WeightedUpgrades {
    rng: ChaCha20Rng,
    upgrades: Vec<(Option<UpgradeType>, u64)>,
    total: u64,
    dist: WeightSampler,
}

impl View for WeightedUpgrades {
    type V = Seq<(Option<UpgradeType>, u64)>;

    closed spec fn view(&self) -> Seq<(Option<UpgradeType>, u64)> {
        self.upgrades@
    }
}

/// Appending a weight adds it to the sum.
pub proof fn lemma_sum_push(s: Seq<u64>, w: u64)
    ensures
        sum(s.push(w)) == sum(s) + w,
{
    assert(s.push(w).drop_last() =~= s);
}

/// Adding an entry adds its weight to the total.
pub proof fn lemma_total_push(entries: Seq<(Option<UpgradeType>, u64)>, e: (Option<UpgradeType>, u64))
    ensures
        total_weight(entries.push(e)) == total_weight(entries) + e.1,
{
    assert(weights_of(entries.push(e)) =~= weights_of(entries).push(e.1));
    lemma_sum_push(weights_of(entries), e.1);
}

/// Replacing one weight changes the sum by the difference.
pub proof fn lemma_sum_update(s: Seq<u64>, j: int, w: u64)
    requires
        0 <= j < s.len(),
    ensures
        sum(s.update(j, w)) == sum(s) - s[j] + w,
    decreases s.len(),
{
    if j == s.len() - 1 {
        assert(s.update(j, w).drop_last() =~= s.drop_last());
    } else {
        assert(s.update(j, w).drop_last() =~= s.drop_last().update(j, w));
        lemma_sum_update(s.drop_last(), j, w);
    }
}

/// No single weight exceeds the sum.
pub proof fn lemma_sum_ge_elem(s: Seq<u64>, j: int)
    requires
        0 <= j < s.len(),
    ensures
        sum(s) >= s[j],
    decreases s.len(),
{
    if j < s.len() - 1 {
        lemma_sum_ge_elem(s.drop_last(), j);
    }
}

impl WeightedUpgrades {
    /// The pool's internal consistency: the sampler and the running total
    /// agree with the entries.
    pub closed spec fn wf(&self) -> bool {
        &&& entries_wf(self.upgrades@)
        &&& index_weights(self.dist) == weights_of(self.upgrades@)
        &&& self.total == total_weight(self.upgrades@)
    }

    /// Key, stream and word position of the generator the pool draws with.
    pub closed spec fn draw_state(&self) -> DrawState {
        (stream_key(self.rng), stream_number(self.rng), stream_position(self.rng))
    }

    /// A consistent pool has the no-op entry first and an upgrade in every
    /// other entry.
    pub proof fn lemma_wf_entries(&self)
        requires
            self.wf(),
        ensures
            entries_wf(self@),
    {
    }

    /// A pool that holds only the no-op entry, drawing with `rng`.
    pub fn new(rng: ChaCha20Rng) -> (r: Self)
        ensures
            r.wf(),
            r@ == seq![(Option::<UpgradeType>::None, NOTHING_WEIGHT)],
            total_weight(r@) == NOTHING_WEIGHT,
            r.draw_state() == (stream_key(rng), stream_number(rng), stream_position(rng)),
    {
        let upgrades: Vec<(Option<UpgradeType>, u64)> = vec![(None, NOTHING_WEIGHT)];
        let weights: Vec<u64> = vec![NOTHING_WEIGHT];
        proof {
            lemma_sum_push(Seq::<u64>::empty(), NOTHING_WEIGHT);
            assert(weights@ =~= Seq::<u64>::empty().push(NOTHING_WEIGHT));
            assert(weights_of(upgrades@) =~= weights@);
        }
        let dist = weighted_index(&weights).unwrap();
        WeightedUpgrades { rng, upgrades, total: NOTHING_WEIGHT, dist }
    }

    /// Total weight of the pool.
    pub fn total(&self) -> (r: u64)
        requires
            self.wf(),
        ensures
            r == total_weight(self@),
    {
        self.total
    }

    /// Number of entries, the no-op entry included.
    pub fn len(&self) -> (r: usize)
        ensures
            r == self@.len(),
    {
        self.upgrades.len()
    }

    /// The entry at `index`: its upgrade (none for the no-op entry) and its
    /// current weight.
    pub fn entry(&self, index: usize) -> (r: Option<(Option<UpgradeType>, u64)>)
        ensures
            r is Some <==> index < self@.len(),
            r matches Some(e) ==> e == self@[index as int],
    {
        if index < self.upgrades.len() {
            Some(self.upgrades[index])
        } else {
            None
        }
    }

    /// Whether some entry already holds the category and tier of `upgrade`.
    fn holds(&self, upgrade: UpgradeType) -> (r: bool)
        ensures
            r == holds_slot(self@, upgrade),
    {
        let mut k: usize = 0;
        while k < self.upgrades.len()
            invariant
                k <= self.upgrades@.len(),
                forall|j: int| 0 <= j < k ==> !occupies(#[trigger] self.upgrades@[j].0, upgrade),
            decreases self.upgrades@.len() - k,
        {
            if let Some(held) = self.upgrades[k].0 {
                proof {
                    held.spec_tier().lemma_rank_round_trip();
                    upgrade.spec_tier().lemma_rank_round_trip();
                }
                if held.is_lower(upgrade) && upgrade.is_lower(held) {
                    assert(occupies(self.upgrades@[k as int].0, upgrade));
                    return true;
                }
            }
            k += 1;
        }
        false
    }

    /// The current weights, in entry order.
    fn weights(&self) -> (r: Vec<u64>)
        ensures
            r@ == weights_of(self@),
    {
        let mut r: Vec<u64> = Vec::new();
        let mut k: usize = 0;
        while k < self.upgrades.len()
            invariant
                k <= self.upgrades@.len(),
                r@ =~= weights_of(self.upgrades@).take(k as int),
            decreases self.upgrades@.len() - k,
        {
            r.push(self.upgrades[k].1);
            k += 1;
            assert(r@ =~= weights_of(self.upgrades@).take(k as int));
        }
        assert(weights_of(self.upgrades@).take(k as int) =~= weights_of(self.upgrades@));
        r
    }

    /// Registers `upgrade` with draw weight `weight`. Refused when the pool
    /// already holds its category and tier, or when the total weight would
    /// overflow; the pool is then left as it was.
    pub fn add_upgrade(&mut self, upgrade: UpgradeType, weight: u64) -> (r: Result<(), ConfigError>)
        requires
            old(self).wf(),
        ensures
            final(self).wf(),
            r is Ok <==> !holds_slot(old(self)@, upgrade) && total_weight(old(self)@) + weight
                <= u64::MAX,
            r == Err::<(), ConfigError>(ConfigError::DuplicateUpgrade) <==> holds_slot(
                old(self)@,
                upgrade,
            ),
            r == Err::<(), ConfigError>(ConfigError::WeightOverflow) <==> !holds_slot(
                old(self)@,
                upgrade,
            ) && total_weight(old(self)@) + weight > u64::MAX,
            r is Ok ==> final(self)@ == old(self)@.push((Some(upgrade), weight))
                && total_weight(final(self)@) == total_weight(old(self)@) + weight,
            r is Err ==> final(self)@ == old(self)@,
            final(self).draw_state() == old(self).draw_state(),
    {
        if self.holds(upgrade) {
            return Err(ConfigError::DuplicateUpgrade);
        }
        if weight > u64::MAX - self.total {
            return Err(ConfigError::WeightOverflow);
        }
        let ghost before = self.upgrades@;
        self.upgrades.push((Some(upgrade), weight));
        self.total = self.total + weight;
        proof {
            assert(weights_of(self.upgrades@) =~= weights_of(before).push(weight));
            lemma_sum_push(weights_of(before), weight);
            lemma_sum_ge_elem(weights_of(self.upgrades@), 0);
        }
        let weights = self.weights();
        self.dist = weighted_index(&weights).unwrap();
        Ok(())
    }

    /// Grants the entry at `index`: returns what it holds and, when that is an
    /// upgrade, drops to weight zero every entry it dominates.
    pub fn grant(&mut self, index: usize) -> (r: Option<UpgradeType>)
        requires
            old(self).wf(),
            index < old(self)@.len(),
        ensures
            final(self).wf(),
            final(self)@ == after_draw(old(self)@, index as int),
            r == old(self)@[index as int].0,
            final(self).draw_state() == old(self).draw_state(),
    {
        let picked = self.upgrades[index].0;
        let drawn = match picked {
            None => {
                return None;
            },
            Some(drawn) => drawn,
        };
        let ghost before = self.upgrades@;
        let ghost target = after_draw(before, index as int);
        let mut removed: Vec<(usize, u64)> = Vec::new();
        let mut k: usize = 0;
        while k < self.upgrades.len()
            invariant
                self.upgrades@.len() == before.len(),
                self.draw_state() == old(self).draw_state(),
                k <= before.len(),
                entries_wf(before),
                before[index as int].0 == Some(drawn),
                target == after_draw(before, index as int),
                forall|j: int|
                    0 <= j < before.len() ==> #[trigger] self.upgrades@[j] == if j < k {
                        target[j]
                    } else {
                        before[j]
                    },
                forall|a: int, b: int| 0 <= a < b < removed@.len() ==> removed@[a].0 < removed@[b].0,
                forall|a: int| 0 <= a < removed@.len() ==> removed@[a].0 < k && removed@[a].1 == 0,
                with_changes(weights_of(before), removed@) == weights_of(self.upgrades@),
                self.total == total_weight(self.upgrades@),
                index_weights(self.dist) == weights_of(before),
            decreases before.len() - k,
        {
            let entry = self.upgrades[k];
            if let Some(up) = entry.0 {
                if up.is_lower(drawn) {
                    let ghost prev = self.upgrades@;
                    let ghost prev_removed = removed@;
                    proof {
                        lemma_sum_update(weights_of(prev), k as int, 0);
                        lemma_sum_ge_elem(weights_of(prev), k as int);
                    }
                    self.total = self.total - entry.1;
                    self.upgrades.set(k, (Some(up), 0));
                    removed.push((k, 0));
                    proof {
                        assert(removed@.drop_last() =~= prev_removed);
                        assert(weights_of(self.upgrades@) =~= weights_of(prev).update(k as int, 0));
                    }
                }
            }
            k += 1;
        }
        proof {
            assert(self.upgrades@ =~= target);
            assert(weights_of(self.upgrades@)[0] == NOTHING_WEIGHT);
            lemma_sum_ge_elem(weights_of(self.upgrades@), 0);
        }
        let _ = update_index_weights(&mut self.dist, &removed);
        picked
    }

    /// Draws an entry at random in proportion to the current weights and
    /// grants it (see `grant`). `None` means the no-op entry came up: no
    /// reward this round, and the pool is unchanged. Which entry comes up is
    /// fixed by the entries and the draw state (see `next_index`).
    pub fn get_upgrade(&mut self) -> (r: Option<UpgradeType>)
        requires
            old(self).wf(),
        ensures
            final(self).wf(),
            0 <= next_index(old(self)@, old(self).draw_state()) < old(self)@.len(),
            old(self)@[next_index(old(self)@, old(self).draw_state())].1 > 0,
            r == old(self)@[next_index(old(self)@, old(self).draw_state())].0,
            final(self)@ == after_draw(old(self)@, next_index(old(self)@, old(self).draw_state())),
            final(self).draw_state() == next_state(old(self)@, old(self).draw_state()),
            draw_step(old(self)@, final(self)@, r),
    {
        let index = sample_index(&self.dist, &mut self.rng);
        proof {
            assert(self.upgrades@[index as int].1 == weights_of(self.upgrades@)[index as int]);
        }
        let ghost before = self.upgrades@;
        let r = self.grant(index);
        assert(after_draw(before, index as int) == self.upgrades@);
        r
    }
}

} // verus!
