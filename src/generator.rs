//! Everything one run generates from its seed: the parameters of the height
//! and hole fields with their streams, and the upgrade pool.

use vstd::prelude::*;
use rand_chacha::ChaCha20Rng;
use crate::catalog::{BASIC_TIER_WEIGHT, catalog, lemma_catalog_upto, standard_catalog};
use crate::pool::{
    DrawState, NOTHING_WEIGHT, WeightedUpgrades, after_draw, draw_step, next_index, next_state, holds_slot, lemma_total_push, occupies,
    total_weight,
};
use crate::stream::{
    HEIGHT_STREAM, HOLE_STREAM, UPGRADE_STREAM, chacha_from_u64, chacha_seed, derive_stream,
    expanded_seed, stream_key, stream_number, stream_position,
};
use crate::terrain::NoiseSettings;
use crate::tier::TIER_COUNT;
use crate::upgrade::UpgradeType;

verus! {

/// The pool entries for the first `k` catalog entries: the no-op entry, then
/// each upgrade with its catalog weight.
pub open spec fn pool_entries(c: Seq<(UpgradeType, u64)>) -> Seq<(Option<UpgradeType>, u64)> {
    seq![(Option::<UpgradeType>::None, NOTHING_WEIGHT)] + c.map_values(
        |e: (UpgradeType, u64)| (Some(e.0), e.1),
    )
}

/// The pool a run starts with: the whole catalog behind the no-op entry.
pub open spec fn initial_pool() -> Seq<(Option<UpgradeType>, u64)> {
    pool_entries(catalog())
}

/// One run's generation context.
pub struct Generator {
    seed: [u8; 32],
    height_noise: NoiseSettings,
    hole_noise: NoiseSettings,
    upgrades: WeightedUpgrades,
}

impl Generator {
    pub closed spec fn wf(&self) -> bool {
        self.upgrades.wf()
    }

    /// The seed of the run.
    pub closed spec fn spec_seed(&self) -> Seq<u8> {
        self.seed@
    }

    /// The current entries of the upgrade pool.
    pub closed spec fn pool(&self) -> Seq<(Option<UpgradeType>, u64)> {
        self.upgrades@
    }

    /// Key, stream and word position the upgrade draws are read from.
    pub closed spec fn upgrade_state(&self) -> DrawState {
        self.upgrades.draw_state()
    }

    /// Parameters of the height field.
    pub closed spec fn height_params(&self) -> (usize, u32, usize) {
        self.height_noise@
    }

    /// Parameters of the hole field.
    pub closed spec fn hole_params(&self) -> (usize, u32, usize) {
        self.hole_noise@
    }

    /// Fills a fresh pool, drawing on the upgrade stream of `seed` from its
    /// first word, with the whole catalog.
    fn assemble(seed: [u8; 32], height_noise: NoiseSettings, hole_noise: NoiseSettings) -> (r:
        Self)
        ensures
            r.wf(),
            r.spec_seed() == seed@,
            r.upgrade_state() == (seed@, UPGRADE_STREAM, 0u128),
            r.pool() == initial_pool(),
            r.height_params() == height_noise@,
            r.hole_params() == hole_noise@,
    {
        let mut upgrades = WeightedUpgrades::new(derive_stream(seed, UPGRADE_STREAM));
        let entries = standard_catalog();
        proof {
            lemma_catalog_upto((TIER_COUNT - 1) as nat);
            assert(upgrades@ =~= pool_entries(catalog().take(0)));
            let noop = (Option::<UpgradeType>::None, NOTHING_WEIGHT);
            lemma_total_push(Seq::empty(), noop);
            assert(upgrades@ =~= Seq::empty().push(noop));
        }
        let mut k: usize = 0;
        while k < entries.len()
            invariant
                upgrades.wf(),
                upgrades.draw_state() == (seed@, UPGRADE_STREAM, 0u128),
                entries@ == catalog(),
                entries@.len() <= 50,
                crate::catalog::slots_distinct(entries@),
                forall|j: int|
                    0 <= j < entries@.len() ==> (#[trigger] entries@[j]).1 <= BASIC_TIER_WEIGHT,
                k <= entries@.len(),
                upgrades@ == pool_entries(entries@.take(k as int)),
                total_weight(upgrades@) <= NOTHING_WEIGHT + k * BASIC_TIER_WEIGHT,
            decreases entries@.len() - k,
        {
            let (u, w) = entries[k];
            let ghost before = upgrades@;
            proof {
                assert(!holds_slot(before, u)) by {
                    assert forall|j: int| 0 <= j < before.len() implies !occupies(
                        #[trigger] before[j].0,
                        u,
                    ) by {
                        if j > 0 {
                            assert(before[j].0 == Some(entries@[j - 1].0));
                            assert(!entries@[j - 1].0.same_slot(entries@[k as int].0));
                        }
                    }
                }
                assert(k * BASIC_TIER_WEIGHT <= 50 * BASIC_TIER_WEIGHT) by (nonlinear_arith)
                    requires
                        k <= 50,
                ;
            }
            let _ = upgrades.add_upgrade(u, w);
            proof {
                lemma_total_push(before, (Some(u), w));
                assert((k + 1) * BASIC_TIER_WEIGHT == k * BASIC_TIER_WEIGHT + BASIC_TIER_WEIGHT)
                    by (nonlinear_arith);
                assert(upgrades@ =~= pool_entries(entries@.take(k + 1)));
            }
            k += 1;
        }
        assert(entries@.take(k as int) =~= entries@);
        Generator { seed, height_noise, hole_noise, upgrades }
    }

    /// The context of a run keyed by `seed`.
    pub fn from_seed(seed: [u8; 32], height_noise: NoiseSettings, hole_noise: NoiseSettings) -> (r:
        Self)
        ensures
            r.wf(),
            r.spec_seed() == seed@,
            r.upgrade_state() == (seed@, UPGRADE_STREAM, 0u128),
            r.pool() == initial_pool(),
            r.height_params() == height_noise@,
            r.hole_params() == hole_noise@,
    {
        Self::assemble(seed, height_noise, hole_noise)
    }

    /// The context of a run keyed by a generator made from a 64-bit seed.
    pub fn from_u64_seed(seed: u64, height_noise: NoiseSettings, hole_noise: NoiseSettings) -> (r:
        Self)
        ensures
            r.wf(),
            r.spec_seed() == expanded_seed(seed),
            r.upgrade_state() == (expanded_seed(seed), UPGRADE_STREAM, 0u128),
            r.pool() == initial_pool(),
            r.height_params() == height_noise@,
            r.hole_params() == hole_noise@,
    {
        Self::new(chacha_from_u64(seed), height_noise, hole_noise)
    }

    /// The context of a run keyed by `rng`'s seed; its streams, the upgrade
    /// stream included, are derived from that seed.
    pub fn new(rng: ChaCha20Rng, height_noise: NoiseSettings, hole_noise: NoiseSettings) -> (r: Self)
        ensures
            r.wf(),
            r.spec_seed() == stream_key(rng),
            r.upgrade_state() == (stream_key(rng), UPGRADE_STREAM, 0u128),
            r.pool() == initial_pool(),
            r.height_params() == height_noise@,
            r.hole_params() == hole_noise@,
    {
        let seed = chacha_seed(&rng);
        Self::assemble(seed, height_noise, hole_noise)
    }

    /// The seed of the run, for display.
    pub fn get_seed(&self) -> (r: [u8; 32])
        ensures
            r@ == self.spec_seed(),
    {
        self.seed
    }

    /// Parameters of the height field.
    pub fn height_noise(&self) -> (r: &NoiseSettings)
        ensures
            r@ == self.height_params(),
    {
        &self.height_noise
    }

    /// Parameters of the hole field.
    pub fn hole_noise(&self) -> (r: &NoiseSettings)
        ensures
            r@ == self.hole_params(),
    {
        &self.hole_noise
    }

    /// The upgrade pool, for inspection.
    pub fn upgrades(&self) -> (r: &WeightedUpgrades)
        requires
            self.wf(),
        ensures
            r.wf(),
            r@ == self.pool(),
    {
        &self.upgrades
    }

    /// The stream that feeds the height field.
    pub fn height_stream(&self) -> (r: ChaCha20Rng)
        ensures
            stream_key(r) == self.spec_seed(),
            stream_number(r) == HEIGHT_STREAM,
    {
        derive_stream(self.seed, HEIGHT_STREAM)
    }

    /// The stream that feeds the hole field.
    pub fn hole_stream(&self) -> (r: ChaCha20Rng)
        ensures
            stream_key(r) == self.spec_seed(),
            stream_number(r) == HOLE_STREAM,
    {
        derive_stream(self.seed, HOLE_STREAM)
    }

    /// Draws this round's reward from the pool (see `WeightedUpgrades::get_upgrade`).
    pub fn get_upgrade(&mut self) -> (r: Option<UpgradeType>)
        requires
            old(self).wf(),
        ensures
            final(self).wf(),
            0 <= next_index(old(self).pool(), old(self).upgrade_state()) < old(self).pool().len(),
            r == old(self).pool()[next_index(old(self).pool(), old(self).upgrade_state())].0,
            final(self).pool() == after_draw(
                old(self).pool(),
                next_index(old(self).pool(), old(self).upgrade_state()),
            ),
            final(self).upgrade_state() == next_state(old(self).pool(), old(self).upgrade_state()),
            draw_step(old(self).pool(), final(self).pool(), r),
            final(self).spec_seed() == old(self).spec_seed(),
            final(self).height_params() == old(self).height_params(),
            final(self).hole_params() == old(self).hole_params(),
    {
        self.upgrades.get_upgrade()
    }
}

} // verus!
