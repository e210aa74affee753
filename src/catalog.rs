//! The catalog of rewards a run draws from: every category at every tier it
//! is offered at, with weights that fall by a fixed ratio from tier to tier.

use vstd::prelude::*;
use crate::tier::{TIER_COUNT, UpgradeLevel};
use crate::upgrade::{DashSkill, GlideSkill, JumpSkill, StatUpgrade, UpgradeType};

verus! {

/// Weight of a `Mythic` entry. Against the no-op entry's weight of 5 it puts
/// a `Basic` entry at 419,430,400,000,000 no-op weights.
pub const TOP_TIER_WEIGHT: u64 = 1_073_741_824;

/// Each tier is drawn this many times as often as the tier above it.
pub const TIER_WEIGHT_RATIO: u64 = 5;

/// Weight of a `Basic` entry: `TOP_TIER_WEIGHT` times the ratio to the ninth.
pub const BASIC_TIER_WEIGHT: u64 = 2_097_152_000_000_000;

/// Recharge time of a glide, in nanoseconds, at every tier.
pub const GLIDE_COOLDOWN_NS: u64 = 10_000_000_000;

/// How long a glide lasts, in nanoseconds, at every tier.
pub const GLIDE_DURATION_NS: u64 = 2_000_000_000;

/// Recharge time of a dash at rank 0, in nanoseconds; rank `i` takes `(11 - i) / 11` of it.
pub const DASH_COOLDOWN_NS: u64 = 8_000_000_000;

/// Draw weight of the entries of rank `rank` (from 1 to 10).
pub open spec fn tier_weight(rank: nat) -> nat
    decreases 10 - rank,
{
    if rank >= 10 {
        TOP_TIER_WEIGHT as nat
    } else {
        (TIER_WEIGHT_RATIO * tier_weight(rank + 1)) as nat
    }
}

pub open spec fn speed_entry(i: nat) -> UpgradeType {
    UpgradeType::Speed(
        StatUpgrade {
            modifier_tenths: (10 + i) as u32,
            additive: false,
            tier: UpgradeLevel::of_rank(i),
        },
    )
}

pub open spec fn jump_power_entry(i: nat) -> UpgradeType {
    UpgradeType::JumpPower(
        StatUpgrade { modifier_tenths: (5 * i) as u32, additive: true, tier: UpgradeLevel::of_rank(i) },
    )
}

pub open spec fn glide_entry(i: nat) -> UpgradeType {
    UpgradeType::GlideSkill(
        GlideSkill {
            max_uses: (1 + i / 4) as u8,
            cooldown_ns: GLIDE_COOLDOWN_NS,
            tier: UpgradeLevel::of_rank(i),
            max_duration_ns: GLIDE_DURATION_NS,
        },
    )
}

pub open spec fn jump_skill_entry(i: nat) -> UpgradeType {
    UpgradeType::JumpSkill(
        JumpSkill { max_jumps: (1 + i / 3) as u8, tier: UpgradeLevel::of_rank(i), air: true },
    )
}

pub open spec fn dash_entry(i: nat) -> UpgradeType {
    UpgradeType::DashSkill(
        DashSkill {
            max_dash: (1 + i / 4) as u8,
            air: i > 4,
            cooldown_ns: (DASH_COOLDOWN_NS * (TIER_COUNT - i) / (TIER_COUNT as int)) as u64,
            tier: UpgradeLevel::of_rank(i),
        },
    )
}

/// Whether a skill offered every `period` ranks comes at rank `i`: skills are
/// never offered at `Basic`.
pub open spec fn skill_at(i: nat, period: nat) -> bool {
    i != 1 && i % period == 0
}

/// The entries of rank `i`, in catalog order: the two stat boosts, then the
/// skills whose period divides `i`.
pub open spec fn tier_entries(i: nat) -> Seq<UpgradeType> {
    seq![speed_entry(i), jump_power_entry(i)] + (if skill_at(i, (TIER_COUNT / 4) as nat) {
        seq![glide_entry(i)]
    } else {
        Seq::empty()
    }) + (if skill_at(i, (TIER_COUNT / 3) as nat) {
        seq![jump_skill_entry(i)]
    } else {
        Seq::empty()
    }) + (if skill_at(i, 2) {
        seq![dash_entry(i)]
    } else {
        Seq::empty()
    })
}

/// Pairs each upgrade with the weight `w`.
pub open spec fn weighted(s: Seq<UpgradeType>, w: u64) -> Seq<(UpgradeType, u64)> {
    s.map_values(|u: UpgradeType| (u, w))
}

/// The catalog entries of ranks 1 to `n`.
pub open spec fn catalog_upto(n: nat) -> Seq<(UpgradeType, u64)>
    decreases n,
{
    if n == 0 {
        Seq::empty()
    } else {
        catalog_upto((n - 1) as nat) + weighted(tier_entries(n), tier_weight(n) as u64)
    }
}

/// The whole catalog, every tier above `NoTier`.
pub open spec fn catalog() -> Seq<(UpgradeType, u64)> {
    catalog_upto((TIER_COUNT - 1) as nat)
}

/// No two entries share a category and a tier.
pub open spec fn slots_distinct(c: Seq<(UpgradeType, u64)>) -> bool {
    forall|a: int, b: int| 0 <= a < b < c.len() ==> !(#[trigger] c[a].0).same_slot(#[trigger] c[b].0)
}

proof fn lemma_basic_weight()
    ensures
        tier_weight(1) == BASIC_TIER_WEIGHT,
{
    reveal_with_fuel(tier_weight, 11);
}

/// Weights fall from rank to rank.
proof fn lemma_weight_steps(i: nat)
    requires
        1 <= i < 10,
    ensures
        tier_weight(i) == TIER_WEIGHT_RATIO * tier_weight(i + 1),
        tier_weight(i + 1) <= tier_weight(i),
{
}

/// The entries of one rank: all of that tier, of pairwise distinct categories.
proof fn lemma_tier_entries(i: nat)
    requires
        1 <= i < TIER_COUNT,
    ensures
        tier_entries(i).len() <= 5,
        forall|k: int|
            0 <= k < tier_entries(i).len() ==> (#[trigger] tier_entries(i)[k]).spec_tier()
                == UpgradeLevel::of_rank(i),
        forall|a: int, b: int|
            0 <= a < b < tier_entries(i).len() ==> (#[trigger] tier_entries(i)[a]).category()
                != (#[trigger] tier_entries(i)[b]).category(),
{
    let s = tier_entries(i);
    let base = seq![speed_entry(i), jump_power_entry(i)];
    if skill_at(i, 2) && skill_at(i, 3) {
        assert(s =~= seq![speed_entry(i), jump_power_entry(i), glide_entry(i), jump_skill_entry(i), dash_entry(i)]);
    } else if skill_at(i, 2) {
        assert(s =~= seq![speed_entry(i), jump_power_entry(i), glide_entry(i), dash_entry(i)]);
    } else if skill_at(i, 3) {
        assert(s =~= seq![speed_entry(i), jump_power_entry(i), jump_skill_entry(i)]);
    } else {
        assert(s =~= base);
    }
}

/// Ranks 1 to `n` hold at most five entries each, each of weight at most
/// `BASIC_TIER_WEIGHT`, no two in the same slot, and with tiers of rank 1 to `n`.
pub proof fn lemma_catalog_upto(n: nat)
    requires
        n < TIER_COUNT,
    ensures
        catalog_upto(n).len() <= 5 * n,
        slots_distinct(catalog_upto(n)),
        forall|k: int|
            0 <= k < catalog_upto(n).len() ==> 1 <= (#[trigger] catalog_upto(n)[k]).0.spec_tier().rank()
                <= n && catalog_upto(n)[k].1 <= BASIC_TIER_WEIGHT,
    decreases n,
{
    if n > 0 {
        let m = (n - 1) as nat;
        lemma_catalog_upto(m);
        lemma_tier_entries(n);
        UpgradeLevel::lemma_of_rank(n);
        lemma_basic_weight();
        lemma_weight_bounded(n);
        let prev = catalog_upto(m);
        let here = weighted(tier_entries(n), tier_weight(n) as u64);
        let c = catalog_upto(n);
        assert(c == prev + here);
        assert forall|k: int| 0 <= k < c.len() implies 1 <= (#[trigger] c[k]).0.spec_tier().rank()
            <= n && c[k].1 <= BASIC_TIER_WEIGHT by {
            if k >= prev.len() {
                assert(c[k] == here[k - prev.len()]);
                assert(tier_entries(n)[k - prev.len()].spec_tier() == UpgradeLevel::of_rank(n));
            } else {
                assert(c[k] == prev[k]);
            }
        }
        assert forall|a: int, b: int| 0 <= a < b < c.len() implies !(#[trigger] c[a].0).same_slot(
            #[trigger] c[b].0,
        ) by {
            if b < prev.len() {
                assert(c[a] == prev[a] && c[b] == prev[b]);
            } else if a >= prev.len() {
                assert(c[a].0 == tier_entries(n)[a - prev.len()]);
                assert(c[b].0 == tier_entries(n)[b - prev.len()]);
            } else {
                assert(c[a] == prev[a]);
                assert(c[b].0 == tier_entries(n)[b - prev.len()]);
                assert(tier_entries(n)[b - prev.len()].spec_tier() == UpgradeLevel::of_rank(n));
            }
        }
    }
}

/// Weights of ranks 1 to 10 fit below `BASIC_TIER_WEIGHT`.
proof fn lemma_weight_bounded(i: nat)
    requires
        1 <= i < TIER_COUNT,
    ensures
        tier_weight(i) <= BASIC_TIER_WEIGHT,
    decreases i,
{
    lemma_basic_weight();
    if i > 1 {
        lemma_weight_bounded((i - 1) as nat);
        lemma_weight_steps((i - 1) as nat);
    }
}

/// Builds the catalog: for each tier above `NoTier`, a speed and a jump power
/// boost, then glide, extra-jump and dash skills at the tiers their periods
/// select; weights fall by `TIER_WEIGHT_RATIO` from one tier to the next.
pub fn standard_catalog() -> (r: Vec<(UpgradeType, u64)>)
    ensures
        r@ == catalog(),
{
    let mut r: Vec<(UpgradeType, u64)> = Vec::new();
    let mut weight: u64 = BASIC_TIER_WEIGHT;
    proof {
        lemma_basic_weight();
    }
    let mut i: usize = 1;
    while i < TIER_COUNT
        invariant
            1 <= i <= TIER_COUNT,
            r@ == catalog_upto((i - 1) as nat),
            i < TIER_COUNT ==> weight == tier_weight(i as nat),
        decreases TIER_COUNT - i,
    {
        let tier = UpgradeLevel::from_index(i).unwrap();
        let ghost start = r@;
        let ghost n = i as nat;
        r.push(
            (
                UpgradeType::Speed(
                    StatUpgrade { modifier_tenths: 10 + i as u32, additive: false, tier },
                ),
                weight,
            ),
        );
        r.push(
            (
                UpgradeType::JumpPower(
                    StatUpgrade { modifier_tenths: 5 * i as u32, additive: true, tier },
                ),
                weight,
            ),
        );
        if i != 1 {
            if i % (TIER_COUNT / 4) == 0 {
                r.push(
                    (
                        UpgradeType::GlideSkill(
                            GlideSkill {
                                max_uses: 1 + (i / 4) as u8,
                                cooldown_ns: GLIDE_COOLDOWN_NS,
                                tier,
                                max_duration_ns: GLIDE_DURATION_NS,
                            },
                        ),
                        weight,
                    ),
                );
            }
            if i % (TIER_COUNT / 3) == 0 {
                r.push(
                    (
                        UpgradeType::JumpSkill(
                            JumpSkill { max_jumps: 1 + (i / 3) as u8, tier, air: true },
                        ),
                        weight,
                    ),
                );
            }
            if i % 2 == 0 {
                let ranks_left: u64 = (TIER_COUNT - i) as u64;
                assert(ranks_left <= 10);
                r.push(
                    (
                        UpgradeType::DashSkill(
                            DashSkill {
                                max_dash: 1 + (i / 4) as u8,
                                air: i > 4,
                                cooldown_ns: DASH_COOLDOWN_NS * ranks_left / TIER_COUNT as u64,
                                tier,
                            },
                        ),
                        weight,
                    ),
                );
            }
        }
        proof {
            assert(r@ =~= start + weighted(tier_entries(n), tier_weight(n) as u64));
            if i + 1 < TIER_COUNT {
                lemma_weight_steps(n);
            }
        }
        weight = weight / TIER_WEIGHT_RATIO;
        i += 1;
    }
    r
}

} // verus!
