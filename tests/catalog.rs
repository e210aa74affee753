use platformer_core::catalog::{standard_catalog, BASIC_TIER_WEIGHT, TOP_TIER_WEIGHT};
use platformer_core::generator::Generator;
use platformer_core::terrain::NoiseSettings;
use platformer_core::tier::UpgradeLevel;
use rand::{RngCore, SeedableRng};
use rand_chacha::ChaCha20Rng;
use platformer_core::upgrade::{DashSkill, GlideSkill, JumpSkill, StatUpgrade, UpgradeType};

fn settings() -> (NoiseSettings, NoiseSettings) {
    (NoiseSettings::new(256, 64, 5).unwrap(), NoiseSettings::new(9, 64, 3).unwrap())
}

fn category(u: &UpgradeType) -> usize {
    match u {
        UpgradeType::Speed(_) => 0,
        UpgradeType::JumpPower(_) => 1,
        UpgradeType::JumpSkill(_) => 2,
        UpgradeType::DashSkill(_) => 3,
        UpgradeType::GlideSkill(_) => 4,
    }
}

#[test]
fn catalog_has_every_stat_tier_and_sparse_skills() {
    let c = standard_catalog();
    assert_eq!(c.len(), 33);
    let count = |k: usize| c.iter().filter(|(u, _)| category(u) == k).count();
    assert_eq!(count(0), 10);
    assert_eq!(count(1), 10);
    assert_eq!(count(2), 3);
    assert_eq!(count(3), 5);
    assert_eq!(count(4), 5);
    let skill_ranks = |k: usize| -> Vec<usize> {
        c.iter().filter(|(u, _)| category(u) == k).map(|(u, _)| u.tier().index()).collect()
    };
    assert_eq!(skill_ranks(2), vec![3, 6, 9]);
    assert_eq!(skill_ranks(3), vec![2, 4, 6, 8, 10]);
    assert_eq!(skill_ranks(4), vec![2, 4, 6, 8, 10]);
}

#[test]
fn catalog_opens_with_basic_boosts() {
    let c = standard_catalog();
    let basic = UpgradeLevel::Basic;
    assert_eq!(c[0], (UpgradeType::Speed(StatUpgrade { modifier_tenths: 11, additive: false, tier: basic }), BASIC_TIER_WEIGHT));
    assert_eq!(c[1], (UpgradeType::JumpPower(StatUpgrade { modifier_tenths: 5, additive: true, tier: basic }), BASIC_TIER_WEIGHT));
    let improved = UpgradeLevel::Improved;
    let w = BASIC_TIER_WEIGHT / 5;
    assert_eq!(c[2].1, w);
    assert_eq!(c[4], (UpgradeType::GlideSkill(GlideSkill { max_uses: 1, cooldown_ns: 10_000_000_000, tier: improved, max_duration_ns: 2_000_000_000 }), w));
    assert_eq!(c[5], (UpgradeType::DashSkill(DashSkill { max_dash: 1, air: false, cooldown_ns: 6_545_454_545, tier: improved }), w));
}

#[test]
fn catalog_top_tier_entries() {
    let c = standard_catalog();
    let mythic = UpgradeLevel::Mythic;
    let top: Vec<_> = c.iter().filter(|(u, _)| u.tier() == mythic).cloned().collect();
    assert_eq!(top.len(), 4);
    assert!(top.iter().all(|(_, w)| *w == TOP_TIER_WEIGHT));
    assert_eq!(top[0].0, UpgradeType::Speed(StatUpgrade { modifier_tenths: 20, additive: false, tier: mythic }));
    assert_eq!(top[1].0, UpgradeType::JumpPower(StatUpgrade { modifier_tenths: 50, additive: true, tier: mythic }));
    assert_eq!(top[2].0, UpgradeType::GlideSkill(GlideSkill { max_uses: 3, cooldown_ns: 10_000_000_000, tier: mythic, max_duration_ns: 2_000_000_000 }));
    assert_eq!(top[3].0, UpgradeType::DashSkill(DashSkill { max_dash: 3, air: true, cooldown_ns: 727_272_727, tier: mythic }));
    let legendary: Vec<_> = c.iter().filter(|(u, _)| u.tier() == UpgradeLevel::Legendary).cloned().collect();
    assert_eq!(legendary[2].0, UpgradeType::JumpSkill(JumpSkill { max_jumps: 4, tier: UpgradeLevel::Legendary, air: true }));
}

#[test]
fn catalog_weights_fall_by_a_fifth_per_tier() {
    let c = standard_catalog();
    assert_eq!(BASIC_TIER_WEIGHT, TOP_TIER_WEIGHT * 5u64.pow(9));
    for (u, w) in c.iter() {
        let rank = u.tier().index() as u32;
        assert_eq!(*w, TOP_TIER_WEIGHT * 5u64.pow(10 - rank));
    }
}

#[test]
fn catalog_slots_are_unique() {
    let c = standard_catalog();
    for a in 0..c.len() {
        for b in (a + 1)..c.len() {
            let same = category(&c[a].0) == category(&c[b].0) && c[a].0.tier() == c[b].0.tier();
            assert!(!same, "entries {} and {}", a, b);
        }
    }
}

#[test]
fn generator_pool_is_the_catalog() {
    let (h, hole) = settings();
    let g = Generator::from_seed([0u8; 32], h, hole);
    let pool = g.upgrades();
    let c = standard_catalog();
    assert_eq!(pool.len(), c.len() + 1);
    assert_eq!(pool.entry(0), Some((None, 5)));
    for (i, (u, w)) in c.iter().enumerate() {
        assert_eq!(pool.entry(i + 1), Some((Some(*u), *w)));
    }
}

#[test]
fn generator_keeps_its_seed_and_settings() {
    let (h, hole) = settings();
    let mut seed = [0u8; 32];
    seed[0] = 7;
    seed[31] = 9;
    let g = Generator::from_seed(seed, h, hole);
    assert_eq!(g.get_seed(), seed);
    assert_eq!(g.height_noise().wave_length(), 256);
    assert_eq!(g.hole_noise().wave_length(), 9);
    assert_eq!(g.hole_noise().octaves(), 3);
}

#[test]
fn progression_is_monotonic_until_exhausted() {
    let (h, hole) = settings();
    let mut g = Generator::from_seed(*b"monotonic progression test seed!", h, hole);
    let mut best: [Option<usize>; 5] = [None; 5];
    let mut granted = 0;
    let mut quiet_streak = 0;
    let mut draws = 0;
    while quiet_streak < 200 {
        draws += 1;
        assert!(draws < 100_000);
        match g.get_upgrade() {
            Some(u) => {
                quiet_streak = 0;
                granted += 1;
                let c = category(&u);
                let rank = u.tier().index();
                if let Some(prev) = best[c] {
                    assert!(rank > prev, "category {} went from rank {} to {}", c, prev, rank);
                }
                best[c] = Some(rank);
            }
            None => quiet_streak += 1,
        }
    }
    assert!(granted >= 5 && granted <= 33);
    assert_eq!(best[0], Some(10));
    assert_eq!(best[1], Some(10));
    let pool = g.upgrades();
    for i in 1..pool.len() {
        assert_eq!(pool.entry(i).unwrap().1, 0);
    }
}

#[test]
fn same_seed_same_upgrades() {
    let run = |seed: [u8; 32]| -> Vec<Option<UpgradeType>> {
        let (h, hole) = settings();
        let mut g = Generator::from_seed(seed, h, hole);
        (0..40).map(|_| g.get_upgrade()).collect()
    };
    assert_eq!(run([3u8; 32]), run([3u8; 32]));
}

#[test]
fn draws_do_not_depend_on_terrain_settings() {
    let seed = [8u8; 32];
    let mut a = Generator::from_seed(seed, NoiseSettings::new(256, 64, 5).unwrap(), NoiseSettings::new(9, 64, 3).unwrap());
    let mut b = Generator::from_seed(seed, NoiseSettings::new(3, 1, 1).unwrap(), NoiseSettings::new(70, 2, 9).unwrap());
    for _ in 0..60 {
        assert_eq!(a.get_upgrade(), b.get_upgrade());
    }
}

#[test]
fn generator_from_rng_draws_from_its_seed() {
    let mut rng = ChaCha20Rng::seed_from_u64(77);
    let seed = rng.get_seed();
    rng.next_u64();
    let (h, hole) = settings();
    let mut a = Generator::new(rng, h, hole);
    let (h, hole) = settings();
    let mut b = Generator::from_seed(seed, h, hole);
    assert_eq!(a.get_seed(), seed);
    for _ in 0..60 {
        assert_eq!(a.get_upgrade(), b.get_upgrade());
    }
}

#[test]
fn u64_seeded_generator_matches_its_seed_bytes() {
    let (h, hole) = settings();
    let a = Generator::from_u64_seed(42, h, hole);
    let (h, hole) = settings();
    let b = Generator::from_seed(a.get_seed(), h, hole);
    assert_eq!(a.get_seed(), b.get_seed());
    assert_eq!(a.get_seed(), ChaCha20Rng::seed_from_u64(42).get_seed());
    assert_ne!(a.get_seed(), [0u8; 32]);
    let (mut a, mut b) = (a, b);
    for _ in 0..60 {
        assert_eq!(a.get_upgrade(), b.get_upgrade());
    }
}
