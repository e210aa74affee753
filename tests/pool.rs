use platformer_core::error::ConfigError;
use platformer_core::pool::WeightedUpgrades;
use platformer_core::tier::UpgradeLevel;
use platformer_core::upgrade::{DashSkill, GlideSkill, JumpSkill, StatUpgrade, UpgradeType};
use rand::SeedableRng;
use rand_chacha::ChaCha20Rng;

/// Integer weights are the float weights times this, so that their ratios are kept.
const SCALE: f64 = 1_953_125.0;

fn stat(tier: UpgradeLevel) -> StatUpgrade {
    StatUpgrade { modifier_tenths: 0, additive: false, tier }
}

fn speed(tier: UpgradeLevel) -> UpgradeType {
    UpgradeType::Speed(stat(tier))
}

fn jump(tier: UpgradeLevel) -> UpgradeType {
    UpgradeType::JumpPower(stat(tier))
}

fn double(tier: UpgradeLevel) -> UpgradeType {
    UpgradeType::JumpSkill(JumpSkill { max_jumps: 0, tier, air: false })
}

fn category(u: &UpgradeType) -> usize {
    match u {
        UpgradeType::Speed(_) => 0,
        UpgradeType::JumpPower(_) => 1,
        UpgradeType::JumpSkill(_) => 2,
        UpgradeType::DashSkill(_) => 3,
        UpgradeType::GlideSkill(_) => 4,
    }
}

fn levels() -> Vec<UpgradeLevel> {
    (1..11).map(|i| UpgradeLevel::from_index(i).unwrap()).collect()
}

fn setup(seed: u64, weight_offset: f64) -> WeightedUpgrades {
    let mut weighted_upgrades = WeightedUpgrades::new(ChaCha20Rng::seed_from_u64(seed));
    let base_weight = 100.;
    let makers: [fn(UpgradeLevel) -> UpgradeType; 3] = [speed, jump, double];
    for make in makers {
        let mut weight: f64 = base_weight;
        for upgrade_level in levels() {
            let scaled = (weight * SCALE).round() as u64;
            assert_eq!(weighted_upgrades.add_upgrade(make(upgrade_level), scaled), Ok(()));
            weight *= weight_offset;
        }
    }
    weighted_upgrades
}

#[test]
fn it_works() {
    let mut weighted_upgrades = setup(0, 0.2);
    let result = weighted_upgrades.get_upgrade();
    assert_eq!(result, Some(speed(UpgradeLevel::Basic)))
}

#[test]
fn other_test() {
    let mut weighted_upgrades = setup(0, 5.0);
    let result = weighted_upgrades.get_upgrade();
    assert_eq!(result, Some(speed(UpgradeLevel::Legendary)))
}

#[test]
fn different_seed() {
    let mut weighted_upgrades = setup(1, 0.2);
    let result = weighted_upgrades.get_upgrade();
    assert_ne!(result, Some(speed(UpgradeLevel::Basic)))
}

#[test]
fn new_pool_holds_only_the_no_op_entry() {
    let pool = WeightedUpgrades::new(ChaCha20Rng::seed_from_u64(3));
    assert_eq!(pool.len(), 1);
    assert_eq!(pool.entry(0), Some((None, 5)));
    assert_eq!(pool.entry(1), None);
    assert_eq!(pool.total(), 5);
}

#[test]
fn empty_pool_always_gives_nothing() {
    let mut pool = WeightedUpgrades::new(ChaCha20Rng::seed_from_u64(3));
    for _ in 0..100 {
        assert_eq!(pool.get_upgrade(), None);
    }
    assert_eq!(pool.entry(0), Some((None, 5)));
}

#[test]
fn add_upgrade_appends_and_sums() {
    let mut pool = WeightedUpgrades::new(ChaCha20Rng::seed_from_u64(3));
    assert_eq!(pool.add_upgrade(speed(UpgradeLevel::Basic), 40), Ok(()));
    assert_eq!(pool.add_upgrade(speed(UpgradeLevel::Improved), 2), Ok(()));
    assert_eq!(pool.len(), 3);
    assert_eq!(pool.entry(1), Some((Some(speed(UpgradeLevel::Basic)), 40)));
    assert_eq!(pool.entry(2), Some((Some(speed(UpgradeLevel::Improved)), 2)));
    assert_eq!(pool.total(), 47);
}

#[test]
fn duplicate_registration_is_refused() {
    let mut pool = WeightedUpgrades::new(ChaCha20Rng::seed_from_u64(3));
    assert_eq!(pool.add_upgrade(speed(UpgradeLevel::Epic), 5), Ok(()));
    let other_payload = UpgradeType::Speed(StatUpgrade { modifier_tenths: 7, additive: true, tier: UpgradeLevel::Epic });
    assert_eq!(pool.add_upgrade(other_payload, 9), Err(ConfigError::DuplicateUpgrade));
    assert_eq!(pool.len(), 2);
    assert_eq!(pool.add_upgrade(jump(UpgradeLevel::Epic), 5), Ok(()));
}

#[test]
fn overflowing_weight_is_refused() {
    let mut pool = WeightedUpgrades::new(ChaCha20Rng::seed_from_u64(3));
    assert_eq!(pool.add_upgrade(speed(UpgradeLevel::Basic), u64::MAX - 5), Ok(()));
    assert_eq!(pool.total(), u64::MAX);
    assert_eq!(pool.add_upgrade(jump(UpgradeLevel::Basic), 1), Err(ConfigError::WeightOverflow));
    assert_eq!(pool.len(), 2);
}

#[test]
fn grant_zeroes_dominated_entries_of_the_same_category() {
    let mut pool = WeightedUpgrades::new(ChaCha20Rng::seed_from_u64(3));
    for level in levels() {
        pool.add_upgrade(speed(level), 10).unwrap();
        pool.add_upgrade(jump(level), 10).unwrap();
    }
    // Entry 7 is the speed upgrade of rank 4 (Advanced).
    assert_eq!(pool.grant(7), Some(speed(UpgradeLevel::Advanced)));
    for i in 1..pool.len() {
        let (u, w) = pool.entry(i).unwrap();
        let u = u.unwrap();
        let expected = if category(&u) == 0 && u.tier().index() <= 4 { 0 } else { 10 };
        assert_eq!(w, expected, "entry {}", i);
    }
    assert_eq!(pool.total(), 5 + 16 * 10);
}

#[test]
fn granting_the_no_op_entry_changes_nothing() {
    let mut pool = WeightedUpgrades::new(ChaCha20Rng::seed_from_u64(3));
    pool.add_upgrade(speed(UpgradeLevel::Basic), 10).unwrap();
    assert_eq!(pool.grant(0), None);
    assert_eq!(pool.entry(1), Some((Some(speed(UpgradeLevel::Basic)), 10)));
    assert_eq!(pool.total(), 15);
}

#[test]
fn zero_weight_entries_are_never_drawn() {
    let mut pool = WeightedUpgrades::new(ChaCha20Rng::seed_from_u64(11));
    pool.add_upgrade(speed(UpgradeLevel::Basic), 0).unwrap();
    pool.add_upgrade(jump(UpgradeLevel::Basic), 1_000_000).unwrap();
    pool.add_upgrade(double(UpgradeLevel::Basic), 0).unwrap();
    let first = pool.get_upgrade();
    assert_eq!(first, Some(jump(UpgradeLevel::Basic)));
    for _ in 0..200 {
        assert_eq!(pool.get_upgrade(), None);
    }
}

#[test]
fn draws_follow_the_weights() {
    let mut heavy = 0;
    let mut light = 0;
    let rounds = 10_000;
    for seed in 0..rounds {
        let mut pool = WeightedUpgrades::new(ChaCha20Rng::seed_from_u64(seed));
        pool.add_upgrade(speed(UpgradeLevel::Basic), 99_000_000).unwrap();
        pool.add_upgrade(jump(UpgradeLevel::Basic), 1_000_000).unwrap();
        match pool.get_upgrade() {
            Some(u) if category(&u) == 0 => heavy += 1,
            Some(_) => light += 1,
            None => {}
        }
    }
    assert_eq!(heavy + light, rounds);
    assert!(light >= 60 && light <= 140, "light entry drawn {} times", light);
}

#[test]
fn one_tier_per_category_runs_out() {
    let mut pool = WeightedUpgrades::new(ChaCha20Rng::seed_from_u64(5));
    let basic = UpgradeLevel::Basic;
    pool.add_upgrade(speed(basic), 1000).unwrap();
    pool.add_upgrade(jump(basic), 1000).unwrap();
    pool.add_upgrade(double(basic), 1000).unwrap();
    pool.add_upgrade(UpgradeType::DashSkill(DashSkill { max_dash: 1, air: false, cooldown_ns: 0, tier: basic }), 1000).unwrap();
    pool.add_upgrade(UpgradeType::GlideSkill(GlideSkill { max_uses: 1, cooldown_ns: 0, tier: basic, max_duration_ns: 0 }), 1000).unwrap();
    let mut seen = [false; 5];
    let mut draws = 0;
    while seen.iter().any(|s| !s) {
        draws += 1;
        assert!(draws < 10_000);
        if let Some(u) = pool.get_upgrade() {
            let c = category(&u);
            assert!(!seen[c], "category {} drawn twice", c);
            seen[c] = true;
        }
    }
    for _ in 0..500 {
        assert_eq!(pool.get_upgrade(), None);
    }
}
