//! Upgrades: a category, a tier and the data the player gains.

use vstd::prelude::*;
use crate::tier::UpgradeLevel;

verus! {

/// A change to a movement stat, in tenths.
#[derive(Clone, Copy, Debug, PartialEq, Eq, Structural)]
pub struct StatUpgrade {
    /// Ten times the modifier: a factor when `additive` is false, else an amount added.
    pub modifier_tenths: u32,
    pub additive: bool,
    pub tier: UpgradeLevel,
}

/// Extra jumps.
#[derive(Clone, Copy, Debug, PartialEq, Eq, Structural, Default)]
pub struct JumpSkill {
    pub max_jumps: u8,
    pub tier: UpgradeLevel,
    pub air: bool,
}

/// Dashes, with the time in nanoseconds one charge takes to come back.
#[derive(Clone, Copy, Debug, PartialEq, Eq, Structural, Default)]
pub struct DashSkill {
    pub max_dash: u8,
    pub air: bool,
    pub cooldown_ns: u64,
    pub tier: UpgradeLevel,
}

/// Glides, with their recharge time and how long one lasts, in nanoseconds.
#[derive(Clone, Copy, Debug, PartialEq, Eq, Structural, Default)]
pub struct GlideSkill {
    pub max_uses: u8,
    pub cooldown_ns: u64,
    pub tier: UpgradeLevel,
    pub max_duration_ns: u64,
}

/// One reward of the pool; the variant is its category.
#[derive(Clone, Copy, Debug, PartialEq, Eq, Structural)]
pub enum UpgradeType {
    Speed(StatUpgrade),
    JumpPower(StatUpgrade),
    JumpSkill(JumpSkill),
    DashSkill(DashSkill),
    GlideSkill(GlideSkill),
}

impl UpgradeType {
    /// The category, as the position of the variant.
    pub open spec fn category(self) -> nat {
        match self {
            UpgradeType::Speed(_) => 0,
            UpgradeType::JumpPower(_) => 1,
            UpgradeType::JumpSkill(_) => 2,
            UpgradeType::DashSkill(_) => 3,
            UpgradeType::GlideSkill(_) => 4,
        }
    }

    pub open spec fn spec_tier(self) -> UpgradeLevel {
        match self {
            UpgradeType::Speed(s) => s.tier,
            UpgradeType::JumpPower(s) => s.tier,
            UpgradeType::JumpSkill(s) => s.tier,
            UpgradeType::DashSkill(s) => s.tier,
            UpgradeType::GlideSkill(s) => s.tier,
        }
    }

    /// `self` is made redundant by `other`: same category, tier at most `other`'s.
    pub open spec fn spec_is_lower(self, other: UpgradeType) -> bool {
        self.category() == other.category() && self.spec_tier().rank() <= other.spec_tier().rank()
    }

    /// `self` and `other` take the same place in a catalog: same category and tier.
    pub open spec fn same_slot(self, other: UpgradeType) -> bool {
        self.category() == other.category() && self.spec_tier() == other.spec_tier()
    }

    /// The tier of the upgrade.
    pub fn tier(&self) -> (r: UpgradeLevel)
        ensures
            r == self.spec_tier(),
    {
        match self {
            UpgradeType::Speed(s) => s.tier,
            UpgradeType::JumpPower(s) => s.tier,
            UpgradeType::JumpSkill(s) => s.tier,
            UpgradeType::DashSkill(s) => s.tier,
            UpgradeType::GlideSkill(s) => s.tier,
        }
    }

    /// Whether `self` is dominated by `other`; upgrades of two categories never are.
    pub fn is_lower(&self, other: UpgradeType) -> (r: bool)
        ensures
            r == self.spec_is_lower(other),
    {
        let same_category = match (self, other) {
            (UpgradeType::Speed(_), UpgradeType::Speed(_)) => true,
            (UpgradeType::JumpPower(_), UpgradeType::JumpPower(_)) => true,
            (UpgradeType::JumpSkill(_), UpgradeType::JumpSkill(_)) => true,
            (UpgradeType::DashSkill(_), UpgradeType::DashSkill(_)) => true,
            (UpgradeType::GlideSkill(_), UpgradeType::GlideSkill(_)) => true,
            _ => false,
        };
        same_category && self.tier().is_at_most(&other.tier())
    }

    /// Headline shown when the upgrade is granted.
    pub fn headline(&self) -> (r: &'static str)
        ensures
            r@ == self.spec_headline(),
    {
        match self {
            UpgradeType::Speed(_) => "Speed Upgrade",
            UpgradeType::JumpPower(_) => "Jump Power Upgrade",
            UpgradeType::JumpSkill(_) => "Extra Jump Upgrade",
            UpgradeType::DashSkill(_) => "Dash Upgrade",
            UpgradeType::GlideSkill(_) => "Glide Upgrade",
        }
    }

    pub open spec fn spec_headline(self) -> Seq<char> {
        match self {
            UpgradeType::Speed(_) => "Speed Upgrade"@,
            UpgradeType::JumpPower(_) => "Jump Power Upgrade"@,
            UpgradeType::JumpSkill(_) => "Extra Jump Upgrade"@,
            UpgradeType::DashSkill(_) => "Dash Upgrade"@,
            UpgradeType::GlideSkill(_) => "Glide Upgrade"@,
        }
    }
}

} // verus!
