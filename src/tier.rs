//! Upgrade tiers, ordered from `NoTier` up to `Mythic`.

use vstd::prelude::*;

verus! {

/// Number of tiers, `NoTier` included.
pub const TIER_COUNT: usize = 11;

/// How strong an upgrade is within its category.
#[derive(Clone, Copy, Debug, PartialEq, Eq, Structural, Default)]
pub enum UpgradeLevel {
    #[default]
    NoTier,
    Basic,
    Improved,
    Enhanced,
    Advanced,
    Superior,
    Elite,
    Master,
    Epic,
    Legendary,
    Mythic,
}

impl UpgradeLevel {
    /// Position of the tier in the order `NoTier < Basic < ... < Mythic`.
    pub open spec fn rank(self) -> nat {
        match self {
            UpgradeLevel::NoTier => 0,
            UpgradeLevel::Basic => 1,
            UpgradeLevel::Improved => 2,
            UpgradeLevel::Enhanced => 3,
            UpgradeLevel::Advanced => 4,
            UpgradeLevel::Superior => 5,
            UpgradeLevel::Elite => 6,
            UpgradeLevel::Master => 7,
            UpgradeLevel::Epic => 8,
            UpgradeLevel::Legendary => 9,
            UpgradeLevel::Mythic => 10,
        }
    }

    /// The tier of the given rank.
    pub open spec fn of_rank(r: nat) -> UpgradeLevel {
        if r == 0 {
            UpgradeLevel::NoTier
        } else if r == 1 {
            UpgradeLevel::Basic
        } else if r == 2 {
            UpgradeLevel::Improved
        } else if r == 3 {
            UpgradeLevel::Enhanced
        } else if r == 4 {
            UpgradeLevel::Advanced
        } else if r == 5 {
            UpgradeLevel::Superior
        } else if r == 6 {
            UpgradeLevel::Elite
        } else if r == 7 {
            UpgradeLevel::Master
        } else if r == 8 {
            UpgradeLevel::Epic
        } else if r == 9 {
            UpgradeLevel::Legendary
        } else {
            UpgradeLevel::Mythic
        }
    }

    /// Display name of the tier.
    pub open spec fn spec_name(self) -> Seq<char> {
        match self {
            UpgradeLevel::NoTier => "None"@,
            UpgradeLevel::Basic => "Basic"@,
            UpgradeLevel::Improved => "Improved"@,
            UpgradeLevel::Enhanced => "Enhanced"@,
            UpgradeLevel::Advanced => "Advanced"@,
            UpgradeLevel::Superior => "Superior"@,
            UpgradeLevel::Elite => "Elite"@,
            UpgradeLevel::Master => "Master"@,
            UpgradeLevel::Epic => "Epic"@,
            UpgradeLevel::Legendary => "Legendary"@,
            UpgradeLevel::Mythic => "Mythic"@,
        }
    }

    /// Every tier has its own rank, below `TIER_COUNT`.
    pub proof fn lemma_rank_round_trip(self)
        ensures
            self.rank() < TIER_COUNT,
            UpgradeLevel::of_rank(self.rank()) == self,
    {
    }

    /// Ranks below `TIER_COUNT` name their own tier.
    pub proof fn lemma_of_rank(r: nat)
        requires
            r < TIER_COUNT,
        ensures
            UpgradeLevel::of_rank(r).rank() == r,
    {
    }

    /// The rank of the tier.
    pub fn index(&self) -> (r: usize)
        ensures
            r == self.rank(),
    {
        match self {
            UpgradeLevel::NoTier => 0,
            UpgradeLevel::Basic => 1,
            UpgradeLevel::Improved => 2,
            UpgradeLevel::Enhanced => 3,
            UpgradeLevel::Advanced => 4,
            UpgradeLevel::Superior => 5,
            UpgradeLevel::Elite => 6,
            UpgradeLevel::Master => 7,
            UpgradeLevel::Epic => 8,
            UpgradeLevel::Legendary => 9,
            UpgradeLevel::Mythic => 10,
        }
    }

    /// The tier of rank `i`, if there is one.
    pub fn from_index(i: usize) -> (r: Option<UpgradeLevel>)
        ensures
            r is Some <==> i < TIER_COUNT,
            r matches Some(l) ==> l.rank() == i && l == UpgradeLevel::of_rank(i as nat),
    {
        match i {
            0 => Some(UpgradeLevel::NoTier),
            1 => Some(UpgradeLevel::Basic),
            2 => Some(UpgradeLevel::Improved),
            3 => Some(UpgradeLevel::Enhanced),
            4 => Some(UpgradeLevel::Advanced),
            5 => Some(UpgradeLevel::Superior),
            6 => Some(UpgradeLevel::Elite),
            7 => Some(UpgradeLevel::Master),
            8 => Some(UpgradeLevel::Epic),
            9 => Some(UpgradeLevel::Legendary),
            10 => Some(UpgradeLevel::Mythic),
            _ => None,
        }
    }

    /// Whether this tier is at or below `other`.
    pub fn is_at_most(&self, other: &UpgradeLevel) -> (r: bool)
        ensures
            r == (self.rank() <= other.rank()),
    {
        self.index() <= other.index()
    }

    /// Display name of the tier.
    pub fn name(&self) -> (r: String)
        ensures
            r@ == self.spec_name(),
    {
        let s: &str = match self {
            UpgradeLevel::NoTier => "None",
            UpgradeLevel::Basic => "Basic",
            UpgradeLevel::Improved => "Improved",
            UpgradeLevel::Enhanced => "Enhanced",
            UpgradeLevel::Advanced => "Advanced",
            UpgradeLevel::Superior => "Superior",
            UpgradeLevel::Elite => "Elite",
            UpgradeLevel::Master => "Master",
            UpgradeLevel::Epic => "Epic",
            UpgradeLevel::Legendary => "Legendary",
            UpgradeLevel::Mythic => "Mythic",
        };
        s.to_owned()
    }
}

} // verus!
