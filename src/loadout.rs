//! What a player holds: stat boosts and skills granted by upgrades, and the
//! charges of a skill that recharges over time.

use vstd::prelude::*;
use crate::tier::UpgradeLevel;
use crate::upgrade::{DashSkill, GlideSkill, JumpSkill, StatUpgrade, UpgradeType};

verus! {

/// The upgrades a player has been granted: stat boosts accumulate, a skill
/// replaces the one of its kind held before.
pub struct Loadout {
    pub speed_modifiers: Vec<StatUpgrade>,
    pub jump_modifiers: Vec<StatUpgrade>,
    pub jump_skill: JumpSkill,
    pub dash_skill: DashSkill,
    pub glide_skill: GlideSkill,
}

/// The jump every player starts with: one, from the ground.
pub open spec fn starting_jump() -> JumpSkill {
    JumpSkill { max_jumps: 1, tier: UpgradeLevel::NoTier, air: false }
}

/// A dash or glide skill nobody has been granted: no uses.
pub open spec fn no_dash() -> DashSkill {
    DashSkill { max_dash: 0, air: false, cooldown_ns: 0, tier: UpgradeLevel::NoTier }
}

pub open spec fn no_glide() -> GlideSkill {
    GlideSkill { max_uses: 0, cooldown_ns: 0, tier: UpgradeLevel::NoTier, max_duration_ns: 0 }
}

impl Loadout {
    /// The loadout a run starts with: no boosts, a single jump, no dash and
    /// no glide.
    pub fn new() -> (r: Loadout)
        ensures
            r.speed_modifiers@ == Seq::<StatUpgrade>::empty(),
            r.jump_modifiers@ == Seq::<StatUpgrade>::empty(),
            r.jump_skill == starting_jump(),
            r.dash_skill == no_dash(),
            r.glide_skill == no_glide(),
    {
        Loadout {
            speed_modifiers: Vec::new(),
            jump_modifiers: Vec::new(),
            jump_skill: JumpSkill { max_jumps: 1, tier: UpgradeLevel::NoTier, air: false },
            dash_skill: DashSkill {
                max_dash: 0,
                air: false,
                cooldown_ns: 0,
                tier: UpgradeLevel::NoTier,
            },
            glide_skill: GlideSkill {
                max_uses: 0,
                cooldown_ns: 0,
                tier: UpgradeLevel::NoTier,
                max_duration_ns: 0,
            },
        }
    }

    /// Takes in a granted upgrade: a stat boost joins the boosts of its stat,
    /// a skill replaces the skill of its kind; nothing else changes.
    pub fn apply(&mut self, upgrade: UpgradeType)
        ensures
            final(self).speed_modifiers@ == (match upgrade {
                UpgradeType::Speed(s) => old(self).speed_modifiers@.push(s),
                _ => old(self).speed_modifiers@,
            }),
            final(self).jump_modifiers@ == (match upgrade {
                UpgradeType::JumpPower(s) => old(self).jump_modifiers@.push(s),
                _ => old(self).jump_modifiers@,
            }),
            final(self).jump_skill == (match upgrade {
                UpgradeType::JumpSkill(s) => s,
                _ => old(self).jump_skill,
            }),
            final(self).dash_skill == (match upgrade {
                UpgradeType::DashSkill(s) => s,
                _ => old(self).dash_skill,
            }),
            final(self).glide_skill == (match upgrade {
                UpgradeType::GlideSkill(s) => s,
                _ => old(self).glide_skill,
            }),
    {
        match upgrade {
            UpgradeType::Speed(s) => self.speed_modifiers.push(s),
            UpgradeType::JumpPower(s) => self.jump_modifiers.push(s),
            UpgradeType::JumpSkill(s) => self.jump_skill = s,
            UpgradeType::DashSkill(s) => self.dash_skill = s,
            UpgradeType::GlideSkill(s) => self.glide_skill = s,
        }
    }
}

/// What an attempt to use a skill came to.
#[derive(Clone, Copy, Debug, PartialEq, Eq, Structural)]
pub enum ChargeUse {
    /// Every charge is spent: the skill does not fire.
    Refused,
    /// A charge is spent; a recharge is already under way.
    Used,
    /// A charge is spent and a recharge timer must start.
    UsedStartRecharge,
}

/// Charges of a skill with a limited number of uses. One recharge timer runs
/// while any charge is spent, and each time it ends one charge comes back.
pub struct SkillCharges {
    used: u8,
}

impl SkillCharges {
    /// Charges spent and not yet back.
    pub closed spec fn spec_used(&self) -> nat {
        self.used as nat
    }

    /// No charge spent.
    pub fn new() -> (r: SkillCharges)
        ensures
            r.spec_used() == 0,
    {
        SkillCharges { used: 0 }
    }

    /// Charges spent and not yet back.
    pub fn used(&self) -> (r: u8)
        ensures
            r == self.spec_used(),
    {
        self.used
    }

    /// Whether a recharge timer is running: exactly while a charge is spent.
    pub fn recharging(&self) -> (r: bool)
        ensures
            r == (self.spec_used() > 0),
    {
        self.used > 0
    }

    /// Charges left out of `max`.
    pub fn remaining(&self, max: u8) -> (r: u8)
        ensures
            r == if self.spec_used() <= max {
                max - self.spec_used()
            } else {
                0
            },
    {
        if self.used <= max {
            max - self.used
        } else {
            0
        }
    }

    /// Tries to spend a charge of a skill with `max` uses. A charge is spent
    /// when fewer than `max` are; the recharge timer starts with the first.
    pub fn try_use(&mut self, max: u8) -> (r: ChargeUse)
        ensures
            old(self).spec_used() >= max ==> r == ChargeUse::Refused && final(self).spec_used()
                == old(self).spec_used(),
            old(self).spec_used() < max ==> final(self).spec_used() == old(self).spec_used() + 1,
            old(self).spec_used() < max && old(self).spec_used() == 0 ==> r
                == ChargeUse::UsedStartRecharge,
            old(self).spec_used() < max && old(self).spec_used() > 0 ==> r == ChargeUse::Used,
    {
        if self.used >= max {
            ChargeUse::Refused
        } else {
            let first = self.used == 0;
            self.used = self.used + 1;
            if first {
                ChargeUse::UsedStartRecharge
            } else {
                ChargeUse::Used
            }
        }
    }

    /// The recharge timer ended: one charge comes back. Returns whether the
    /// timer must start again, which it must while a charge is still spent.
    pub fn recharge_finished(&mut self) -> (restart: bool)
        requires
            old(self).spec_used() > 0,
        ensures
            final(self).spec_used() == old(self).spec_used() - 1,
            restart == (final(self).spec_used() > 0),
    {
        self.used = self.used - 1;
        self.used > 0
    }
}

} // verus!
