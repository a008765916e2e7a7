//! The ammunition of the wielded weapon.

use vstd::prelude::*;

verus! {

/// How many shots a weapon holds when it is made.
pub const AMMO_DEFAULT: u32 = 8;

/// The ammunition count of a weapon, the part of it that the firing rule
/// reads and changes.
#[derive(PartialEq, Eq, Structural, Copy, Clone, Debug)]
pub struct WeaponAmmo {
    pub ammo: u32,
}

impl WeaponAmmo {
    /// A weapon as it is made: a full load of shots.
    pub fn ammo_default() -> (weapon: WeaponAmmo)
        ensures
            weapon.ammo == AMMO_DEFAULT,
    {
        WeaponAmmo { ammo: AMMO_DEFAULT }
    }

    /// One tick of the trigger: the weapon fires when the push input was
    /// pressed, a shot is left and the player is in the world; a shot fired
    /// is spent whatever it hits. Returns whether it fired.
    pub fn fire(&mut self, push: bool, player_found: bool) -> (fired: bool)
        ensures
            fired == (push && old(self).ammo > 0 && player_found),
            final(self).ammo == if fired { old(self).ammo - 1 } else { old(self).ammo as int },
    {
        if push && self.ammo > 0 && player_found {
            self.ammo = self.ammo - 1;
            true
        } else {
            false
        }
    }

    /// The weapon thrown away by the pull input: it keeps the shots it had.
    pub fn thrown(&self) -> (weapon: WeaponAmmo)
        ensures
            weapon.ammo == self.ammo,
    {
        WeaponAmmo { ammo: self.ammo }
    }
}

} // verus!
