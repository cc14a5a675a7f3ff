use vstd::prelude::*;
use crate::arena::Handle;
use crate::geometry::Vec3;
use crate::inventory::ItemKind;
use crate::weapon::WeaponKind;

verus! {

/// The attributed source of a ray or a projectile.
#[derive(Clone, Copy, PartialEq, Eq, Structural, Debug)]
pub enum Shooter {
    Nobody,
    Actor(Handle),
    Weapon(Handle),
    Turret(Handle),
}

#[derive(Clone, Copy, PartialEq, Eq, Structural, Debug, Hash)]
pub enum ProjectileKind {
    Plasma,
    Grenade,
}

/// The visual left along a hit-scan ray.
#[derive(Clone, Copy, PartialEq, Eq, Structural, Debug, Hash)]
pub enum ShotEffect {
    Smoke,
    Beam,
    Rail,
}

/// A request that the character controller hands to the other subsystems of
/// the game. Positions are in millimetres, directions in thousandths.
#[derive(Clone, Copy, PartialEq, Eq, Structural, Debug)]
pub enum Message {
    PickUpItem { actor: Handle, item: Handle },
    SyncInventory,
    ShowItemDisplay { item: ItemKind, count: u32 },
    CallElevator { elevator: Handle, floor: u32 },
    SetCallButtonFloor { call_button: Handle, floor: u32 },
    GrabWeapon { kind: WeaponKind, actor: Handle },
    ShootWeapon { weapon: Handle },
    ShootRay { shooter: Shooter, begin: Vec3, end: Vec3, damage: u32, shot_effect: ShotEffect },
    CreateProjectile {
        kind: ProjectileKind,
        position: Vec3,
        direction: Vec3,
        initial_velocity: Vec3,
        shooter: Shooter,
    },
    SwitchFlashLight { weapon: Handle },
    /// Play the `sound`-th shot sound of a weapon kind at `position`; gain,
    /// rolloff factor and radius (millimetres) are in thousandths.
    PlaySound { weapon: WeaponKind, sound: u32, position: Vec3, gain: u32, rolloff_factor: u32, radius: u32 },
    SyncJournal,
}

} // verus!
