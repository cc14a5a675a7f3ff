use vstd::prelude::*;
use crate::arena::{Handle, Pool};
use crate::geometry::{in_world, is_direction, Vec3};
use crate::message::{Message, ProjectileKind, ShotEffect, Shooter};

verus! {

/// Range of a hit-scan shot, in world units.
pub const RAY_RANGE_UNITS: i64 = 1000;

/// How long the muzzle flash stays lit after a shot, in milliseconds.
pub const MUZZLE_FLASH_MS: u32 = 75;

/// How many muzzle-flash textures a shot picks from.
pub const MUZZLE_FLASH_TEXTURES: u32 = 5;

#[derive(Clone, Copy, PartialEq, Eq, Structural, Debug, Hash)]
pub enum WeaponKind {
    M4,
    Ak47,
    PlasmaRifle,
    RailGun,
    Glock,
}

/// What a shot of a weapon kind sends into the world.
#[derive(Clone, Copy, PartialEq, Eq, Structural, Debug)]
pub enum WeaponProjectile {
    Projectile(ProjectileKind),
    Ray { damage: u32 },
}

/// The static description of a weapon kind. Angles are in millidegrees,
/// times in milliseconds, offsets in millimetres.
#[derive(Clone, Copy, PartialEq, Eq, Structural, Debug)]
pub struct WeaponDefinition {
    pub shoot_interval_ms: u64,
    pub ammo_consumption_per_shot: u32,
    pub projectile: WeaponProjectile,
    pub shot_effect: ShotEffect,
    pub yaw_correction: i32,
    pub pitch_correction: i32,
    pub v_recoil_min: i32,
    pub v_recoil_max: i32,
    pub h_recoil_min: i32,
    pub h_recoil_max: i32,
    pub ammo_indicator_offset: Vec3,
    pub shot_sound_count: u32,
}

pub open spec fn definition_of(kind: WeaponKind) -> WeaponDefinition {
    match kind {
        WeaponKind::M4 => WeaponDefinition {
            shoot_interval_ms: 100,
            ammo_consumption_per_shot: 1,
            projectile: WeaponProjectile::Ray { damage: 15 },
            shot_effect: ShotEffect::Smoke,
            yaw_correction: -4000 as i32,
            pitch_correction: -12000 as i32,
            v_recoil_min: 1000,
            v_recoil_max: 2000,
            h_recoil_min: -1000 as i32,
            h_recoil_max: 1000,
            ammo_indicator_offset: Vec3 { x: -100 as i64, y: 130, z: 0 },
            shot_sound_count: 2,
        },
        WeaponKind::Ak47 => WeaponDefinition {
            shoot_interval_ms: 150,
            ammo_consumption_per_shot: 1,
            projectile: WeaponProjectile::Ray { damage: 20 },
            shot_effect: ShotEffect::Smoke,
            yaw_correction: -4000 as i32,
            pitch_correction: -12000 as i32,
            v_recoil_min: 1500,
            v_recoil_max: 2500,
            h_recoil_min: -1500 as i32,
            h_recoil_max: 1500,
            ammo_indicator_offset: Vec3 { x: -100 as i64, y: 140, z: 0 },
            shot_sound_count: 3,
        },
        WeaponKind::PlasmaRifle => WeaponDefinition {
            shoot_interval_ms: 250,
            ammo_consumption_per_shot: 2,
            projectile: WeaponProjectile::Projectile(ProjectileKind::Plasma),
            shot_effect: ShotEffect::Beam,
            yaw_correction: -2000 as i32,
            pitch_correction: -6000 as i32,
            v_recoil_min: 500,
            v_recoil_max: 1000,
            h_recoil_min: -500 as i32,
            h_recoil_max: 500,
            ammo_indicator_offset: Vec3 { x: -80 as i64, y: 160, z: 0 },
            shot_sound_count: 1,
        },
        WeaponKind::RailGun => WeaponDefinition {
            shoot_interval_ms: 1000,
            ammo_consumption_per_shot: 5,
            projectile: WeaponProjectile::Ray { damage: 100 },
            shot_effect: ShotEffect::Rail,
            yaw_correction: -3000 as i32,
            pitch_correction: -8000 as i32,
            v_recoil_min: 3000,
            v_recoil_max: 4000,
            h_recoil_min: -500 as i32,
            h_recoil_max: 500,
            ammo_indicator_offset: Vec3 { x: -90 as i64, y: 150, z: 0 },
            shot_sound_count: 1,
        },
        WeaponKind::Glock => WeaponDefinition {
            shoot_interval_ms: 300,
            ammo_consumption_per_shot: 1,
            projectile: WeaponProjectile::Ray { damage: 10 },
            shot_effect: ShotEffect::Smoke,
            yaw_correction: 0,
            pitch_correction: -2000 as i32,
            v_recoil_min: 2000,
            v_recoil_max: 3000,
            h_recoil_min: -1000 as i32,
            h_recoil_max: 1000,
            ammo_indicator_offset: Vec3 { x: -60 as i64, y: 90, z: 0 },
            shot_sound_count: 1,
        },
    }
}

/// The per-shot outcome that a caller carries out: a sound to play, a muzzle
/// flash to light, and the request for the projectile or the ray.
#[derive(Clone, Copy, PartialEq, Eq, Structural, Debug)]
pub struct Shot {
    /// The shot sound to play, if the definition has any: sent before the
    /// request.
    pub sound: Option<Message>,
    /// Which muzzle-flash texture to show, if the weapon has a muzzle flash.
    pub flash_texture: Option<u32>,
    pub request: Message,
}

/// Gain of a shot sound, in thousandths.
pub const SHOT_GAIN: u32 = 1000;

/// Rolloff factor of a shot sound, in thousandths.
pub const SHOT_ROLLOFF: u32 = 5000;

/// Radius of a shot sound, in millimetres.
pub const SHOT_RADIUS: u32 = 3000;

/// The messages of a shot, in the order they are sent: the sound, then the
/// request.
pub open spec fn shot_messages(shot: Shot) -> Seq<Message> {
    match shot.sound {
        Some(m) => seq![m, shot.request],
        None => seq![shot.request],
    }
}

impl Shot {
    /// The shot's messages in the order they are sent.
    pub fn messages(&self) -> (r: Vec<Message>)
        ensures
            r@ == shot_messages(*self),
    {
        let mut r: Vec<Message> = Vec::new();
        if let Some(m) = self.sound {
            r.push(m);
        }
        r.push(self.request);
        proof {
            assert(r@ =~= shot_messages(*self));
        }
        r
    }
}

/// One weapon in the world. Scene nodes are referred to by handle; a handle
/// of generation zero means the model has no such node.
#[derive(Clone, Copy, PartialEq, Eq, Structural, Debug)]
pub struct Weapon {
    kind: WeaponKind,
    model: Handle,
    shot_point: Handle,
    muzzle_flash: Handle,
    shot_light: Handle,
    flash_light: Handle,
    last_shot_time: Option<u64>,
    owner: Handle,
    muzzle_flash_timer: u32,
}

/// `after` is `before` with its muzzle-flash countdown advanced by `dt`
/// milliseconds (stopping at zero), and nothing else changed.
pub open spec fn is_ticked(before: Weapon, after: Weapon, dt: u32) -> bool {
    &&& after.muzzle_flash_timer_spec() == if before.muzzle_flash_timer_spec() > dt {
        (before.muzzle_flash_timer_spec() - dt) as u32
    } else {
        0u32
    }
    &&& after.kind_spec() == before.kind_spec()
    &&& after.model_spec() == before.model_spec()
    &&& after.shot_point_spec() == before.shot_point_spec()
    &&& after.muzzle_flash_spec() == before.muzzle_flash_spec()
    &&& after.shot_light_spec() == before.shot_light_spec()
    &&& after.flash_light_spec() == before.flash_light_spec()
    &&& after.last_shot_time_spec() == before.last_shot_time_spec()
    &&& after.owner_spec() == before.owner_spec()
}

pub open spec fn can_shoot_at(last_shot_time: Option<u64>, interval: u64, now: u64) -> bool {
    match last_shot_time {
        None => true,
        Some(t) => now >= t && now - t >= interval,
    }
}

/// The request that a shot of `kind` sends, from `position` along `direction`.
pub open spec fn shot_request(
    kind: WeaponKind,
    self_handle: Handle,
    position: Vec3,
    direction: Vec3,
) -> Message {
    match definition_of(kind).projectile {
        WeaponProjectile::Projectile(p) => Message::CreateProjectile {
            kind: p,
            position,
            direction,
            initial_velocity: Vec3 { x: 0, y: 0, z: 0 },
            shooter: Shooter::Weapon(self_handle),
        },
        WeaponProjectile::Ray { damage } => Message::ShootRay {
            shooter: Shooter::Weapon(self_handle),
            begin: position,
            end: Vec3 {
                x: (position.x + direction.x * RAY_RANGE_UNITS) as i64,
                y: (position.y + direction.y * RAY_RANGE_UNITS) as i64,
                z: (position.z + direction.z * RAY_RANGE_UNITS) as i64,
            },
            damage,
            shot_effect: definition_of(kind).shot_effect,
        },
    }
}

/// What firing `w` (named `self_handle`) from `position` along `direction`
/// hands back, with `sound_roll` and `texture_roll` the random draws.
pub open spec fn shot_of(
    w: Weapon,
    self_handle: Handle,
    position: Vec3,
    direction: Vec3,
    sound_roll: u32,
    texture_roll: u32,
) -> Shot {
    let d = definition_of(w.kind_spec());
    Shot {
        sound: if d.shot_sound_count == 0 {
            None
        } else {
            Some(Message::PlaySound {
                weapon: w.kind_spec(),
                sound: (sound_roll % d.shot_sound_count) as u32,
                position,
                gain: SHOT_GAIN,
                rolloff_factor: SHOT_ROLLOFF,
                radius: SHOT_RADIUS,
            })
        },
        flash_texture: if w.muzzle_flash_spec().is_none_spec() {
            None
        } else {
            Some((texture_roll % MUZZLE_FLASH_TEXTURES) as u32)
        },
        request: shot_request(w.kind_spec(), self_handle, position, direction),
    }
}

/// `after` is `before` fired at `now`: the shot time stamped, the muzzle
/// flash lit for its time where there is one, and nothing else changed.
pub open spec fn is_shot(before: Weapon, after: Weapon, now: u64) -> bool {
    &&& after.last_shot_time_spec() == Some(now)
    &&& after.muzzle_flash_timer_spec() == if before.muzzle_flash_spec().is_none_spec() {
        before.muzzle_flash_timer_spec()
    } else {
        MUZZLE_FLASH_MS
    }
    &&& after.kind_spec() == before.kind_spec()
    &&& after.model_spec() == before.model_spec()
    &&& after.owner_spec() == before.owner_spec()
    &&& after.shot_point_spec() == before.shot_point_spec()
    &&& after.muzzle_flash_spec() == before.muzzle_flash_spec()
    &&& after.shot_light_spec() == before.shot_light_spec()
    &&& after.flash_light_spec() == before.flash_light_spec()
}

impl Weapon {
    /// The static definition of a weapon kind.
    pub fn definition(kind: WeaponKind) -> (r: WeaponDefinition)
        ensures
            r == definition_of(kind),
    {
        match kind {
            WeaponKind::M4 => WeaponDefinition {
                shoot_interval_ms: 100,
                ammo_consumption_per_shot: 1,
                projectile: WeaponProjectile::Ray { damage: 15 },
                shot_effect: ShotEffect::Smoke,
                yaw_correction: -4000,
                pitch_correction: -12000,
                v_recoil_min: 1000,
                v_recoil_max: 2000,
                h_recoil_min: -1000,
                h_recoil_max: 1000,
                ammo_indicator_offset: Vec3 { x: -100, y: 130, z: 0 },
                shot_sound_count: 2,
            },
            WeaponKind::Ak47 => WeaponDefinition {
                shoot_interval_ms: 150,
                ammo_consumption_per_shot: 1,
                projectile: WeaponProjectile::Ray { damage: 20 },
                shot_effect: ShotEffect::Smoke,
                yaw_correction: -4000,
                pitch_correction: -12000,
                v_recoil_min: 1500,
                v_recoil_max: 2500,
                h_recoil_min: -1500,
                h_recoil_max: 1500,
                ammo_indicator_offset: Vec3 { x: -100, y: 140, z: 0 },
                shot_sound_count: 3,
            },
            WeaponKind::PlasmaRifle => WeaponDefinition {
                shoot_interval_ms: 250,
                ammo_consumption_per_shot: 2,
                projectile: WeaponProjectile::Projectile(ProjectileKind::Plasma),
                shot_effect: ShotEffect::Beam,
                yaw_correction: -2000,
                pitch_correction: -6000,
                v_recoil_min: 500,
                v_recoil_max: 1000,
                h_recoil_min: -500,
                h_recoil_max: 500,
                ammo_indicator_offset: Vec3 { x: -80, y: 160, z: 0 },
                shot_sound_count: 1,
            },
            WeaponKind::RailGun => WeaponDefinition {
                shoot_interval_ms: 1000,
                ammo_consumption_per_shot: 5,
                projectile: WeaponProjectile::Ray { damage: 100 },
                shot_effect: ShotEffect::Rail,
                yaw_correction: -3000,
                pitch_correction: -8000,
                v_recoil_min: 3000,
                v_recoil_max: 4000,
                h_recoil_min: -500,
                h_recoil_max: 500,
                ammo_indicator_offset: Vec3 { x: -90, y: 150, z: 0 },
                shot_sound_count: 1,
            },
            WeaponKind::Glock => WeaponDefinition {
                shoot_interval_ms: 300,
                ammo_consumption_per_shot: 1,
                projectile: WeaponProjectile::Ray { damage: 10 },
                shot_effect: ShotEffect::Smoke,
                yaw_correction: 0,
                pitch_correction: -2000,
                v_recoil_min: 2000,
                v_recoil_max: 3000,
                h_recoil_min: -1000,
                h_recoil_max: 1000,
                ammo_indicator_offset: Vec3 { x: -60, y: 90, z: 0 },
                shot_sound_count: 1,
            },
        }
    }

    /// A weapon of `kind` built on the given scene nodes, never fired and
    /// without an owner.
    pub fn new(
        kind: WeaponKind,
        model: Handle,
        shot_point: Handle,
        muzzle_flash: Handle,
        shot_light: Handle,
        flash_light: Handle,
    ) -> (r: Weapon)
        ensures
            r.kind_spec() == kind,
            r.model_spec() == model,
            r.last_shot_time_spec() is None,
            r.owner_spec().is_none_spec(),
            r.muzzle_flash_timer_spec() == 0,
            r.shot_point_spec() == shot_point,
            r.muzzle_flash_spec() == muzzle_flash,
            r.shot_light_spec() == shot_light,
            r.flash_light_spec() == flash_light,
    {
        Weapon {
            kind,
            model,
            shot_point,
            muzzle_flash,
            shot_light,
            flash_light,
            last_shot_time: None,
            owner: Handle::none(),
            muzzle_flash_timer: 0,
        }
    }

    pub closed spec fn kind_spec(&self) -> WeaponKind {
        self.kind
    }

    pub closed spec fn model_spec(&self) -> Handle {
        self.model
    }

    pub closed spec fn shot_point_spec(&self) -> Handle {
        self.shot_point
    }

    pub closed spec fn muzzle_flash_spec(&self) -> Handle {
        self.muzzle_flash
    }

    pub closed spec fn shot_light_spec(&self) -> Handle {
        self.shot_light
    }

    pub closed spec fn flash_light_spec(&self) -> Handle {
        self.flash_light
    }

    pub closed spec fn last_shot_time_spec(&self) -> Option<u64> {
        self.last_shot_time
    }

    pub closed spec fn owner_spec(&self) -> Handle {
        self.owner
    }

    pub closed spec fn muzzle_flash_timer_spec(&self) -> u32 {
        self.muzzle_flash_timer
    }

    /// Whether the weapon may fire at `now` (milliseconds of game time): it
    /// never fired, or its definition's interval has passed since it did.
    pub fn can_shoot(&self, now: u64) -> (r: bool)
        ensures
            r == can_shoot_at(
                self.last_shot_time_spec(),
                definition_of(self.kind_spec()).shoot_interval_ms,
                now,
            ),
    {
        let interval = Weapon::definition(self.kind).shoot_interval_ms;
        match self.last_shot_time {
            None => true,
            Some(t) => now >= t && now - t >= interval,
        }
    }

    /// Fires the weapon at `now` from `position` along the unit `direction`.
    /// `sound_roll` and `texture_roll` are random draws that pick the shot
    /// sound and the muzzle-flash texture.
    pub fn shoot(
        &mut self,
        self_handle: Handle,
        now: u64,
        position: Vec3,
        direction: Vec3,
        sound_roll: u32,
        texture_roll: u32,
    ) -> (r: Shot)
        requires
            in_world(position),
            is_direction(direction),
        ensures
            is_shot(*old(self), *final(self), now),
            r == shot_of(*old(self), self_handle, position, direction, sound_roll, texture_roll),
    {
        let definition = Weapon::definition(self.kind);
        self.last_shot_time = Some(now);
        let sound = if definition.shot_sound_count == 0 {
            None
        } else {
            Some(
                Message::PlaySound {
                    weapon: self.kind,
                    sound: sound_roll % definition.shot_sound_count,
                    position,
                    gain: SHOT_GAIN,
                    rolloff_factor: SHOT_ROLLOFF,
                    radius: SHOT_RADIUS,
                },
            )
        };
        let flash_texture = if self.muzzle_flash.is_some() {
            self.muzzle_flash_timer = MUZZLE_FLASH_MS;
            Some(texture_roll % MUZZLE_FLASH_TEXTURES)
        } else {
            None
        };
        let request = match definition.projectile {
            WeaponProjectile::Projectile(p) => Message::CreateProjectile {
                kind: p,
                position,
                direction,
                initial_velocity: Vec3::zero(),
                shooter: Shooter::Weapon(self_handle),
            },
            WeaponProjectile::Ray { damage } => Message::ShootRay {
                shooter: Shooter::Weapon(self_handle),
                begin: position,
                end: position.advanced(direction, RAY_RANGE_UNITS),
                damage,
                shot_effect: definition.shot_effect,
            },
        };
        Shot { sound, flash_texture, request }
    }

    /// Advances the muzzle-flash countdown by `dt` milliseconds.
    pub fn update(&mut self, dt: u32)
        ensures
            *final(self) == old(self).ticked(dt),
            is_ticked(*old(self), *final(self), dt),
    {
        self.muzzle_flash_timer = if self.muzzle_flash_timer > dt {
            self.muzzle_flash_timer - dt
        } else {
            0
        };
    }

    pub closed spec fn ticked(self, dt: u32) -> Weapon {
        Weapon {
            muzzle_flash_timer: if self.muzzle_flash_timer > dt {
                (self.muzzle_flash_timer - dt) as u32
            } else {
                0
            },
            ..self
        }
    }

    /// Whether the muzzle flash and its light are due to be hidden: the weapon
    /// has a flash and its countdown has run out.
    pub fn flash_expired(&self) -> (r: bool)
        ensures
            r == (self.muzzle_flash_timer_spec() == 0 && !self.muzzle_flash_spec().is_none_spec()),
    {
        self.muzzle_flash_timer == 0 && self.muzzle_flash.is_some()
    }

    /// The node whose position a shot starts from: the shot point, or the
    /// model itself where the model has none.
    pub fn shot_origin(&self) -> (r: Handle)
        ensures
            r == if self.shot_point_spec().is_none_spec() {
                self.model_spec()
            } else {
                self.shot_point_spec()
            },
    {
        if self.shot_point.is_some() {
            self.shot_point
        } else {
            self.model
        }
    }

    /// The flash-light node to switch, if the weapon has one.
    pub fn switch_flash_light(&self) -> (r: Option<Handle>)
        ensures
            r == if self.flash_light_spec().is_none_spec() {
                None::<Handle>
            } else {
                Some(self.flash_light_spec())
            },
    {
        if self.flash_light.is_some() {
            Some(self.flash_light)
        } else {
            None
        }
    }

    pub fn model(&self) -> (r: Handle)
        ensures
            r == self.model_spec(),
    {
        self.model
    }

    pub fn muzzle_flash(&self) -> (r: Handle)
        ensures
            r == self.muzzle_flash_spec(),
    {
        self.muzzle_flash
    }

    pub fn shot_light(&self) -> (r: Handle)
        ensures
            r == self.shot_light_spec(),
    {
        self.shot_light
    }

    pub fn kind(&self) -> (r: WeaponKind)
        ensures
            r == self.kind_spec(),
    {
        self.kind
    }

    pub fn owner(&self) -> (r: Handle)
        ensures
            r == self.owner_spec(),
    {
        self.owner
    }

    pub fn set_owner(&mut self, owner: Handle)
        ensures
            final(self).owner_spec() == owner,
            final(self).kind_spec() == old(self).kind_spec(),
            final(self).model_spec() == old(self).model_spec(),
            final(self).last_shot_time_spec() == old(self).last_shot_time_spec(),
            final(self).muzzle_flash_timer_spec() == old(self).muzzle_flash_timer_spec(),
            final(self).shot_point_spec() == old(self).shot_point_spec(),
            final(self).muzzle_flash_spec() == old(self).muzzle_flash_spec(),
            final(self).shot_light_spec() == old(self).shot_light_spec(),
            final(self).flash_light_spec() == old(self).flash_light_spec(),
    {
        self.owner = owner;
    }
}

impl Default for Weapon {
    /// An M4 on no nodes, never fired and without an owner.
    fn default() -> (r: Weapon)
        ensures
            r.kind_spec() == WeaponKind::M4,
            r.model_spec().is_none_spec(),
            r.shot_point_spec().is_none_spec(),
            r.muzzle_flash_spec().is_none_spec(),
            r.shot_light_spec().is_none_spec(),
            r.flash_light_spec().is_none_spec(),
            r.last_shot_time_spec() is None,
            r.owner_spec().is_none_spec(),
            r.muzzle_flash_timer_spec() == 0,
    {
        let none = Handle::none();
        Weapon::new(WeaponKind::M4, none, none, none, none, none)
    }
}

/// The weapons of a level, addressed by generational handles.
pub struct WeaponContainer {
    pool: Pool<Weapon>,
}

impl View for WeaponContainer {
    type V = Map<Handle, Weapon>;

    closed spec fn view(&self) -> Map<Handle, Weapon> {
        self.pool@
    }
}

impl WeaponContainer {
    pub closed spec fn wf(&self) -> bool {
        self.pool.wf()
    }

    /// How many slots the container has used, live or freed.
    pub closed spec fn slot_count(&self) -> nat {
        self.pool.payloads().len()
    }

    pub open spec fn is_full(&self) -> bool {
        self.slot_count() >= u32::MAX
    }

    pub fn new() -> (r: WeaponContainer)
        ensures
            r.wf(),
            !r.is_full(),
            r@ == Map::<Handle, Weapon>::empty(),
            r.slot_count() == 0,
    {
        WeaponContainer { pool: Pool::new() }
    }

    pub fn add(&mut self, weapon: Weapon) -> (h: Handle)
        requires
            old(self).wf(),
            !old(self).is_full(),
        ensures
            final(self).wf(),
            !h.is_none_spec(),
            !old(self)@.contains_key(h),
            final(self)@ == old(self)@.insert(h, weapon),
            final(self).slot_count() <= old(self).slot_count() + 1,
    {
        self.pool.spawn(weapon)
    }

    pub fn try_get(&self, h: Handle) -> (r: Option<Weapon>)
        requires
            self.wf(),
        ensures
            self@.contains_key(h) ==> r == Some(self@[h]),
            !self@.contains_key(h) ==> r is None,
    {
        match self.pool.try_borrow(h) {
            Some(w) => Some(*w),
            None => None,
        }
    }

    pub fn contains(&self, h: Handle) -> (r: bool)
        requires
            self.wf(),
        ensures
            r == self@.contains_key(h),
    {
        self.pool.is_valid_handle(h)
    }

    pub fn free(&mut self, h: Handle)
        requires
            old(self).wf(),
        ensures
            final(self).wf(),
            final(self)@ == old(self)@.remove(h),
            final(self).slot_count() == old(self).slot_count(),
    {
        self.pool.free(h);
    }

    /// Replaces the weapon that `h` names.
    pub fn set(&mut self, h: Handle, weapon: Weapon)
        requires
            old(self).wf(),
            old(self)@.contains_key(h),
        ensures
            final(self).wf(),
            final(self)@ == old(self)@.insert(h, weapon),
            final(self).slot_count() == old(self).slot_count(),
    {
        self.pool.set(h, weapon);
    }

    /// Fires the weapon that `h` names; a stale handle fires nothing.
    pub fn shoot(
        &mut self,
        h: Handle,
        now: u64,
        position: Vec3,
        direction: Vec3,
        sound_roll: u32,
        texture_roll: u32,
    ) -> (r: Option<Shot>)
        requires
            old(self).wf(),
            in_world(position),
            is_direction(direction),
        ensures
            final(self).wf(),
            !old(self)@.contains_key(h) ==> r is None && final(self)@ == old(self)@,
            old(self)@.contains_key(h) ==> r == Some(shot_of(old(self)@[h], h, position, direction, sound_roll, texture_roll))
                && final(self)@ == old(self)@.insert(h, final(self)@[h])
                && is_shot(old(self)@[h], final(self)@[h], now),
            final(self).slot_count() == old(self).slot_count(),
    {
        match self.pool.try_borrow(h) {
            Some(w) => {
                let mut weapon = *w;
                let shot = weapon.shoot(h, now, position, direction, sound_roll, texture_roll);
                self.pool.set(h, weapon);
                assert(self@ =~= old(self)@.insert(h, self@[h]));
                Some(shot)
            },
            None => None,
        }
    }

    /// Advances every weapon's muzzle-flash countdown by `dt` milliseconds.
    pub fn update(&mut self, dt: u32)
        requires
            old(self).wf(),
        ensures
            final(self).wf(),
            final(self)@.dom() == old(self)@.dom(),
            final(self).slot_count() == old(self).slot_count(),
            forall|h: Handle| #[trigger]
                old(self)@.contains_key(h) ==> final(self)@[h] == old(self)@[h].ticked(dt),
            forall|h: Handle| #[trigger]
                old(self)@.contains_key(h) ==> is_ticked(old(self)@[h], final(self)@[h], dt),
    {
        let n = self.pool.slot_count();
        let mut i: usize = 0;
        while i < n
            invariant
                self.pool.wf(),
                n == self.pool.payloads().len(),
                i <= n,
                self.pool.generations() == old(self).pool.generations(),
                self.pool@.dom() == old(self).pool@.dom(),
                forall|h: Handle| #[trigger]
                    old(self).pool@.contains_key(h) ==> self.pool@[h] == if h.index < i {
                        old(self).pool@[h].ticked(dt)
                    } else {
                        old(self).pool@[h]
                    },
            decreases n - i,
        {
            match self.pool.entry(i) {
                Some((h, w)) => {
                    let mut weapon = *w;
                    weapon.update(dt);
                    proof {
                        assert(self.pool@.contains_key(h));
                        assert(old(self).pool@.contains_key(h));
                    }
                    self.pool.set(h, weapon);
                    proof {
                        assert(self.pool@.dom() =~= old(self).pool@.dom());
                    }
                },
                None => {},
            }
            i = i + 1;
        }
    }
}

} // verus!
