use vstd::prelude::*;
use crate::angle::{kick_of, step_of, turned, wrapped, Recoil, SmoothAngle};
use crate::arena::Handle;
use crate::geometry::{in_world, is_direction, Vec3};
use crate::input::{bound_action, decode, decoded, moved, ControlScheme, ElementState, InputController, RawInput};
use crate::intent::{
    action_effects, change_after, controller_after, effects_after, flags_after, requested_change, InputContext,
    InputEffect,
};
use crate::interaction::{
    calls_elevator, controller_after_calls, all_in_world, elevators_messages, first_near_item, is_near, button_messages, buttons_messages, elevator_call,
    CallButtonKind, ElevatorView, ItemCheck, ItemView, INTERACTION_RADIUS,
};
use crate::locomotion::{
    axis, ease, eased, follow, ground_speed, scale_toward_zero, step_axis, target_component, velocity_ok,
    walk_component, walk_direction, followed, MOVE_SPEED,
};
use crate::inventory::{Inventory, ItemKind};
use crate::message::{Message, ProjectileKind, Shooter};
use crate::signal::AnimationEvent;
use crate::weapon::{can_shoot_at, definition_of, Weapon, WeaponContainer, WeaponKind};

verus! {

/// Signal of the jump clip at the instant the feet leave the ground.
pub const JUMP_SIGNAL: u64 = 1;

/// Signal of the grab clip at the instant the new weapon is in hand.
pub const GRAB_WEAPON_SIGNAL: u64 = 2;

/// Signal of the put-back clip when the old weapon is away.
pub const PUT_BACK_WEAPON_END_SIGNAL: u64 = 3;

/// Signal of the toss clip at the instant the grenade leaves the hand.
pub const TOSS_GRENADE_SIGNAL: u64 = 4;

/// A drop in health of at least this much since the last stun stuns again.
pub const STUN_HEALTH_DELTA: i32 = 15;

/// Vertical speed of a jump, in millimetres per second.
pub const JUMP_SPEED: i64 = 3000;

/// Speed of a tossed grenade, in world units per second.
pub const GRENADE_TOSS_SPEED: i64 = 15;

/// Longest time in the air, in milliseconds, that still counts as grounded.
pub const GROUND_GRACE_MS: u32 = 300;

/// Speed of the smoothed body and weapon angles, in millidegrees per second.
pub const TURN_SPEED: u32 = 572958;

/// Speed at which recoil decays, in millidegrees per second.
pub const RECOIL_SPEED: u32 = 85944;

/// A request to change the weapon in hand, carried out when the grab clip
/// signals.
#[derive(Clone, Copy, PartialEq, Eq, Structural, Debug)]
pub enum RequiredWeapon {
    NoChange,
    Next,
    Previous,
    Specific(WeaponKind),
}

impl RequiredWeapon {
    pub fn is_none(self) -> (r: bool)
        ensures
            r == (self is NoChange),
    {
        matches!(self, RequiredWeapon::NoChange)
    }
}

impl Default for RequiredWeapon {
    fn default() -> (r: RequiredWeapon)
        ensures
            r is NoChange,
    {
        RequiredWeapon::NoChange
    }
}

/// The family of weapon whose poses the upper body plays.
#[derive(Clone, Copy, PartialEq, Eq, Structural, Debug)]
pub enum CombatWeaponKind {
    Rifle,
    Pistol,
}

pub open spec fn combat_kind_of(kind: WeaponKind) -> CombatWeaponKind {
    match kind {
        WeaponKind::Glock => CombatWeaponKind::Pistol,
        _ => CombatWeaponKind::Rifle,
    }
}

/// What the locomotion machine's transitions read each frame.
#[derive(Clone, Copy, PartialEq, Eq, Structural, Debug)]
pub struct LowerBodyMachineInput {
    pub is_walking: bool,
    pub is_jumping: bool,
    pub has_ground_contact: bool,
    pub run_factor: u32,
    pub is_dead: bool,
    pub should_be_stunned: bool,
    pub weapon_kind: CombatWeaponKind,
}

/// What the combat machine's transitions read each frame.
#[derive(Clone, Copy, PartialEq, Eq, Structural, Debug)]
pub struct UpperBodyMachineInput {
    pub is_walking: bool,
    pub is_jumping: bool,
    pub has_ground_contact: bool,
    pub is_aiming: bool,
    pub toss_grenade: bool,
    pub weapon_kind: CombatWeaponKind,
    pub change_weapon: bool,
    pub run_factor: u32,
    pub is_dead: bool,
    pub should_be_stunned: bool,
}

/// The inputs of both machines for one frame, and whether the hit-reaction
/// clips are to be rewound and enabled.
#[derive(Clone, Copy, PartialEq, Eq, Structural, Debug)]
pub struct MachineInputs {
    pub lower: LowerBodyMachineInput,
    pub upper: UpperBodyMachineInput,
    pub stunned: bool,
}

/// What a character keeps between levels.
#[derive(Clone, Debug)]
pub struct PlayerPersistentData {
    pub inventory: Inventory,
    pub health: i32,
    pub current_weapon: u32,
    pub weapons: Vec<WeaponKind>,
}

/// The gameplay state of the playable character. Angles are in
/// millidegrees, times in milliseconds, speeds in millimetres per second,
/// factors in thousandths.
pub struct Player {
    health: i32,
    last_health: i32,
    inventory: Inventory,
    weapons: Vec<Handle>,
    current_weapon: u32,
    controller: InputController,
    weapon_change_direction: RequiredWeapon,
    model_yaw: SmoothAngle,
    spine_pitch: SmoothAngle,
    weapon_yaw_correction: SmoothAngle,
    weapon_pitch_correction: SmoothAngle,
    v_recoil: Recoil,
    h_recoil: Recoil,
    run_factor: u32,
    target_run_factor: u32,
    in_air_time: u32,
    had_ground_contact: bool,
    velocity: Vec3,
    target_velocity: Vec3,
}

/// The weapon kinds of the handles that still name a weapon, in order.
pub open spec fn kinds_of(handles: Seq<Handle>, weapons: Map<Handle, Weapon>) -> Seq<WeaponKind>
    decreases handles.len(),
{
    if handles.len() == 0 {
        Seq::empty()
    } else {
        let rest = kinds_of(handles.drop_last(), weapons);
        let h = handles.last();
        if weapons.contains_key(h) {
            rest.push(weapons[h].kind_spec())
        } else {
            rest
        }
    }
}

/// The number of events in `events` that carry `id`.
pub open spec fn signal_count(events: Seq<AnimationEvent>, id: u64) -> nat
    decreases events.len(),
{
    if events.len() == 0 {
        0
    } else {
        signal_count(events.drop_last(), id) + if events.last().signal_id == id {
            1nat
        } else {
            0nat
        }
    }
}

/// The model's turn, in degrees, for the walking directions held: toward
/// the direction of travel, and while aiming only far enough to keep the
/// weapon on target.
pub open spec fn model_angle(c: InputController) -> int {
    if c.aim {
        if c.walk_left {
            if c.walk_backward {
                -45
            } else {
                45
            }
        } else if c.walk_right {
            if c.walk_backward {
                45
            } else {
                -45
            }
        } else {
            0
        }
    } else if c.walk_left {
        if c.walk_forward {
            45
        } else if c.walk_backward {
            135
        } else {
            90
        }
    } else if c.walk_right {
        if c.walk_forward {
            -45
        } else if c.walk_backward {
            -135
        } else {
            -90
        }
    } else if c.walk_backward {
        180
    } else {
        0
    }
}

pub open spec fn walking(c: InputController) -> bool {
    c.walk_backward || c.walk_forward || c.walk_right || c.walk_left
}

pub open spec fn grenade_message(self_handle: Handle, position: Vec3, direction: Vec3) -> Message {
    Message::CreateProjectile {
        kind: ProjectileKind::Grenade,
        position,
        direction,
        initial_velocity: Vec3 {
            x: (direction.x * GRENADE_TOSS_SPEED) as i64,
            y: (direction.y * GRENADE_TOSS_SPEED) as i64,
            z: (direction.z * GRENADE_TOSS_SPEED) as i64,
        },
        shooter: Shooter::Actor(self_handle),
    }
}

pub open spec fn min_nat(a: nat, b: nat) -> nat {
    if a <= b {
        a
    } else {
        b
    }
}

/// The current weapon slot after a change request is carried out.
pub open spec fn changed_slot(current: u32, count: nat, change: RequiredWeapon) -> u32 {
    match change {
        RequiredWeapon::Next => if current < u32::MAX && current as int + 1 < count {
            (current + 1) as u32
        } else {
            current
        },
        RequiredWeapon::Previous => if current > 0 {
            (current - 1) as u32
        } else {
            current
        },
        _ => current,
    }
}

/// The equip request a weapon change sends when the grab clip signals: the
/// specific kind asked for, or the kind of the weapon in the slot that a
/// next or previous change moved to (none where the slot did not move or
/// its weapon no longer exists).
pub open spec fn grab_messages_of(
    change: RequiredWeapon,
    current: u32,
    handles: Seq<Handle>,
    weapons: Map<Handle, Weapon>,
    actor: Handle,
) -> Seq<Message> {
    match change {
        RequiredWeapon::Specific(kind) => seq![Message::GrabWeapon { kind, actor }],
        RequiredWeapon::NoChange => Seq::empty(),
        _ => {
            let s = changed_slot(current, handles.len(), change);
            if s != current && (s as int) < handles.len() && weapons.contains_key(handles[s as int]) {
                seq![Message::GrabWeapon { kind: weapons[handles[s as int]].kind_spec(), actor }]
            } else {
                Seq::empty()
            }
        },
    }
}

/// What a shot attempt leaves to the caller: whether the laser sight and the
/// ammo display show (and where), and the messages to send.
pub struct ShootingOutcome {
    pub sight_visible: Option<bool>,
    pub ammo_indicator_offset: Option<Vec3>,
    pub messages: Vec<Message>,
    pub shake_camera: bool,
}


/// Targets of the weapon-angle correction while not aiming, and while aiming
/// with no weapon in hand, in millidegrees.
pub const IDLE_YAW_CORRECTION: i32 = 30000;

pub const IDLE_PITCH_CORRECTION: i32 = 8000;

pub const BARE_YAW_CORRECTION: i32 = -4000;

pub const BARE_PITCH_CORRECTION: i32 = -12000;

/// An RGBA colour.
#[derive(Clone, Copy, PartialEq, Eq, Structural, Debug)]
pub struct Color {
    pub r: u8,
    pub g: u8,
    pub b: u8,
    pub a: u8,
}

/// Health clamped to the gradient's range, zero to a hundred.
pub open spec fn health_fraction(health: i32) -> int {
    if health < 0 {
        0
    } else if health > 100 {
        100
    } else {
        health as int
    }
}

/// The health display's colour: from red at no health to green at full,
/// translucent.
pub open spec fn health_color_of(health: i32) -> Color {
    Color {
        r: (255 * (100 - health_fraction(health)) / 100) as u8,
        g: (255 * health_fraction(health) / 100) as u8,
        b: 0,
        a: 200,
    }
}

/// Whether the weapon in hand fires this frame: aiming with the trigger
/// held, the weapon ready, and a shot's worth of ammo carried.
pub open spec fn fires(aiming: bool, c: InputController, w: Weapon, now: u64, ammo: nat) -> bool {
    let d = definition_of(w.kind_spec());
    &&& aiming
    &&& c.shoot
    &&& can_shoot_at(w.last_shot_time_spec(), d.shoot_interval_ms, now)
    &&& ammo >= d.ammo_consumption_per_shot
}

/// The targets of the weapon-angle correction, (yaw, pitch): the weapon's
/// own while aiming, or the bare-handed ones without a weapon; the idle ones
/// while not aiming.
pub open spec fn correction_targets(aim: bool, weapon: Option<Weapon>) -> (i32, i32) {
    if aim {
        match weapon {
            Some(w) => (definition_of(w.kind_spec()).yaw_correction, definition_of(w.kind_spec()).pitch_correction),
            None => (BARE_YAW_CORRECTION, BARE_PITCH_CORRECTION),
        }
    } else {
        (IDLE_YAW_CORRECTION, IDLE_PITCH_CORRECTION)
    }
}


/// What the host reports of the frame after the machines have advanced.
/// Vectors are unit vectors in thousandths, positions in millimetres.
#[derive(Clone, Copy, PartialEq, Eq, Structural, Debug)]
pub struct FrameInput {
    pub dt: u32,
    pub now: u64,
    pub has_ground_contact: bool,
    /// The locomotion machine plays its stun.
    pub stunned: bool,
    /// The locomotion machine is falling or landing.
    pub falling_or_landing: bool,
    /// The locomotion machine is in a jump transition or its jump state.
    pub in_jump: bool,
    /// The combat machine is in its aiming state.
    pub aiming: bool,
    pub look: Vec3,
    pub side: Vec3,
    pub position: Vec3,
    pub grenade_origin: Vec3,
    pub camera_look: Vec3,
    pub v_roll: u32,
    pub h_roll: u32,
}

/// The signals drained this frame from the clips the controller listens to.
pub struct FrameEvents {
    pub jump: Vec<AnimationEvent>,
    pub grab: Vec<AnimationEvent>,
    pub put_back: Vec<AnimationEvent>,
    pub toss_grenade: Vec<AnimationEvent>,
}

/// The rotations a moving or aiming character is given, in millidegrees.
#[derive(Clone, Copy, PartialEq, Eq, Structural, Debug)]
pub struct Pose {
    /// The body faces the camera's yaw.
    pub body_yaw: i64,
    /// The model's (or, while aiming, the hips') turn.
    pub model_yaw: i32,
    pub aiming: bool,
    pub hips_pitch: i32,
    /// Playback speed of the walk and run clips: backward while aiming and
    /// walking backward.
    pub walk_clip_speed: i32,
}

/// What one frame asks of the host.
pub struct FrameOutput {
    pub alive: bool,
    pub is_walking: bool,
    pub is_running: bool,
    /// Give the body the jump's vertical speed; otherwise keep its own.
    pub jump: bool,
    /// The body's horizontal velocity, in millimetres per second.
    pub velocity: Vec3,
    pub enable_grab_clip: bool,
    pub grab_messages: Vec<Message>,
    pub grenade_messages: Vec<Message>,
    pub pose: Option<Pose>,
    pub spine_pitch: i32,
    pub weapon_correction: Option<(i32, i32)>,
    pub rewind_land_clips: bool,
    pub items: Option<ItemCheck>,
    pub check_doors: bool,
    pub elevator_messages: Vec<Message>,
    pub shooting: Option<ShootingOutcome>,
    pub recoil: (i32, i32),
}

/// What the item check reports for an action flag `action`: nothing where
/// no item is in reach; otherwise the first one in reach is shown above
/// itself, and the action picks it up.
pub open spec fn item_check_result(items: Seq<ItemView>, position: Vec3, self_handle: Handle, action: bool, r: ItemCheck) -> bool {
    match first_near_item(items, position, 0) {
        None => r.messages@.len() == 0 && r.display_at is None,
        Some(i) => {
            let item = items[i];
            &&& r.display_at == Some(Vec3 { x: item.position.x, y: (item.position.y + 200) as i64, z: item.position.z })
            &&& r.messages@ == if action {
                seq![
                    Message::ShowItemDisplay { item: item.kind, count: item.stack_size },
                    Message::PickUpItem { actor: self_handle, item: item.handle },
                    Message::SyncInventory,
                ]
            } else {
                seq![Message::ShowItemDisplay { item: item.kind, count: item.stack_size }]
            }
        },
    }
}

/// The snapshot after the item check: the action is released where it
/// picked an item up.
pub open spec fn controller_after_items(items: Seq<ItemView>, position: Vec3, c: InputController) -> InputController {
    if first_near_item(items, position, 0) is Some && c.action {
        InputController { action: false, ..c }
    } else {
        c
    }
}

/// What a frame's shooting does with weapon handle `h` in hand, snapshot
/// `c`, `ammo` rounds and recoil `v0`, `h0`: the outcome `r`, the rounds
/// left `ammo1` and the recoil angles `v1`, `h1`.
pub open spec fn shooting_result(
    h: Handle,
    weapons: Map<Handle, Weapon>,
    c: InputController,
    ammo: nat,
    v0: Recoil,
    h0: Recoil,
    now: u64,
    dt: u32,
    aiming: bool,
    v_roll: u32,
    h_roll: u32,
    r: ShootingOutcome,
    ammo1: nat,
    v1: int,
    h1: int,
) -> bool {
    let decayed = v1 == crate::angle::decay(v0.angle as int, step_of(v0.speed, dt))
        && h1 == crate::angle::decay(h0.angle as int, step_of(h0.speed, dt));
    if weapons.contains_key(h) {
        let w = weapons[h];
        let d = definition_of(w.kind_spec());
        &&& r.sight_visible == Some(aiming)
        &&& r.ammo_indicator_offset == if aiming { Some(d.ammo_indicator_offset) } else { None::<Vec3> }
        &&& if fires(aiming, c, w, now, ammo) {
            &&& r.messages@ == seq![Message::ShootWeapon { weapon: h }]
            &&& r.shake_camera
            &&& ammo1 == ammo - d.ammo_consumption_per_shot
            &&& v1 == kick_of(d.v_recoil_min, d.v_recoil_max, v_roll)
            &&& h1 == kick_of(d.h_recoil_min, d.h_recoil_max, h_roll)
        } else {
            &&& r.messages@.len() == 0
            &&& !r.shake_camera
            &&& ammo1 == ammo
            &&& decayed
        }
    } else {
        &&& r.sight_visible is None
        &&& r.ammo_indicator_offset is None
        &&& r.messages@.len() == 0
        &&& !r.shake_camera
        &&& ammo1 == ammo
        &&& decayed
    }
}

/// The horizontal velocity after one easing step: see
/// [`Player::update_velocity`].
pub open spec fn velocity_after(c: InputController, can_move: bool, run_factor: u32, v: Vec3, look: Vec3, side: Vec3) -> Vec3 {
    let a = axis(c.walk_forward, c.walk_backward);
    let b = axis(c.walk_left, c.walk_right);
    let speed = ground_speed(can_move, run_factor);
    Vec3 {
        x: followed(v.x as int, scale_toward_zero(walk_direction(a, b, look.x as int, side.x as int), speed, 1000)) as i64,
        y: followed(v.y as int, scale_toward_zero(walk_direction(a, b, look.y as int, side.y as int), speed, 1000)) as i64,
        z: followed(v.z as int, scale_toward_zero(walk_direction(a, b, look.z as int, side.z as int), speed, 1000)) as i64,
    }
}

impl Player {
    pub closed spec fn health_spec(&self) -> i32 {
        self.health
    }

    pub closed spec fn last_health_spec(&self) -> i32 {
        self.last_health
    }

    pub closed spec fn inventory_spec(&self) -> Inventory {
        self.inventory
    }

    pub closed spec fn weapons_spec(&self) -> Seq<Handle> {
        self.weapons@
    }

    pub closed spec fn current_weapon_spec(&self) -> u32 {
        self.current_weapon
    }

    pub closed spec fn controller_spec(&self) -> InputController {
        self.controller
    }

    pub closed spec fn change_spec(&self) -> RequiredWeapon {
        self.weapon_change_direction
    }

    pub closed spec fn v_recoil_spec(&self) -> Recoil {
        self.v_recoil
    }

    pub closed spec fn h_recoil_spec(&self) -> Recoil {
        self.h_recoil
    }

    pub closed spec fn run_factor_spec(&self) -> u32 {
        self.run_factor
    }

    pub closed spec fn in_air_time_spec(&self) -> u32 {
        self.in_air_time
    }

    /// Whether the character touched the ground in the last frame it lived.
    pub closed spec fn had_ground_contact_spec(&self) -> bool {
        self.had_ground_contact
    }

    pub closed spec fn model_yaw_spec(&self) -> SmoothAngle {
        self.model_yaw
    }

    pub closed spec fn weapon_corrections_spec(&self) -> (SmoothAngle, SmoothAngle) {
        (self.weapon_yaw_correction, self.weapon_pitch_correction)
    }

    pub closed spec fn velocity_spec(&self) -> Vec3 {
        self.velocity
    }

    pub closed spec fn spine_pitch_spec(&self) -> SmoothAngle {
        self.spine_pitch
    }

    /// The state of the character's aim: spine pitch, weapon-angle
    /// corrections and recoil.
    pub open spec fn aim_spec(&self) -> (SmoothAngle, SmoothAngle, SmoothAngle, Recoil, Recoil) {
        (
            self.spine_pitch_spec(),
            self.weapon_corrections_spec().0,
            self.weapon_corrections_spec().1,
            self.v_recoil_spec(),
            self.h_recoil_spec(),
        )
    }

    /// The state of the character's movement: run factor, time in the air,
    /// velocity and model turn.
    pub open spec fn motion_spec(&self) -> (u32, u32, Vec3, SmoothAngle, bool) {
        (
            self.run_factor_spec(),
            self.in_air_time_spec(),
            self.velocity_spec(),
            self.model_yaw_spec(),
            self.had_ground_contact_spec(),
        )
    }

    pub open spec fn wf(&self) -> bool {
        &&& self.inventory_spec().wf()
        &&& self.run_factor_spec() <= 1000
        &&& velocity_ok(self.velocity_spec())
    }

    pub open spec fn is_dead_spec(&self) -> bool {
        self.health_spec() <= 0
    }

    /// The handle of the weapon in hand, or the handle that names nothing.
    pub open spec fn current_weapon_handle(&self) -> Handle {
        if (self.current_weapon_spec() as int) < self.weapons_spec().len() {
            self.weapons_spec()[self.current_weapon_spec() as int]
        } else {
            Handle { index: 0, generation: 0 }
        }
    }

    /// A character at the start of a level: from what it kept from the last
    /// one, or with full health, two medpacks, a hundred rounds and two
    /// grenades. `yaw` is the direction it faces, in millidegrees.
    pub fn new(persistent_data: Option<PlayerPersistentData>, weapons: Vec<Handle>, yaw: i64) -> (r: Player)
        requires
            persistent_data matches Some(d) ==> d.inventory.wf(),
        ensures
            r.wf(),
            r.weapons_spec() == weapons@,
            r.controller_spec() == (InputController {
                walk_forward: false,
                walk_backward: false,
                walk_left: false,
                walk_right: false,
                jump: false,
                yaw,
                pitch: 0,
                aim: false,
                toss_grenade: false,
                shoot: false,
                run: false,
                action: false,
                cursor_up: false,
                cursor_down: false,
            }),
            r.velocity_spec() == (Vec3 { x: 0, y: 0, z: 0 }),
            r.last_health_spec() == 100,
            r.change_spec() is NoChange,
            r.controller_spec().yaw == yaw,
            r.run_factor_spec() == 0,
            r.in_air_time_spec() == 0,
            r.v_recoil_spec().angle == 0,
            r.h_recoil_spec().angle == 0,
            persistent_data matches Some(d) ==> r.health_spec() == d.health && r.inventory_spec()
                == d.inventory && r.current_weapon_spec() == d.current_weapon,
            persistent_data is None ==> r.health_spec() == 100 && r.current_weapon_spec() == 0
                && r.inventory_spec().count(ItemKind::Medpack) == 2 && r.inventory_spec().count(
                ItemKind::Ammo,
            ) == 100 && r.inventory_spec().count(ItemKind::Grenade) == 2
                && r.inventory_spec().count(ItemKind::MasterKey) == 0,
    {
        let (health, inventory, current_weapon) = match persistent_data {
            Some(d) => (d.health, d.inventory, d.current_weapon),
            None => {
                let mut inventory = Inventory::new();
                inventory.add_item(ItemKind::Medpack, 2);
                inventory.add_item(ItemKind::Ammo, 100);
                inventory.add_item(ItemKind::Grenade, 2);
                (100, inventory, 0)
            },
        };
        Player {
            health,
            last_health: 100,
            inventory,
            weapons,
            current_weapon,
            controller: InputController::new(yaw),
            weapon_change_direction: RequiredWeapon::NoChange,
            model_yaw: SmoothAngle::new(0, 0, TURN_SPEED),
            spine_pitch: SmoothAngle::new(0, 0, TURN_SPEED),
            weapon_yaw_correction: SmoothAngle::new(0, 30000, TURN_SPEED),
            weapon_pitch_correction: SmoothAngle::new(0, 10000, TURN_SPEED),
            v_recoil: Recoil::new(RECOIL_SPEED),
            h_recoil: Recoil::new(RECOIL_SPEED),
            run_factor: 0,
            target_run_factor: 0,
            in_air_time: 0,
            had_ground_contact: true,
            velocity: Vec3::zero(),
            target_velocity: Vec3::zero(),
        }
    }

    /// What the character keeps for the next level: its inventory, health,
    /// weapon slot, and the kinds of its weapons that still exist.
    pub fn persistent_data(&self, weapons: &WeaponContainer) -> (r: PlayerPersistentData)
        requires
            self.wf(),
            weapons.wf(),
        ensures
            r.health == self.health_spec(),
            r.current_weapon == self.current_weapon_spec(),
            r.inventory.wf(),
            forall|k: ItemKind| r.inventory.count(k) == self.inventory_spec().count(k),
            r.weapons@ == kinds_of(self.weapons_spec(), weapons@),
    {
        let mut kinds: Vec<WeaponKind> = Vec::new();
        let mut i: usize = 0;
        while i < self.weapons.len()
            invariant
                weapons.wf(),
                i <= self.weapons@.len(),
                kinds@ == kinds_of(self.weapons@.take(i as int), weapons@),
            decreases self.weapons@.len() - i,
        {
            proof {
                assert(self.weapons@.take(i as int + 1).drop_last() =~= self.weapons@.take(i as int));
            }
            match weapons.try_get(self.weapons[i]) {
                Some(w) => kinds.push(w.kind()),
                None => {},
            }
            i = i + 1;
        }
        proof {
            assert(self.weapons@.take(self.weapons@.len() as int) =~= self.weapons@);
        }
        PlayerPersistentData {
            inventory: self.inventory.duplicate(),
            health: self.health,
            current_weapon: self.current_weapon,
            weapons: kinds,
        }
    }

    pub fn health(&self) -> (r: i32)
        ensures
            r == self.health_spec(),
    {
        self.health
    }

    pub fn last_health(&self) -> (r: i32)
        ensures
            r == self.last_health_spec(),
    {
        self.last_health
    }

    pub fn inventory(&self) -> (r: &Inventory)
        ensures
            *r == self.inventory_spec(),
    {
        &self.inventory
    }

    pub fn controller(&self) -> (r: &InputController)
        ensures
            *r == self.controller_spec(),
    {
        &self.controller
    }

    pub fn weapon_change_direction(&self) -> (r: RequiredWeapon)
        ensures
            r == self.change_spec(),
    {
        self.weapon_change_direction
    }

    pub fn current_weapon_index(&self) -> (r: u32)
        ensures
            r == self.current_weapon_spec(),
    {
        self.current_weapon
    }

    pub fn v_recoil(&self) -> (r: i32)
        ensures
            r == self.v_recoil_spec().angle,
    {
        self.v_recoil.angle
    }

    pub fn h_recoil(&self) -> (r: i32)
        ensures
            r == self.h_recoil_spec().angle,
    {
        self.h_recoil.angle
    }

    /// Takes `amount` of health, saturating at the lowest health there is.
    pub fn damage(&mut self, amount: u32)
        requires
            old(self).wf(),
        ensures
            final(self).wf(),
            final(self).health_spec() == if old(self).health_spec() - amount < i32::MIN {
                i32::MIN as int
            } else {
                old(self).health_spec() - amount
            },
            final(self).last_health_spec() == old(self).last_health_spec(),
            final(self).inventory_spec() == old(self).inventory_spec(),
    {
        self.health = if (self.health as i64) - (amount as i64) < i32::MIN as i64 {
            i32::MIN
        } else {
            (self.health as i64 - amount as i64) as i32
        };
    }

    pub fn is_dead(&self) -> (r: bool)
        ensures
            r == self.is_dead_spec(),
    {
        self.health <= 0
    }

    pub fn can_be_removed(&self) -> (r: bool)
        ensures
            r == self.is_dead_spec(),
    {
        self.health <= 0
    }

    pub fn current_weapon(&self) -> (r: Handle)
        ensures
            r == self.current_weapon_handle(),
    {
        if (self.current_weapon as usize) < self.weapons.len() {
            self.weapons[self.current_weapon as usize]
        } else {
            Handle::none()
        }
    }

    /// Whether health has dropped by the stun threshold since the last stun.
    pub fn should_be_stunned(&self) -> (r: bool)
        ensures
            r == (self.last_health_spec() - self.health_spec() >= STUN_HEALTH_DELTA),
    {
        self.last_health as i64 - self.health as i64 >= STUN_HEALTH_DELTA as i64
    }

    /// Records a stun: the health it happened at becomes the baseline for the
    /// next one. The caller rewinds and enables the hit-reaction clips.
    pub fn stun(&mut self)
        requires
            old(self).wf(),
        ensures
            final(self).wf(),
            final(self).last_health_spec() == old(self).health_spec(),
            final(self).health_spec() == old(self).health_spec(),
            final(self).inventory_spec() == old(self).inventory_spec(),
            final(self).controller_spec() == old(self).controller_spec(),
            final(self).change_spec() == old(self).change_spec(),
            final(self).weapons_spec() == old(self).weapons_spec(),
            final(self).current_weapon_spec() == old(self).current_weapon_spec(),
    {
        self.last_health = self.health;
    }

    pub fn is_walking(&self) -> (r: bool)
        ensures
            r == walking(self.controller_spec()),
    {
        self.controller.walk_backward || self.controller.walk_forward
            || self.controller.walk_right || self.controller.walk_left
    }

    /// Whether the character runs: alive, run held, not aiming, not stunned.
    pub fn is_running(&self, stunned: bool) -> (r: bool)
        ensures
            r == (!self.is_dead_spec() && self.controller_spec().run && !self.controller_spec().aim
                && !stunned),
    {
        !self.is_dead() && self.controller.run && !self.controller.aim && !stunned
    }

    /// Horizontal movement is applied except while the locomotion machine
    /// is falling or landing.
    pub fn can_move(falling_or_landing: bool) -> (r: bool)
        ensures
            r == !falling_or_landing,
    {
        !falling_or_landing
    }

    /// The model's turn angle, in degrees, for the directions held.
    pub fn calculate_model_angle(&self) -> (r: i32)
        ensures
            r == model_angle(self.controller_spec()),
    {
        let c = &self.controller;
        if c.aim {
            if c.walk_left {
                if c.walk_backward {
                    -45
                } else {
                    45
                }
            } else if c.walk_right {
                if c.walk_backward {
                    45
                } else {
                    -45
                }
            } else {
                0
            }
        } else if c.walk_left {
            if c.walk_forward {
                45
            } else if c.walk_backward {
                135
            } else {
                90
            }
        } else if c.walk_right {
            if c.walk_forward {
                -45
            } else if c.walk_backward {
                -135
            } else {
                -90
            }
        } else if c.walk_backward {
            180
        } else {
            0
        }
    }

    /// The pose family of the weapon in hand; rifle poses when there is none.
    pub fn current_weapon_kind(&self, weapons: &WeaponContainer) -> (r: CombatWeaponKind)
        requires
            weapons.wf(),
        ensures
            r == if weapons@.contains_key(self.current_weapon_handle()) {
                combat_kind_of(weapons@[self.current_weapon_handle()].kind_spec())
            } else {
                CombatWeaponKind::Rifle
            },
    {
        match weapons.try_get(self.current_weapon()) {
            Some(w) => match w.kind() {
                WeaponKind::Glock => CombatWeaponKind::Pistol,
                _ => CombatWeaponKind::Rifle,
            },
            None => CombatWeaponKind::Rifle,
        }
    }

    /// The inputs of both machines for this frame. A drop of health past the
    /// stun threshold stuns the character first; the locomotion machine
    /// never plays the stun itself.
    pub fn update_animation_machines(
        &mut self,
        is_walking: bool,
        is_jumping: bool,
        weapons: &WeaponContainer,
    ) -> (r: MachineInputs)
        requires
            old(self).wf(),
            weapons.wf(),
        ensures
            final(self).wf(),
            r.stunned == (old(self).last_health_spec() - old(self).health_spec() >= STUN_HEALTH_DELTA),
            final(self).last_health_spec() == if r.stunned {
                old(self).health_spec()
            } else {
                old(self).last_health_spec()
            },
            final(self).health_spec() == old(self).health_spec(),
            final(self).inventory_spec() == old(self).inventory_spec(),
            final(self).controller_spec() == old(self).controller_spec(),
            final(self).change_spec() == old(self).change_spec(),
            final(self).weapons_spec() == old(self).weapons_spec(),
            final(self).current_weapon_spec() == old(self).current_weapon_spec(),
            r.lower == (LowerBodyMachineInput {
                is_walking,
                is_jumping,
                has_ground_contact: old(self).in_air_time_spec() <= GROUND_GRACE_MS,
                run_factor: old(self).run_factor_spec(),
                is_dead: old(self).is_dead_spec(),
                should_be_stunned: false,
                weapon_kind: r.lower.weapon_kind,
            }),
            r.upper == (UpperBodyMachineInput {
                is_walking,
                is_jumping,
                has_ground_contact: old(self).in_air_time_spec() <= GROUND_GRACE_MS,
                is_aiming: old(self).controller_spec().aim,
                toss_grenade: old(self).controller_spec().toss_grenade,
                weapon_kind: r.lower.weapon_kind,
                change_weapon: !(old(self).change_spec() is NoChange),
                run_factor: old(self).run_factor_spec(),
                is_dead: old(self).is_dead_spec(),
                should_be_stunned: r.stunned,
            }),
            r.lower.weapon_kind == if weapons@.contains_key(old(self).current_weapon_handle()) {
                combat_kind_of(weapons@[old(self).current_weapon_handle()].kind_spec())
            } else {
                CombatWeaponKind::Rifle
            },
    {
        let weapon_kind = self.current_weapon_kind(weapons);
        let should_be_stunned = self.should_be_stunned();
        let has_ground_contact = self.in_air_time <= GROUND_GRACE_MS;
        let is_dead = self.is_dead();
        let run_factor = self.run_factor;
        let is_aiming = self.controller.aim;
        let toss_grenade = self.controller.toss_grenade;
        let change_weapon = !self.weapon_change_direction.is_none();
        if should_be_stunned {
            self.stun();
        }
        MachineInputs {
            lower: LowerBodyMachineInput {
                is_walking,
                is_jumping,
                has_ground_contact,
                run_factor,
                is_dead,
                should_be_stunned: false,
                weapon_kind,
            },
            upper: UpperBodyMachineInput {
                is_walking,
                is_jumping,
                has_ground_contact,
                is_aiming,
                toss_grenade,
                weapon_kind,
                change_weapon,
                run_factor,
                is_dead,
                should_be_stunned,
            },
            stunned: should_be_stunned,
        }
    }

    /// Whether the jump clip signalled the take-off while the locomotion
    /// machine is still jumping: `in_jump` is the machine's state when the
    /// events are drained, not when they were emitted.
    pub fn handle_jump_signal(events: &Vec<AnimationEvent>, in_jump: bool) -> (r: bool)
        ensures
            r == (in_jump && signal_count(events@, JUMP_SIGNAL) > 0),
    {
        let mut found = false;
        let mut i: usize = 0;
        while i < events.len()
            invariant
                i <= events@.len(),
                found == (signal_count(events@.take(i as int), JUMP_SIGNAL) > 0),
            decreases events@.len() - i,
        {
            proof {
                assert(events@.take(i as int + 1).drop_last() =~= events@.take(i as int));
            }
            if events[i].signal_id == JUMP_SIGNAL {
                found = true;
            }
            i = i + 1;
        }
        proof {
            assert(events@.take(events@.len() as int) =~= events@);
        }
        in_jump && found
    }

    /// Carries out the pending weapon change when the grab clip signals: the
    /// next or previous slot, or a message to grab a specific kind. The
    /// request is cleared.
    pub fn handle_weapon_grab_signal(
        &mut self,
        events: &Vec<AnimationEvent>,
        self_handle: Handle,
        weapons: &WeaponContainer,
    ) -> (r: Vec<Message>)
        requires
            old(self).wf(),
            weapons.wf(),
        ensures
            final(self).last_health_spec() == old(self).last_health_spec(),
            final(self).aim_spec() == old(self).aim_spec(),
            final(self).motion_spec() == old(self).motion_spec(),
            final(self).wf(),
            final(self).health_spec() == old(self).health_spec(),
            final(self).inventory_spec() == old(self).inventory_spec(),
            final(self).controller_spec() == old(self).controller_spec(),
            final(self).weapons_spec() == old(self).weapons_spec(),
            signal_count(events@, GRAB_WEAPON_SIGNAL) == 0 ==> final(self).change_spec() == old(
                self,
            ).change_spec() && final(self).current_weapon_spec() == old(self).current_weapon_spec()
                && r@.len() == 0,
            signal_count(events@, GRAB_WEAPON_SIGNAL) > 0 ==> final(self).change_spec() is NoChange
                && final(self).current_weapon_spec() == changed_slot(
                old(self).current_weapon_spec(),
                old(self).weapons_spec().len(),
                old(self).change_spec(),
            ) && r@ == grab_messages_of(
                old(self).change_spec(),
                old(self).current_weapon_spec(),
                old(self).weapons_spec(),
                weapons@,
                self_handle,
            ),
    {
        let mut messages: Vec<Message> = Vec::new();
        let mut i: usize = 0;
        while i < events.len()
            invariant
                self.last_health_spec() == old(self).last_health_spec(),
                weapons.wf(),
                self.aim_spec() == old(self).aim_spec(),
                self.motion_spec() == old(self).motion_spec(),
                self.wf(),
                i <= events@.len(),
                self.health_spec() == old(self).health_spec(),
                self.inventory_spec() == old(self).inventory_spec(),
                self.controller_spec() == old(self).controller_spec(),
                self.weapons_spec() == old(self).weapons_spec(),
                signal_count(events@.take(i as int), GRAB_WEAPON_SIGNAL) == 0 ==> self.change_spec()
                    == old(self).change_spec() && self.current_weapon_spec()
                    == old(self).current_weapon_spec() && messages@.len() == 0,
                signal_count(events@.take(i as int), GRAB_WEAPON_SIGNAL) > 0 ==> self.change_spec() is NoChange
                    && self.current_weapon_spec() == changed_slot(
                    old(self).current_weapon_spec(),
                    old(self).weapons_spec().len(),
                    old(self).change_spec(),
                ) && messages@ == grab_messages_of(
                    old(self).change_spec(),
                    old(self).current_weapon_spec(),
                    old(self).weapons_spec(),
                    weapons@,
                    self_handle,
                ),
            decreases events@.len() - i,
        {
            proof {
                assert(events@.take(i as int + 1).drop_last() =~= events@.take(i as int));
            }
            if events[i].signal_id == GRAB_WEAPON_SIGNAL {
                match self.weapon_change_direction {
                    RequiredWeapon::NoChange => {},
                    RequiredWeapon::Next => {
                        if self.current_weapon < u32::MAX && (self.current_weapon as usize)
                            < self.weapons.len() && (self.current_weapon as usize) + 1
                            < self.weapons.len() {
                            self.current_weapon = self.current_weapon + 1;
                            self.push_equip(&mut messages, self_handle, weapons);
                        }
                    },
                    RequiredWeapon::Previous => {
                        if self.current_weapon > 0 {
                            self.current_weapon = self.current_weapon - 1;
                            if (self.current_weapon as usize) < self.weapons.len() {
                                self.push_equip(&mut messages, self_handle, weapons);
                            }
                        }
                    },
                    RequiredWeapon::Specific(kind) => {
                        messages.push(Message::GrabWeapon { kind, actor: self_handle });
                    },
                }
                self.weapon_change_direction = RequiredWeapon::NoChange;
                proof {
                    assert(messages@ =~= grab_messages_of(
                        old(self).change_spec(),
                        old(self).current_weapon_spec(),
                        old(self).weapons_spec(),
                        weapons@,
                        self_handle,
                    ));
                }
            }
            i = i + 1;
        }
        proof {
            assert(events@.take(events@.len() as int) =~= events@);
        }
        messages
    }

    /// Appends the equip request for the weapon now in hand, if it exists.
    fn push_equip(&self, messages: &mut Vec<Message>, actor: Handle, weapons: &WeaponContainer)
        requires
            weapons.wf(),
            (self.current_weapon_spec() as int) < self.weapons_spec().len(),
        ensures
            final(messages)@ == old(messages)@ + if weapons@.contains_key(self.current_weapon_handle()) {
                seq![Message::GrabWeapon { kind: weapons@[self.current_weapon_handle()].kind_spec(), actor }]
            } else {
                Seq::<Message>::empty()
            },
    {
        match weapons.try_get(self.weapons[self.current_weapon as usize]) {
            Some(w) => messages.push(Message::GrabWeapon { kind: w.kind(), actor }),
            None => {},
        }
        proof {
            if weapons@.contains_key(self.current_weapon_handle()) {
                assert(final(messages)@ =~= old(messages)@ + seq![
                    Message::GrabWeapon { kind: weapons@[self.current_weapon_handle()].kind_spec(), actor },
                ]);
            } else {
                assert(final(messages)@ =~= old(messages)@ + Seq::<Message>::empty());
            }
        }
    }

    /// Whether the put-back clip signalled its end: the grab clip is then
    /// enabled again for the next change.
    pub fn handle_put_back_weapon_end_signal(events: &Vec<AnimationEvent>) -> (r: bool)
        ensures
            r == (signal_count(events@, PUT_BACK_WEAPON_END_SIGNAL) > 0),
    {
        let mut found = false;
        let mut i: usize = 0;
        while i < events.len()
            invariant
                i <= events@.len(),
                found == (signal_count(events@.take(i as int), PUT_BACK_WEAPON_END_SIGNAL) > 0),
            decreases events@.len() - i,
        {
            proof {
                assert(events@.take(i as int + 1).drop_last() =~= events@.take(i as int));
            }
            if events[i].signal_id == PUT_BACK_WEAPON_END_SIGNAL {
                found = true;
            }
            i = i + 1;
        }
        proof {
            assert(events@.take(events@.len() as int) =~= events@);
        }
        found
    }

    /// Each toss signal throws one grenade from `position` along the unit
    /// `direction`, while the inventory has one to take.
    pub fn handle_toss_grenade_signal(
        &mut self,
        events: &Vec<AnimationEvent>,
        self_handle: Handle,
        position: Vec3,
        direction: Vec3,
    ) -> (r: Vec<Message>)
        requires
            old(self).wf(),
            is_direction(direction),
        ensures
            final(self).last_health_spec() == old(self).last_health_spec(),
            final(self).aim_spec() == old(self).aim_spec(),
            final(self).motion_spec() == old(self).motion_spec(),
            final(self).wf(),
            r@.len() == min_nat(
                signal_count(events@, TOSS_GRENADE_SIGNAL),
                old(self).inventory_spec().count(ItemKind::Grenade),
            ),
            forall|i: int| 0 <= i < r@.len() ==> #[trigger] r@[i] == grenade_message(
                self_handle,
                position,
                direction,
            ),
            final(self).inventory_spec().count(ItemKind::Grenade) == old(self).inventory_spec().count(
                ItemKind::Grenade,
            ) - r@.len(),
            forall|k: ItemKind| k != ItemKind::Grenade ==> #[trigger] final(self).inventory_spec().count(k)
                == old(self).inventory_spec().count(k),
            final(self).health_spec() == old(self).health_spec(),
            final(self).controller_spec() == old(self).controller_spec(),
            final(self).change_spec() == old(self).change_spec(),
            final(self).weapons_spec() == old(self).weapons_spec(),
            final(self).current_weapon_spec() == old(self).current_weapon_spec(),
    {
        let mut messages: Vec<Message> = Vec::new();
        let mut i: usize = 0;
        while i < events.len()
            invariant
                self.last_health_spec() == old(self).last_health_spec(),
                self.aim_spec() == old(self).aim_spec(),
                self.motion_spec() == old(self).motion_spec(),
                self.wf(),
                is_direction(direction),
                i <= events@.len(),
                messages@.len() == min_nat(
                    signal_count(events@.take(i as int), TOSS_GRENADE_SIGNAL),
                    old(self).inventory_spec().count(ItemKind::Grenade),
                ),
                forall|j: int| 0 <= j < messages@.len() ==> #[trigger] messages@[j] == grenade_message(
                    self_handle,
                    position,
                    direction,
                ),
                self.inventory_spec().count(ItemKind::Grenade) == old(self).inventory_spec().count(
                    ItemKind::Grenade,
                ) - messages@.len(),
                forall|k: ItemKind| k != ItemKind::Grenade ==> #[trigger] self.inventory_spec().count(k)
                    == old(self).inventory_spec().count(k),
                self.health_spec() == old(self).health_spec(),
                self.controller_spec() == old(self).controller_spec(),
                self.change_spec() == old(self).change_spec(),
                self.weapons_spec() == old(self).weapons_spec(),
                self.current_weapon_spec() == old(self).current_weapon_spec(),
            decreases events@.len() - i,
        {
            proof {
                assert(events@.take(i as int + 1).drop_last() =~= events@.take(i as int));
            }
            if events[i].signal_id == TOSS_GRENADE_SIGNAL {
                if self.inventory.try_extract_exact_items(ItemKind::Grenade, 1) == 1 {
                    let velocity = Vec3 {
                        x: direction.x * GRENADE_TOSS_SPEED,
                        y: direction.y * GRENADE_TOSS_SPEED,
                        z: direction.z * GRENADE_TOSS_SPEED,
                    };
                    messages.push(
                        Message::CreateProjectile {
                            kind: ProjectileKind::Grenade,
                            position,
                            direction,
                            initial_velocity: velocity,
                            shooter: Shooter::Actor(self_handle),
                        },
                    );
                }
            }
            i = i + 1;
        }
        proof {
            assert(events@.take(events@.len() as int) =~= events@);
        }
        messages
    }

    /// Eases the horizontal velocity fifteen percent of the way toward the
    /// walking direction held, at walking speed scaled up by the run factor,
    /// or toward rest where movement is not allowed. `look` and `side` are
    /// the body's unit forward and left vectors.
    pub fn update_velocity(&mut self, can_move: bool, look: Vec3, side: Vec3)
        requires
            old(self).wf(),
            is_direction(look),
            is_direction(side),
        ensures
            final(self).last_health_spec() == old(self).last_health_spec(),
            final(self).in_air_time_spec() == old(self).in_air_time_spec(),
            final(self).had_ground_contact_spec() == old(self).had_ground_contact_spec(),
            final(self).model_yaw_spec() == old(self).model_yaw_spec(),
            final(self).wf(),
            final(self).velocity_spec() == velocity_after(
                old(self).controller_spec(),
                can_move,
                old(self).run_factor_spec(),
                old(self).velocity_spec(),
                look,
                side,
            ),
            final(self).aim_spec() == old(self).aim_spec(),
            final(self).health_spec() == old(self).health_spec(),
            final(self).inventory_spec() == old(self).inventory_spec(),
            final(self).controller_spec() == old(self).controller_spec(),
            final(self).change_spec() == old(self).change_spec(),
            final(self).weapons_spec() == old(self).weapons_spec(),
            final(self).current_weapon_spec() == old(self).current_weapon_spec(),
            final(self).run_factor_spec() == old(self).run_factor_spec(),
    {
        let a = step_axis(self.controller.walk_forward, self.controller.walk_backward);
        let b = step_axis(self.controller.walk_left, self.controller.walk_right);
        let speed: i64 = if can_move {
            assert(3 * MOVE_SPEED * self.run_factor <= 3 * MOVE_SPEED * 1000) by (nonlinear_arith)
                requires self.run_factor <= 1000;
            MOVE_SPEED + 3 * MOVE_SPEED * (self.run_factor as i64) / 1000
        } else {
            0
        };
        let target = Vec3 {
            x: target_component(walk_component(a, b, look.x, side.x), speed),
            y: target_component(walk_component(a, b, look.y, side.y), speed),
            z: target_component(walk_component(a, b, look.z, side.z), speed),
        };
        self.target_velocity = target;
        self.velocity = Vec3 {
            x: follow(self.velocity.x, target.x),
            y: follow(self.velocity.y, target.y),
            z: follow(self.velocity.z, target.z),
        };
    }

    /// The velocity, in millimetres per second, that the body is given.
    pub fn velocity(&self) -> (r: Vec3)
        ensures
            r == self.velocity_spec(),
    {
        self.velocity
    }

    /// The colour the health display shows.
    pub fn health_color(&self) -> (r: Color)
        ensures
            r == health_color_of(self.health_spec()),
    {
        let t: u32 = if self.health < 0 {
            0
        } else if self.health > 100 {
            100
        } else {
            self.health as u32
        };
        Color { r: (255 * (100 - t) / 100) as u8, g: (255 * t / 100) as u8, b: 0, a: 200 }
    }

    /// Looks for the first item in reach: it is shown on the item display,
    /// and the action picks it up (once: the action is then released).
    pub fn check_items(&mut self, self_handle: Handle, position: Vec3, items: &Vec<ItemView>) -> (r: ItemCheck)
        requires
            old(self).wf(),
            in_world(position),
            forall|i: int| 0 <= i < items@.len() ==> in_world(#[trigger] items@[i].position),
        ensures
            final(self).last_health_spec() == old(self).last_health_spec(),
            final(self).motion_spec() == old(self).motion_spec(),
            final(self).wf(),
            item_check_result(items@, position, self_handle, old(self).controller_spec().action, r),
            final(self).controller_spec() == controller_after_items(items@, position, old(self).controller_spec()),
            final(self).aim_spec() == old(self).aim_spec(),
            final(self).health_spec() == old(self).health_spec(),
            final(self).inventory_spec() == old(self).inventory_spec(),
            final(self).change_spec() == old(self).change_spec(),
            final(self).weapons_spec() == old(self).weapons_spec(),
            final(self).current_weapon_spec() == old(self).current_weapon_spec(),
    {
        let mut i: usize = 0;
        while i < items.len()
            invariant
                *self == *old(self),
                self.wf(),
                i <= items@.len(),
                in_world(position),
                forall|j: int| 0 <= j < items@.len() ==> in_world(#[trigger] items@[j].position),
                first_near_item(items@, position, 0) == first_near_item(items@, position, i as nat),
            decreases items@.len() - i,
        {
            let item = items[i];
            if item.position.is_within(&position, INTERACTION_RADIUS) {
                let mut messages: Vec<Message> = Vec::new();
                messages.push(Message::ShowItemDisplay { item: item.kind, count: item.stack_size });
                if self.controller.action {
                    messages.push(Message::PickUpItem { actor: self_handle, item: item.handle });
                    messages.push(Message::SyncInventory);
                    self.controller.action = false;
                    assert(messages@ =~= seq![
                        Message::ShowItemDisplay { item: item.kind, count: item.stack_size },
                        Message::PickUpItem { actor: self_handle, item: item.handle },
                        Message::SyncInventory,
                    ]);
                } else {
                    assert(messages@ =~= seq![Message::ShowItemDisplay { item: item.kind, count: item.stack_size }]);
                }
                return ItemCheck {
                    messages,
                    display_at: Some(Vec3 { x: item.position.x, y: item.position.y + 200, z: item.position.z }),
                };
            }
            i = i + 1;
        }
        ItemCheck { messages: Vec::new(), display_at: None }
    }

    /// Whether doors are to be checked for this character: only while the
    /// action is held.
    pub fn check_doors(&self) -> (r: bool)
        ensures
            r == self.controller_spec().action,
    {
        self.controller.action
    }

    /// The messages that elevators and their call buttons in reach get from
    /// this character, elevator by elevator. A call uses up the action: it
    /// is released, so holding it does not call again.
    pub fn check_elevators(&mut self, position: Vec3, elevators: &Vec<ElevatorView>) -> (r: Vec<Message>)
        requires
            old(self).wf(),
            in_world(position),
            all_in_world(elevators@),
        ensures
            r@ == elevators_messages(elevators@, position, old(self).controller_spec()),
            final(self).controller_spec() == controller_after_calls(old(self).controller_spec(), r@),
            final(self).wf(),
            final(self).motion_spec() == old(self).motion_spec(),
            final(self).aim_spec() == old(self).aim_spec(),
            final(self).health_spec() == old(self).health_spec(),
            final(self).last_health_spec() == old(self).last_health_spec(),
            final(self).inventory_spec() == old(self).inventory_spec(),
            final(self).change_spec() == old(self).change_spec(),
            final(self).weapons_spec() == old(self).weapons_spec(),
            final(self).current_weapon_spec() == old(self).current_weapon_spec(),
    {
        let out = self.elevator_messages(position, elevators);
        if calls_elevator(&out) {
            self.controller.action = false;
        }
        out
    }

    fn elevator_messages(&self, position: Vec3, elevators: &Vec<ElevatorView>) -> (r: Vec<Message>)
        requires
            in_world(position),
            all_in_world(elevators@),
        ensures
            r@ == elevators_messages(elevators@, position, self.controller_spec()),
    {
        let c = &self.controller;
        let mut out: Vec<Message> = Vec::new();
        let mut i: usize = 0;
        while i < elevators.len()
            invariant
                i <= elevators@.len(),
                in_world(position),
                all_in_world(elevators@),
                *c == self.controller_spec(),
                out@ == elevators_messages(elevators@.take(i as int), position, *c),
            decreases elevators@.len() - i,
        {
            let e = &elevators[i];
            proof {
                assert(elevators@.take(i as int + 1).drop_last() =~= elevators@.take(i as int));
                assert(in_world(elevators@[i as int].position));
            }
            let start = out.len();
            let near = e.position.is_within(&position, INTERACTION_RADIUS);
            if near && c.action {
                let top = if e.floor_count > 0 { e.floor_count - 1 } else { 0 };
                if e.current_floor == top {
                    out.push(Message::CallElevator { elevator: e.handle, floor: 0 });
                } else if e.current_floor == 0 {
                    out.push(Message::CallElevator { elevator: e.handle, floor: top });
                }
            }
            let ghost after_call = out@;
            assert(after_call =~= elevators_messages(elevators@.take(i as int), position, *c) + elevator_call(e.handle, e.current_floor, e.floor_count, near, c.action));
            let mut j: usize = 0;
            while j < e.call_buttons.len()
                invariant
                    j <= e.call_buttons@.len(),
                    in_world(position),
                    forall|k: int| 0 <= k < e.call_buttons@.len() ==> in_world(#[trigger] e.call_buttons@[k].position),
                    out@ == after_call + buttons_messages(e.handle, e.floor_count, e.call_buttons@.take(j as int), position, *c),
                decreases e.call_buttons@.len() - j,
            {
                let b = e.call_buttons[j];
                proof {
                    assert(e.call_buttons@.take(j as int + 1).drop_last() =~= e.call_buttons@.take(j as int));
                    assert(e.call_buttons@.take(j as int + 1).last() == b);
                }
                let ghost before = out@;
                if b.position.is_within(&position, INTERACTION_RADIUS) {
                    match b.kind {
                        CallButtonKind::FloorSelector => {
                            if c.cursor_down {
                                let f = if b.floor > 0 { b.floor - 1 } else { 0 };
                                out.push(Message::SetCallButtonFloor { call_button: b.handle, floor: f });
                            } else if c.cursor_up {
                                let up = if b.floor < u32::MAX { b.floor + 1 } else { b.floor };
                                let top = if e.floor_count > 0 { e.floor_count - 1 } else { 0 };
                                let f = if up < top { up } else { top };
                                out.push(Message::SetCallButtonFloor { call_button: b.handle, floor: f });
                            }
                        },
                        CallButtonKind::RequestElevator => {},
                    }
                    if c.action {
                        out.push(Message::CallElevator { elevator: e.handle, floor: b.floor });
                    }
                }
                proof {
                    let bm = button_messages(e.handle, e.floor_count, b, is_near(b.position, position), *c);
                    assert(out@ =~= before + bm);
                    assert(out@ =~= after_call + buttons_messages(e.handle, e.floor_count, e.call_buttons@.take(j as int + 1), position, *c));
                }
                j = j + 1;
            }
            proof {
                assert(e.call_buttons@.take(e.call_buttons@.len() as int) =~= e.call_buttons@);
                assert(elevators@.take(i as int + 1).last() == *e);
                assert(out@ =~= elevators_messages(elevators@.take(i as int + 1), position, *c));
            }
            i = i + 1;
        }
        proof {
            assert(elevators@.take(elevators@.len() as int) =~= elevators@);
        }
        out
    }


    /// Decays the recoil, shows or hides the laser sight and ammo display by
    /// whether the combat machine is aiming, and fires the weapon in hand
    /// when the trigger is held, the weapon is ready and a shot's ammo can be
    /// taken whole. A shot kicks both recoil angles to fresh values drawn by
    /// `v_roll` and `h_roll` from the weapon's ranges. A weapon handle that
    /// no longer names a weapon disables all of this for the frame.
    pub fn update_shooting(
        &mut self,
        weapons: &WeaponContainer,
        now: u64,
        dt: u32,
        aiming: bool,
        v_roll: u32,
        h_roll: u32,
    ) -> (r: ShootingOutcome)
        requires
            old(self).wf(),
            weapons.wf(),
        ensures
            final(self).last_health_spec() == old(self).last_health_spec(),
            final(self).motion_spec() == old(self).motion_spec(),
            final(self).wf(),
            final(self).health_spec() == old(self).health_spec(),
            final(self).controller_spec() == old(self).controller_spec(),
            final(self).change_spec() == old(self).change_spec(),
            final(self).weapons_spec() == old(self).weapons_spec(),
            final(self).current_weapon_spec() == old(self).current_weapon_spec(),
            shooting_result(
                old(self).current_weapon_handle(),
                weapons@,
                old(self).controller_spec(),
                old(self).inventory_spec().count(ItemKind::Ammo),
                old(self).v_recoil_spec(),
                old(self).h_recoil_spec(),
                now,
                dt,
                aiming,
                v_roll,
                h_roll,
                r,
                final(self).inventory_spec().count(ItemKind::Ammo),
                final(self).v_recoil_spec().angle as int,
                final(self).h_recoil_spec().angle as int,
            ),
            final(self).spine_pitch_spec() == old(self).spine_pitch_spec(),
            final(self).weapon_corrections_spec() == old(self).weapon_corrections_spec(),
            forall|k: ItemKind| k != ItemKind::Ammo ==> #[trigger] final(self).inventory_spec().count(k)
                == old(self).inventory_spec().count(k),
    {
        self.v_recoil.update(dt);
        self.h_recoil.update(dt);
        let h = self.current_weapon();
        let weapon = match weapons.try_get(h) {
            Some(w) => w,
            None => {
                return ShootingOutcome {
                    sight_visible: None,
                    ammo_indicator_offset: None,
                    messages: Vec::new(),
                    shake_camera: false,
                };
            },
        };
        let definition = Weapon::definition(weapon.kind());
        if !aiming {
            return ShootingOutcome {
                sight_visible: Some(false),
                ammo_indicator_offset: None,
                messages: Vec::new(),
                shake_camera: false,
            };
        }
        let mut messages: Vec<Message> = Vec::new();
        let mut shake_camera = false;
        if self.controller.shoot && weapon.can_shoot(now) {
            let ammo_per_shot = definition.ammo_consumption_per_shot;
            if self.inventory.try_extract_exact_items(ItemKind::Ammo, ammo_per_shot) == ammo_per_shot {
                messages.push(Message::ShootWeapon { weapon: h });
                shake_camera = true;
                self.v_recoil.kick(definition.v_recoil_min, definition.v_recoil_max, v_roll);
                self.h_recoil.kick(definition.h_recoil_min, definition.h_recoil_max, h_roll);
            }
        }
        ShootingOutcome {
            sight_visible: Some(true),
            ammo_indicator_offset: Some(definition.ammo_indicator_offset),
            messages,
            shake_camera,
        }
    }

    /// Sets the weapon-angle correction's targets for the aim state and, where
    /// movement is allowed, eases both angles for `dt` milliseconds and
    /// returns them, (yaw, pitch), for the weapon pivot.
    pub fn apply_weapon_angular_correction(&mut self, can_move: bool, dt: u32, weapons: &WeaponContainer) -> (r: Option<(i32, i32)>)
        requires
            old(self).wf(),
            weapons.wf(),
        ensures
            final(self).last_health_spec() == old(self).last_health_spec(),
            final(self).spine_pitch_spec() == old(self).spine_pitch_spec(),
            final(self).v_recoil_spec() == old(self).v_recoil_spec(),
            final(self).h_recoil_spec() == old(self).h_recoil_spec(),
            final(self).motion_spec() == old(self).motion_spec(),
            final(self).wf(),
            ({
                let h = old(self).current_weapon_handle();
                let w = if weapons@.contains_key(h) { Some(weapons@[h]) } else { None::<Weapon> };
                let (ty, tp) = correction_targets(old(self).controller_spec().aim, w);
                let (y0, p0) = old(self).weapon_corrections_spec();
                let (y1, p1) = final(self).weapon_corrections_spec();
                &&& y1.target == if can_move { wrapped(ty as int) as i32 } else { ty }
                &&& p1.target == if can_move { wrapped(tp as int) as i32 } else { tp }
                &&& if can_move {
                    &&& y1.angle == turned(y0.angle as int, ty as int, step_of(y0.speed, dt))
                    &&& p1.angle == turned(p0.angle as int, tp as int, step_of(p0.speed, dt))
                    &&& r == Some((y1.angle, p1.angle))
                } else {
                    &&& y1.angle == y0.angle
                    &&& p1.angle == p0.angle
                    &&& r is None
                }
            }),
            final(self).health_spec() == old(self).health_spec(),
            final(self).inventory_spec() == old(self).inventory_spec(),
            final(self).controller_spec() == old(self).controller_spec(),
            final(self).change_spec() == old(self).change_spec(),
            final(self).weapons_spec() == old(self).weapons_spec(),
            final(self).current_weapon_spec() == old(self).current_weapon_spec(),
    {
        let (yaw, pitch) = if self.controller.aim {
            match weapons.try_get(self.current_weapon()) {
                Some(w) => {
                    let d = Weapon::definition(w.kind());
                    (d.yaw_correction, d.pitch_correction)
                },
                None => (BARE_YAW_CORRECTION, BARE_PITCH_CORRECTION),
            }
        } else {
            (IDLE_YAW_CORRECTION, IDLE_PITCH_CORRECTION)
        };
        self.weapon_yaw_correction.set_target(yaw);
        self.weapon_pitch_correction.set_target(pitch);
        if can_move {
            self.weapon_yaw_correction.update(dt);
            self.weapon_pitch_correction.update(dt);
            Some((self.weapon_yaw_correction.angle(), self.weapon_pitch_correction.angle()))
        } else {
            None
        }
    }


    /// Folds one raw input event into the snapshot. Pointer motion turns the
    /// view; a button resolves through the scheme's bindings to a logical
    /// action, which sets its flag, requests a weapon change, or asks the
    /// host for effects. A weapon change request also restarts the clips of
    /// the change. A new request replaces one still pending, so the last
    /// request wins; with none pending, a change waits for the grab clip to
    /// have ended.
    pub fn process_input_event(
        &mut self,
        event: RawInput,
        dt: u32,
        scheme: &ControlScheme,
        ctx: InputContext,
        weapons: &WeaponContainer,
    ) -> (r: Vec<InputEffect>)
        requires
            old(self).wf(),
            weapons.wf(),
        ensures
            final(self).last_health_spec() == old(self).last_health_spec(),
            final(self).motion_spec() == old(self).motion_spec(),
            final(self).aim_spec() == old(self).aim_spec(),
            final(self).wf(),
            final(self).health_spec() == old(self).health_spec(),
            final(self).inventory_spec() == old(self).inventory_spec(),
            final(self).weapons_spec() == old(self).weapons_spec(),
            final(self).current_weapon_spec() == old(self).current_weapon_spec(),
            ({
                let h = old(self).current_weapon_handle();
                let current = if weapons@.contains_key(h) { Some(weapons@[h].kind_spec()) } else { None::<WeaponKind> };
                let can_change = (!(old(self).change_spec() is NoChange) || ctx.grab_ended)
                    && old(self).weapons_spec().len() > 1;
                match event {
                    RawInput::MouseMotion { dx, dy } => {
                        &&& final(self).controller_spec() == moved(old(self).controller_spec(), dx, dy, dt, scheme.mouse_sens, scheme.mouse_y_inverse)
                        &&& final(self).change_spec() == old(self).change_spec()
                        &&& r@.len() == 0
                    },
                    _ => match decoded(event) {
                        None => {
                            &&& final(self).controller_spec() == old(self).controller_spec()
                            &&& final(self).change_spec() == old(self).change_spec()
                            &&& r@.len() == 0
                        },
                        Some((button, state)) => match bound_action(scheme.bindings@, button, 0) {
                            None => {
                                &&& final(self).controller_spec() == old(self).controller_spec()
                                &&& final(self).change_spec() == old(self).change_spec()
                                &&& r@.len() == 0
                            },
                            Some(action) => {
                                let pressed = state == ElementState::Pressed;
                                let grenades = old(self).inventory_spec().count(ItemKind::Grenade);
                                let c2 = controller_after(old(self).controller_spec(), action, pressed, ctx, grenades);
                                let change = change_after(
                                    action,
                                    pressed,
                                    can_change,
                                    current,
                                    old(self).current_weapon_spec(),
                                    old(self).weapons_spec().len(),
                                );
                                let effects = effects_after(old(self).controller_spec(), action, pressed, ctx, grenades, h);
                                &&& final(self).controller_spec() == c2
                                &&& change matches Some(d) ==> final(self).change_spec() == d
                                    && r@ == effects.push(InputEffect::RestartWeaponChangeClips)
                                &&& change is None ==> final(self).change_spec() == old(self).change_spec()
                                    && r@ == effects
                            },
                        },
                    },
                }
            }),
    {
        if let RawInput::MouseMotion { dx, dy } = event {
            self.controller.apply_mouse_motion(dx, dy, dt, scheme);
            return Vec::new();
        }
        let (button, state) = match decode(event) {
            Some(p) => p,
            None => return Vec::new(),
        };
        let action = match scheme.resolve(button) {
            Some(a) => a,
            None => return Vec::new(),
        };
        let pressed = state == ElementState::Pressed;
        let can_change = (!self.weapon_change_direction.is_none() || ctx.grab_ended) && self.weapons.len() > 1;
        let current = match weapons.try_get(self.current_weapon()) {
            Some(w) => Some(w.kind()),
            None => None,
        };
        let grenades = self.inventory.item_count(ItemKind::Grenade);
        let weapon = self.current_weapon();
        let mut effects = action_effects(&self.controller, action, pressed, ctx, grenades, weapon);
        let change = requested_change(action, pressed, can_change, current, self.current_weapon, self.weapons.len());
        self.controller = flags_after(self.controller, action, pressed, ctx, grenades);
        if let Some(d) = change {
            self.weapon_change_direction = d;
            effects.push(InputEffect::RestartWeaponChangeClips);
        }
        effects
    }

    /// Runs one frame of the character. A dead character is frozen in place
    /// and plays its dying clips. A living one eases its run factor, moves,
    /// consumes the drained signals (jump, weapon grab, put-back end, grenade
    /// toss), turns toward its walking direction or aim, tracks its time in
    /// the air, and checks items, doors, elevators and its weapon.
    #[verifier::rlimit(100)]
    pub fn update(
        &mut self,
        self_handle: Handle,
        frame: &FrameInput,
        events: &FrameEvents,
        weapons: &WeaponContainer,
        items: &Vec<ItemView>,
        elevators: &Vec<ElevatorView>,
    ) -> (r: FrameOutput)
        requires
            old(self).wf(),
            weapons.wf(),
            is_direction(frame.look),
            is_direction(frame.side),
            is_direction(frame.camera_look),
            in_world(frame.position),
            forall|i: int| 0 <= i < items@.len() ==> in_world(#[trigger] items@[i].position),
            all_in_world(elevators@),
        ensures
            final(self).wf(),
            final(self).health_spec() == old(self).health_spec(),
            r.alive == !old(self).is_dead_spec(),
            r.is_walking == walking(old(self).controller_spec()),
            r.is_running == (!old(self).is_dead_spec() && old(self).controller_spec().run
                && !old(self).controller_spec().aim && !frame.stunned),
            old(self).is_dead_spec() ==> {
                &&& r.velocity == Vec3 { x: 0, y: 0, z: 0 }
                &&& !r.jump
                &&& r.grab_messages@.len() == 0
                &&& r.grenade_messages@.len() == 0
                &&& r.elevator_messages@.len() == 0
                &&& r.items is None
                &&& r.shooting is None
                &&& r.pose is None
                &&& final(self).inventory_spec() == old(self).inventory_spec()
                &&& final(self).controller_spec() == old(self).controller_spec()
                &&& final(self).motion_spec() == old(self).motion_spec()
                &&& final(self).aim_spec() == old(self).aim_spec()
                &&& final(self).last_health_spec() == old(self).last_health_spec()
                &&& final(self).change_spec() == old(self).change_spec()
                &&& final(self).weapons_spec() == old(self).weapons_spec()
                &&& final(self).current_weapon_spec() == old(self).current_weapon_spec()
            },
            !old(self).is_dead_spec() ==> {
                &&& final(self).run_factor_spec() == eased(
                    old(self).run_factor_spec(),
                    if r.is_running { 1000u32 } else { 0u32 },
                )
                &&& r.velocity == final(self).velocity_spec()
                &&& r.jump == (frame.in_jump && signal_count(events.jump@, JUMP_SIGNAL) > 0)
                &&& r.enable_grab_clip == (signal_count(events.put_back@, PUT_BACK_WEAPON_END_SIGNAL) > 0)
                &&& (signal_count(events.grab@, GRAB_WEAPON_SIGNAL) > 0 ==> final(self).change_spec() is NoChange)
                &&& r.grenade_messages@.len() == min_nat(
                    signal_count(events.toss_grenade@, TOSS_GRENADE_SIGNAL),
                    old(self).inventory_spec().count(ItemKind::Grenade),
                )
                &&& final(self).inventory_spec().count(ItemKind::Grenade) == old(self).inventory_spec().count(
                    ItemKind::Grenade,
                ) - r.grenade_messages@.len()
                &&& final(self).controller_spec() == controller_after_calls(
                    controller_after_items(items@, frame.position, old(self).controller_spec()),
                    r.elevator_messages@,
                )
                &&& final(self).weapons_spec() == old(self).weapons_spec()
                &&& final(self).current_weapon_spec() == if signal_count(events.grab@, GRAB_WEAPON_SIGNAL) > 0 {
                    changed_slot(old(self).current_weapon_spec(), old(self).weapons_spec().len(), old(self).change_spec())
                } else {
                    old(self).current_weapon_spec()
                }
                &&& (signal_count(events.grab@, GRAB_WEAPON_SIGNAL) == 0 ==> final(self).change_spec() == old(self).change_spec())
                &&& final(self).last_health_spec() == old(self).last_health_spec()
                &&& (forall|k: ItemKind| k != ItemKind::Grenade && k != ItemKind::Ammo ==> #[trigger] final(self).inventory_spec().count(k)
                    == old(self).inventory_spec().count(k))
                &&& r.rewind_land_clips == (old(self).had_ground_contact_spec() && !frame.has_ground_contact)
                &&& final(self).had_ground_contact_spec() == frame.has_ground_contact
                &&& (signal_count(events.grab@, GRAB_WEAPON_SIGNAL) == 0 ==> r.grab_messages@.len() == 0)
                &&& (signal_count(events.grab@, GRAB_WEAPON_SIGNAL) > 0 ==> r.grab_messages@ == grab_messages_of(
                    old(self).change_spec(),
                    old(self).current_weapon_spec(),
                    old(self).weapons_spec(),
                    weapons@,
                    self_handle,
                ))
                &&& (forall|i: int| 0 <= i < r.grenade_messages@.len() ==> #[trigger] r.grenade_messages@[i]
                    == grenade_message(self_handle, frame.grenade_origin, frame.camera_look))
                &&& (r.items matches Some(c) ==> item_check_result(
                    items@,
                    frame.position,
                    self_handle,
                    old(self).controller_spec().action,
                    c,
                ))
                &&& r.elevator_messages@ == elevators_messages(
                    elevators@,
                    frame.position,
                    controller_after_items(items@, frame.position, old(self).controller_spec()),
                )
                &&& (r.shooting matches Some(o) ==> shooting_result(
                    final(self).current_weapon_handle(),
                    weapons@,
                    controller_after_items(items@, frame.position, old(self).controller_spec()),
                    old(self).inventory_spec().count(ItemKind::Ammo),
                    old(self).v_recoil_spec(),
                    old(self).h_recoil_spec(),
                    frame.now,
                    frame.dt,
                    frame.aiming,
                    frame.v_roll,
                    frame.h_roll,
                    o,
                    final(self).inventory_spec().count(ItemKind::Ammo),
                    final(self).v_recoil_spec().angle as int,
                    final(self).h_recoil_spec().angle as int,
                ))
                &&& final(self).velocity_spec() == velocity_after(
                    old(self).controller_spec(),
                    !frame.falling_or_landing,
                    final(self).run_factor_spec(),
                    old(self).velocity_spec(),
                    frame.look,
                    frame.side,
                )
                &&& r.spine_pitch == final(self).spine_pitch_spec().angle
                &&& final(self).spine_pitch_spec().angle == turned(
                    old(self).spine_pitch_spec().angle as int,
                    if old(self).controller_spec().aim { old(self).controller_spec().pitch as int } else { 0int },
                    step_of(old(self).spine_pitch_spec().speed, frame.dt),
                )
                &&& ({
                    let h = final(self).current_weapon_handle();
                    let w = if weapons@.contains_key(h) { Some(weapons@[h]) } else { None::<Weapon> };
                    let (ty, tp) = correction_targets(old(self).controller_spec().aim, w);
                    let (y0, p0) = old(self).weapon_corrections_spec();
                    r.weapon_correction == if frame.falling_or_landing {
                        None::<(i32, i32)>
                    } else {
                        Some((
                            turned(y0.angle as int, ty as int, step_of(y0.speed, frame.dt)) as i32,
                            turned(p0.angle as int, tp as int, step_of(p0.speed, frame.dt)) as i32,
                        ))
                    }
                })
                &&& (r.pose is None ==> final(self).model_yaw_spec() == old(self).model_yaw_spec())
                &&& (r.pose is Some ==> final(self).model_yaw_spec().angle == turned(
                    old(self).model_yaw_spec().angle as int,
                    model_angle(old(self).controller_spec()) * 1000,
                    step_of(old(self).model_yaw_spec().speed, frame.dt),
                ))
                &&& final(self).in_air_time_spec() == if frame.has_ground_contact {
                    0
                } else if old(self).in_air_time_spec() as int + frame.dt as int > u32::MAX {
                    u32::MAX
                } else {
                    (old(self).in_air_time_spec() + frame.dt) as u32
                }
                &&& (r.pose is Some <==> (!frame.falling_or_landing && (walking(old(self).controller_spec())
                    || old(self).controller_spec().aim)))
                &&& (r.pose matches Some(p) ==> p.body_yaw == old(self).controller_spec().yaw
                    && p.aiming == old(self).controller_spec().aim
                    && p.walk_clip_speed == if old(self).controller_spec().aim
                        && old(self).controller_spec().walk_backward { -1i32 } else { 1i32 }
                    && final(self).model_yaw_spec().target == wrapped(model_angle(old(self).controller_spec()) * 1000)
                    && p.model_yaw == final(self).model_yaw_spec().angle)
                &&& r.items is Some
                &&& r.check_doors == old(self).controller_spec().action
                &&& r.shooting is Some
                &&& r.recoil == (final(self).v_recoil_spec().angle, final(self).h_recoil_spec().angle)
            },
    {
        let is_walking = self.is_walking();
        let is_running = self.is_running(frame.stunned);
        if self.is_dead() {
            return FrameOutput {
                alive: false,
                is_walking,
                is_running,
                jump: false,
                velocity: Vec3::zero(),
                enable_grab_clip: false,
                grab_messages: Vec::new(),
                grenade_messages: Vec::new(),
                pose: None,
                spine_pitch: self.spine_pitch.angle(),
                weapon_correction: None,
                rewind_land_clips: false,
                items: None,
                check_doors: false,
                elevator_messages: Vec::new(),
                shooting: None,
                recoil: (self.v_recoil.angle(), self.h_recoil.angle()),
            };
        }
        let check_doors = self.check_doors();
        self.target_run_factor = if is_running { 1000 } else { 0 };
        self.run_factor = ease(self.run_factor, self.target_run_factor);
        let can_move = Player::can_move(frame.falling_or_landing);
        self.update_velocity(can_move, frame.look, frame.side);
        let jump = Player::handle_jump_signal(&events.jump, frame.in_jump);
        let grab_messages = self.handle_weapon_grab_signal(&events.grab, self_handle, weapons);
        let enable_grab_clip = Player::handle_put_back_weapon_end_signal(&events.put_back);
        let grenade_messages = self.handle_toss_grenade_signal(
            &events.toss_grenade,
            self_handle,
            frame.grenade_origin,
            frame.camera_look,
        );
        let pitch_target = if self.controller.aim { self.controller.pitch } else { 0 };
        self.spine_pitch.set_target(pitch_target);
        self.spine_pitch.update(frame.dt);
        let pose = if can_move && (is_walking || self.controller.aim) {
            let angle = self.calculate_model_angle();
            self.model_yaw.set_target(angle * 1000);
            self.model_yaw.update(frame.dt);
            assert(self.run_factor <= 1000);
            assert(12000 * self.run_factor <= 12000000) by (nonlinear_arith)
                requires self.run_factor <= 1000;
            let hips_pitch = 5000 + (12000 * self.run_factor / 1000) as i32;
            Some(
                Pose {
                    body_yaw: self.controller.yaw,
                    model_yaw: self.model_yaw.angle(),
                    aiming: self.controller.aim,
                    hips_pitch,
                    walk_clip_speed: if self.controller.aim && self.controller.walk_backward { -1 } else { 1 },
                },
            )
        } else {
            None
        };
        let weapon_correction = self.apply_weapon_angular_correction(can_move, frame.dt, weapons);
        let rewind_land_clips = self.had_ground_contact && !frame.has_ground_contact;
        self.had_ground_contact = frame.has_ground_contact;
        if frame.has_ground_contact {
            self.in_air_time = 0;
        } else {
            self.in_air_time = if self.in_air_time as u64 + frame.dt as u64 > u32::MAX as u64 {
                u32::MAX
            } else {
                self.in_air_time + frame.dt
            };
        }
        let item_check = self.check_items(self_handle, frame.position, items);
        let elevator_messages = self.check_elevators(frame.position, elevators);
        let shooting = self.update_shooting(
            weapons,
            frame.now,
            frame.dt,
            frame.aiming,
            frame.v_roll,
            frame.h_roll,
        );
        FrameOutput {
            alive: true,
            is_walking,
            is_running,
            jump,
            velocity: self.velocity,
            enable_grab_clip,
            grab_messages,
            grenade_messages,
            pose,
            spine_pitch: self.spine_pitch.angle(),
            weapon_correction,
            rewind_land_clips,
            items: Some(item_check),
            check_doors,
            elevator_messages,
            shooting: Some(shooting),
            recoil: (self.v_recoil.angle(), self.h_recoil.angle()),
        }
    }


    /// Dead, and one of the two dying clips has played to its end.
    pub fn is_completely_dead(&self, upper_dying_ended: bool, lower_dying_ended: bool) -> (r: bool)
        ensures
            r == (self.is_dead_spec() && (upper_dying_ended || lower_dying_ended)),
    {
        self.is_dead() && (upper_dying_ended || lower_dying_ended)
    }

}

} // verus!
