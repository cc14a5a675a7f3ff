use station_iapetus::arena::Handle;
use station_iapetus::geometry::Vec3;
use station_iapetus::input::{Binding, ControlAction, ControlButton, ControlScheme, ElementState, RawInput};
use station_iapetus::inventory::{Inventory, ItemKind};
use station_iapetus::message::{Message, ProjectileKind, Shooter};
use station_iapetus::intent::{InputContext, InputEffect};
use station_iapetus::interaction::{CallButtonKind, CallButtonView, ElevatorView, ItemView};
use station_iapetus::player::{
    CombatWeaponKind, FrameEvents, FrameInput, Player, PlayerPersistentData, RequiredWeapon, TOSS_GRENADE_SIGNAL,
};
use station_iapetus::signal::AnimationEvent;
use station_iapetus::weapon::{Weapon, WeaponContainer, WeaponKind};

fn node(i: u32) -> Handle {
    Handle { index: i, generation: 1 }
}

fn scheme() -> ControlScheme {
    let actions = [
        ControlAction::Aim,
        ControlAction::MoveForward,
        ControlAction::MoveBackward,
        ControlAction::MoveLeft,
        ControlAction::MoveRight,
        ControlAction::Jump,
        ControlAction::Run,
        ControlAction::FlashLight,
        ControlAction::GrabAk47,
        ControlAction::GrabM4,
        ControlAction::GrabPlasmaGun,
        ControlAction::GrabPistol,
        ControlAction::NextWeapon,
        ControlAction::PrevWeapon,
        ControlAction::TossGrenade,
        ControlAction::Shoot,
        ControlAction::CursorUp,
        ControlAction::CursorDown,
        ControlAction::Action,
        ControlAction::Inventory,
        ControlAction::Journal,
    ];
    let mut bindings: Vec<Binding> = actions
        .iter()
        .enumerate()
        .map(|(i, &action)| Binding { action, button: ControlButton::Key(i as u32) })
        .collect();
    bindings[12].button = ControlButton::WheelUp;
    bindings[13].button = ControlButton::WheelDown;
    ControlScheme { bindings, mouse_sens: 1000, mouse_y_inverse: false }
}

fn ctx() -> InputContext {
    InputContext { grab_ended: true, can_jump: true, inventory_visible: false, journal_visible: false }
}

fn key(player: &mut Player, action: usize, state: ElementState, weapons: &WeaponContainer) -> Vec<InputEffect> {
    player.process_input_event(RawInput::Key { code: action as u32, state }, 16, &scheme(), ctx(), weapons)
}

const AIM: usize = 0;
const FORWARD: usize = 1;
const BACKWARD: usize = 2;
const LEFT: usize = 3;
const GRAB_AK47: usize = 8;
const INVENTORY: usize = 19;

#[test]
fn large_damage_in_one_tick_stuns() {
    let weapons = WeaponContainer::new();
    let mut p = Player::new(None, Vec::new(), 0);
    assert_eq!(p.health(), 100);
    p.damage(20);
    assert!(p.should_be_stunned());
    let inputs = p.update_animation_machines(false, false, &weapons);
    assert!(inputs.stunned);
    assert!(inputs.upper.should_be_stunned);
    assert!(!inputs.lower.should_be_stunned);
    assert_eq!(p.last_health(), 80);
    assert!(!p.should_be_stunned());
}

#[test]
fn small_damage_does_not_stun() {
    let weapons = WeaponContainer::new();
    let mut p = Player::new(None, Vec::new(), 0);
    p.damage(14);
    assert!(!p.should_be_stunned());
    let inputs = p.update_animation_machines(true, false, &weapons);
    assert!(!inputs.stunned);
    assert!(inputs.lower.is_walking);
    assert_eq!(inputs.lower.weapon_kind, CombatWeaponKind::Rifle);
    assert_eq!(p.last_health(), 100);
}

#[test]
fn model_turn_follows_the_direction_table() {
    let weapons = WeaponContainer::new();
    let mut p = Player::new(None, Vec::new(), 0);
    assert_eq!(p.calculate_model_angle(), 0);
    key(&mut p, LEFT, ElementState::Pressed, &weapons);
    key(&mut p, FORWARD, ElementState::Pressed, &weapons);
    assert_eq!(p.calculate_model_angle(), 45);
    key(&mut p, FORWARD, ElementState::Released, &weapons);
    assert_eq!(p.calculate_model_angle(), 90);
    key(&mut p, AIM, ElementState::Pressed, &weapons);
    key(&mut p, BACKWARD, ElementState::Pressed, &weapons);
    assert_eq!(p.calculate_model_angle(), -45);
    key(&mut p, LEFT, ElementState::Released, &weapons);
    key(&mut p, BACKWARD, ElementState::Released, &weapons);
    key(&mut p, AIM, ElementState::Released, &weapons);
    assert_eq!(p.calculate_model_angle(), 0);
}

#[test]
fn grenade_toss_takes_the_last_grenade_once() {
    let mut inventory = Inventory::new();
    inventory.add_item(ItemKind::Grenade, 1);
    let data = PlayerPersistentData { inventory, health: 100, current_weapon: 0, weapons: Vec::new() };
    let mut p = Player::new(Some(data), Vec::new(), 0);
    let me = node(8);
    let toss = vec![AnimationEvent { signal_id: TOSS_GRENADE_SIGNAL }];
    let from = Vec3::new(0, 1500, 0);
    let dir = Vec3::new(0, 0, 1000);
    let sent = p.handle_toss_grenade_signal(&toss, me, from, dir);
    assert_eq!(
        sent,
        vec![Message::CreateProjectile {
            kind: ProjectileKind::Grenade,
            position: from,
            direction: dir,
            initial_velocity: Vec3::new(0, 0, 15000),
            shooter: Shooter::Actor(me),
        }]
    );
    assert_eq!(p.inventory().item_count(ItemKind::Grenade), 0);
    let sent = p.handle_toss_grenade_signal(&toss, me, from, dir);
    assert!(sent.is_empty());
    assert_eq!(p.inventory().item_count(ItemKind::Grenade), 0);
}

#[test]
fn new_character_starts_with_the_default_kit() {
    let p = Player::new(None, vec![node(1)], 1234);
    assert_eq!(p.health(), 100);
    assert_eq!(p.inventory().item_count(ItemKind::Medpack), 2);
    assert_eq!(p.inventory().item_count(ItemKind::Ammo), 100);
    assert_eq!(p.inventory().item_count(ItemKind::Grenade), 2);
    assert_eq!(p.controller().yaw, 1234);
    assert_eq!(p.current_weapon(), node(1));
    assert_eq!(p.weapon_change_direction(), RequiredWeapon::NoChange);
    assert!(RequiredWeapon::default().is_none());
    assert!(!RequiredWeapon::Next.is_none());
}

#[test]
fn shooting_takes_ammo_and_kicks_recoil() {
    let mut weapons = WeaponContainer::new();
    let h = weapons.add(Weapon::new(WeaponKind::M4, node(1), node(2), Handle::none(), Handle::none(), Handle::none()));
    let mut inventory = Inventory::new();
    inventory.add_item(ItemKind::Ammo, 1);
    let data = PlayerPersistentData { inventory, health: 100, current_weapon: 0, weapons: Vec::new() };
    let mut p = Player::new(Some(data), vec![h], 0);
    p.process_input_event(RawInput::Key { code: 15, state: ElementState::Pressed }, 16, &scheme(), ctx(), &weapons);
    let out = p.update_shooting(&weapons, 0, 16, true, 3, 500);
    assert_eq!(out.sight_visible, Some(true));
    assert_eq!(out.messages, vec![Message::ShootWeapon { weapon: h }]);
    assert!(out.shake_camera);
    assert_eq!(p.inventory().item_count(ItemKind::Ammo), 0);
    assert_eq!(p.v_recoil(), 1003);
    assert_eq!(p.h_recoil(), -500);
    let out = p.update_shooting(&weapons, 500, 16, true, 3, 500);
    assert!(out.messages.is_empty());
    assert!(p.v_recoil() < 1003);
    let out = p.update_shooting(&weapons, 600, 16, false, 0, 0);
    assert_eq!(out.sight_visible, Some(false));
}

#[test]
fn stale_weapon_disables_shooting_for_the_frame() {
    let mut weapons = WeaponContainer::new();
    let h = weapons.add(Weapon::default());
    weapons.free(h);
    let mut p = Player::new(None, vec![h], 0);
    let out = p.update_shooting(&weapons, 0, 16, true, 0, 0);
    assert_eq!(out.sight_visible, None);
    assert!(out.messages.is_empty());
    assert_eq!(p.inventory().item_count(ItemKind::Ammo), 100);
}

#[test]
fn weapon_change_waits_for_the_grab_signal() {
    let mut weapons = WeaponContainer::new();
    let m4 = weapons.add(Weapon::new(WeaponKind::M4, node(1), Handle::none(), Handle::none(), Handle::none(), Handle::none()));
    let ak = weapons.add(Weapon::new(WeaponKind::Ak47, node(2), Handle::none(), Handle::none(), Handle::none(), Handle::none()));
    let mut p = Player::new(None, vec![m4, ak], 0);
    let effects = key(&mut p, GRAB_AK47, ElementState::Pressed, &weapons);
    assert_eq!(effects, vec![InputEffect::RestartWeaponChangeClips]);
    assert_eq!(p.weapon_change_direction(), RequiredWeapon::Specific(WeaponKind::Ak47));
    let me = node(30);
    let sent = p.handle_weapon_grab_signal(&vec![AnimationEvent { signal_id: 2 }], me, &weapons);
    assert_eq!(sent, vec![Message::GrabWeapon { kind: WeaponKind::Ak47, actor: me }]);
    assert_eq!(p.weapon_change_direction(), RequiredWeapon::NoChange);
    let effects = p.process_input_event(RawInput::Wheel { delta_y: 3 }, 16, &scheme(), ctx(), &weapons);
    assert_eq!(effects, vec![InputEffect::RestartWeaponChangeClips]);
    let sent = p.handle_weapon_grab_signal(&vec![AnimationEvent { signal_id: 2 }], me, &weapons);
    assert_eq!(sent, vec![Message::GrabWeapon { kind: WeaponKind::Ak47, actor: me }]);
    assert_eq!(p.current_weapon_index(), 1);
    assert_eq!(p.current_weapon(), ak);
}

#[test]
fn scroll_of_any_size_is_one_step() {
    let weapons = WeaponContainer::new();
    let mut p = Player::new(None, vec![node(1), node(2)], 0);
    let effects = p.process_input_event(RawInput::Wheel { delta_y: -120 }, 16, &scheme(), ctx(), &weapons);
    assert!(effects.is_empty());
    assert_eq!(p.weapon_change_direction(), RequiredWeapon::NoChange);
}

#[test]
fn pointer_motion_turns_and_pitch_is_clamped() {
    let weapons = WeaponContainer::new();
    let mut p = Player::new(None, Vec::new(), 0);
    p.process_input_event(RawInput::MouseMotion { dx: 10, dy: 0 }, 100, &scheme(), ctx(), &weapons);
    assert_eq!(p.controller().yaw, -1000);
    p.process_input_event(RawInput::MouseMotion { dx: 0, dy: 5000 }, 100, &scheme(), ctx(), &weapons);
    assert_eq!(p.controller().pitch, 90000);
    p.process_input_event(RawInput::MouseMotion { dx: 0, dy: -20000 }, 100, &scheme(), ctx(), &weapons);
    assert_eq!(p.controller().pitch, -90000);
}

#[test]
fn inventory_key_toggles_the_display_unless_aiming() {
    let weapons = WeaponContainer::new();
    let mut p = Player::new(None, Vec::new(), 0);
    let effects = key(&mut p, INVENTORY, ElementState::Pressed, &weapons);
    assert_eq!(
        effects,
        vec![
            InputEffect::SetJournalVisible(false),
            InputEffect::SetInventoryVisible(true),
            InputEffect::Send(Message::SyncInventory),
        ]
    );
    key(&mut p, AIM, ElementState::Pressed, &weapons);
    assert!(key(&mut p, INVENTORY, ElementState::Pressed, &weapons).is_empty());
}

#[test]
fn nearest_item_is_shown_and_picked_up_once() {
    let weapons = WeaponContainer::new();
    let mut p = Player::new(None, Vec::new(), 0);
    let items = vec![
        ItemView { handle: node(1), position: Vec3::new(5000, 0, 0), kind: ItemKind::Ammo, stack_size: 10 },
        ItemView { handle: node(2), position: Vec3::new(300, 0, 400), kind: ItemKind::Medpack, stack_size: 1 },
    ];
    let me = node(9);
    let check = p.check_items(me, Vec3::new(0, 0, 0), &items);
    assert_eq!(check.messages, vec![Message::ShowItemDisplay { item: ItemKind::Medpack, count: 1 }]);
    assert_eq!(check.display_at, Some(Vec3::new(300, 200, 400)));
    key(&mut p, 18, ElementState::Pressed, &weapons);
    let check = p.check_items(me, Vec3::new(0, 0, 0), &items);
    assert_eq!(
        check.messages,
        vec![
            Message::ShowItemDisplay { item: ItemKind::Medpack, count: 1 },
            Message::PickUpItem { actor: me, item: node(2) },
            Message::SyncInventory,
        ]
    );
    assert!(!p.controller().action);
    let far = p.check_items(me, Vec3::new(0, 0, 2000), &items);
    assert!(far.messages.is_empty());
    assert_eq!(far.display_at, None);
}

#[test]
fn elevator_and_call_buttons_respond_in_reach() {
    let weapons = WeaponContainer::new();
    let mut p = Player::new(None, Vec::new(), 0);
    let elevators = vec![ElevatorView {
        handle: node(50),
        position: Vec3::new(0, 0, 0),
        current_floor: 0,
        floor_count: 3,
        call_buttons: vec![CallButtonView {
            handle: node(51),
            position: Vec3::new(100, 0, 0),
            kind: CallButtonKind::FloorSelector,
            floor: 2,
        }],
    }];
    assert!(p.check_elevators(Vec3::new(0, 0, 0), &elevators).is_empty());
    key(&mut p, 16, ElementState::Pressed, &weapons);
    assert_eq!(
        p.check_elevators(Vec3::new(0, 0, 0), &elevators),
        vec![Message::SetCallButtonFloor { call_button: node(51), floor: 2 }]
    );
    key(&mut p, 16, ElementState::Released, &weapons);
    key(&mut p, 18, ElementState::Pressed, &weapons);
    assert_eq!(
        p.check_elevators(Vec3::new(0, 0, 0), &elevators),
        vec![
            Message::CallElevator { elevator: node(50), floor: 2 },
            Message::CallElevator { elevator: node(50), floor: 2 },
        ]
    );
    assert!(!p.controller().action);
    assert!(p.check_elevators(Vec3::new(0, 0, 0), &elevators).is_empty());
    key(&mut p, 18, ElementState::Pressed, &weapons);
    assert!(p.check_elevators(Vec3::new(0, 0, 5000), &elevators).is_empty());
    assert!(p.controller().action);
}

#[test]
fn health_display_goes_from_red_to_green() {
    let mut p = Player::new(None, Vec::new(), 0);
    let c = p.health_color();
    assert_eq!((c.r, c.g, c.b, c.a), (0, 255, 0, 200));
    p.damage(50);
    let c = p.health_color();
    assert_eq!((c.r, c.g), (127, 127));
    p.damage(80);
    let c = p.health_color();
    assert_eq!((c.r, c.g), (255, 0));
    assert!(p.is_dead());
    assert!(p.can_be_removed());
    assert!(p.is_completely_dead(false, true));
    assert!(!p.is_completely_dead(false, false));
}

#[test]
fn walking_forward_eases_velocity_toward_walking_speed() {
    let weapons = WeaponContainer::new();
    let mut p = Player::new(None, Vec::new(), 0);
    key(&mut p, FORWARD, ElementState::Pressed, &weapons);
    p.update_velocity(true, Vec3::new(0, 0, 1000), Vec3::new(1000, 0, 0));
    assert_eq!(p.velocity(), Vec3::new(0, 0, 97));
    p.update_velocity(false, Vec3::new(0, 0, 1000), Vec3::new(1000, 0, 0));
    assert_eq!(p.velocity(), Vec3::new(0, 0, 83));
}

#[test]
fn dead_character_is_frozen() {
    let weapons = WeaponContainer::new();
    let mut p = Player::new(None, Vec::new(), 0);
    p.damage(100);
    let frame = FrameInput {
        dt: 16,
        now: 0,
        has_ground_contact: true,
        stunned: false,
        falling_or_landing: false,
        in_jump: false,
        aiming: false,
        look: Vec3::new(0, 0, 1000),
        side: Vec3::new(1000, 0, 0),
        position: Vec3::new(0, 0, 0),
        grenade_origin: Vec3::new(0, 0, 0),
        camera_look: Vec3::new(0, 0, 1000),
        v_roll: 0,
        h_roll: 0,
    };
    let events = FrameEvents { jump: Vec::new(), grab: Vec::new(), put_back: Vec::new(), toss_grenade: Vec::new() };
    let out = p.update(node(1), &frame, &events, &weapons, &Vec::new(), &Vec::new());
    assert!(!out.alive);
    assert_eq!(out.velocity, Vec3::new(0, 0, 0));
    assert!(out.items.is_none());
}

#[test]
fn living_character_jumps_on_the_signal_while_jumping() {
    let weapons = WeaponContainer::new();
    let mut p = Player::new(None, Vec::new(), 0);
    key(&mut p, FORWARD, ElementState::Pressed, &weapons);
    let frame = FrameInput {
        dt: 16,
        now: 0,
        has_ground_contact: false,
        stunned: false,
        falling_or_landing: false,
        in_jump: true,
        aiming: false,
        look: Vec3::new(0, 0, 1000),
        side: Vec3::new(1000, 0, 0),
        position: Vec3::new(0, 0, 0),
        grenade_origin: Vec3::new(0, 0, 0),
        camera_look: Vec3::new(0, 0, 1000),
        v_roll: 0,
        h_roll: 0,
    };
    let events = FrameEvents {
        jump: vec![AnimationEvent { signal_id: 1 }],
        grab: Vec::new(),
        put_back: vec![AnimationEvent { signal_id: 3 }],
        toss_grenade: Vec::new(),
    };
    let out = p.update(node(1), &frame, &events, &weapons, &Vec::new(), &Vec::new());
    assert!(out.alive);
    assert!(out.jump);
    assert!(out.enable_grab_clip);
    assert!(out.rewind_land_clips);
    let again = p.update(node(1), &frame, &FrameEvents { jump: Vec::new(), grab: Vec::new(), put_back: Vec::new(), toss_grenade: Vec::new() }, &weapons, &Vec::new(), &Vec::new());
    assert!(!again.rewind_land_clips);
    assert!(!again.jump);
    let pose = out.pose.unwrap();
    assert_eq!(pose.walk_clip_speed, 1);
    assert_eq!(pose.body_yaw, 0);
    assert!(out.weapon_correction.is_some());
}

#[test]
fn persistent_data_keeps_the_kinds_of_live_weapons() {
    let mut weapons = WeaponContainer::new();
    let a = weapons.add(Weapon::new(WeaponKind::Glock, node(1), Handle::none(), Handle::none(), Handle::none(), Handle::none()));
    let b = weapons.add(Weapon::new(WeaponKind::RailGun, node(2), Handle::none(), Handle::none(), Handle::none(), Handle::none()));
    let c = weapons.add(Weapon::new(WeaponKind::M4, node(3), Handle::none(), Handle::none(), Handle::none(), Handle::none()));
    weapons.free(b);
    let mut p = Player::new(None, vec![a, b, c], 0);
    p.damage(30);
    let data = p.persistent_data(&weapons);
    assert_eq!(data.weapons, vec![WeaponKind::Glock, WeaponKind::M4]);
    assert_eq!(data.health, 70);
    assert_eq!(data.current_weapon, 0);
    assert_eq!(data.inventory.item_count(ItemKind::Ammo), 100);
}

#[test]
fn pistol_in_hand_selects_pistol_poses() {
    let mut weapons = WeaponContainer::new();
    let glock = weapons.add(Weapon::new(WeaponKind::Glock, node(1), Handle::none(), Handle::none(), Handle::none(), Handle::none()));
    let p = Player::new(None, vec![glock], 0);
    assert_eq!(p.current_weapon_kind(&weapons), CombatWeaponKind::Pistol);
    let bare = Player::new(None, Vec::new(), 0);
    assert_eq!(bare.current_weapon_kind(&weapons), CombatWeaponKind::Rifle);
}

#[test]
fn running_needs_run_held_without_aim_or_stun() {
    let weapons = WeaponContainer::new();
    let mut p = Player::new(None, Vec::new(), 0);
    assert!(!p.is_running(false));
    key(&mut p, 6, ElementState::Pressed, &weapons);
    assert!(p.is_running(false));
    assert!(!p.is_running(true));
    key(&mut p, AIM, ElementState::Pressed, &weapons);
    assert!(!p.is_running(false));
    assert!(Player::can_move(false));
    assert!(!Player::can_move(true));
}

#[test]
fn weapon_correction_eases_toward_the_aim_targets() {
    let mut weapons = WeaponContainer::new();
    let m4 = weapons.add(Weapon::new(WeaponKind::M4, node(1), Handle::none(), Handle::none(), Handle::none(), Handle::none()));
    let mut p = Player::new(None, vec![m4], 0);
    assert_eq!(p.apply_weapon_angular_correction(false, 100, &weapons), None);
    assert_eq!(p.apply_weapon_angular_correction(true, 1000, &weapons), Some((30000, 8000)));
    key(&mut p, AIM, ElementState::Pressed, &weapons);
    assert_eq!(p.apply_weapon_angular_correction(true, 1000, &weapons), Some((356000, 348000)));
}

#[test]
fn later_weapon_request_replaces_a_pending_one() {
    let mut weapons = WeaponContainer::new();
    let glock = weapons.add(Weapon::new(WeaponKind::Glock, node(1), Handle::none(), Handle::none(), Handle::none(), Handle::none()));
    let ak = weapons.add(Weapon::new(WeaponKind::Ak47, node(2), Handle::none(), Handle::none(), Handle::none(), Handle::none()));
    let mut p = Player::new(None, vec![glock, ak], 0);
    key(&mut p, GRAB_AK47, ElementState::Pressed, &weapons);
    assert_eq!(p.weapon_change_direction(), RequiredWeapon::Specific(WeaponKind::Ak47));
    let busy = InputContext { grab_ended: false, ..ctx() };
    let effects = p.process_input_event(RawInput::Key { code: 9, state: ElementState::Pressed }, 16, &scheme(), busy, &weapons);
    assert_eq!(effects, vec![InputEffect::RestartWeaponChangeClips]);
    assert_eq!(p.weapon_change_direction(), RequiredWeapon::Specific(WeaponKind::M4));
    let me = node(30);
    let sent = p.handle_weapon_grab_signal(&vec![AnimationEvent { signal_id: 2 }], me, &weapons);
    assert_eq!(sent, vec![Message::GrabWeapon { kind: WeaponKind::M4, actor: me }]);
}

#[test]
fn no_change_starts_before_the_grab_clip_ends() {
    let mut weapons = WeaponContainer::new();
    let glock = weapons.add(Weapon::new(WeaponKind::Glock, node(1), Handle::none(), Handle::none(), Handle::none(), Handle::none()));
    let ak = weapons.add(Weapon::new(WeaponKind::Ak47, node(2), Handle::none(), Handle::none(), Handle::none(), Handle::none()));
    let mut p = Player::new(None, vec![glock, ak], 0);
    let busy = InputContext { grab_ended: false, ..ctx() };
    let effects = p.process_input_event(RawInput::Key { code: GRAB_AK47 as u32, state: ElementState::Pressed }, 16, &scheme(), busy, &weapons);
    assert!(effects.is_empty());
    assert_eq!(p.weapon_change_direction(), RequiredWeapon::NoChange);
}

#[test]
fn new_character_holds_nothing_and_stands_still() {
    let p = Player::new(None, Vec::new(), 0);
    let c = p.controller();
    assert!(!c.walk_forward && !c.walk_backward && !c.walk_left && !c.walk_right);
    assert!(!c.jump && !c.aim && !c.shoot && !c.run && !c.action && !c.toss_grenade);
    assert_eq!(c.pitch, 0);
    assert_eq!(p.velocity(), Vec3::new(0, 0, 0));
}

#[test]
fn previous_weapon_sends_an_equip_request() {
    let mut weapons = WeaponContainer::new();
    let glock = weapons.add(Weapon::new(WeaponKind::Glock, node(1), Handle::none(), Handle::none(), Handle::none(), Handle::none()));
    let ak = weapons.add(Weapon::new(WeaponKind::Ak47, node(2), Handle::none(), Handle::none(), Handle::none(), Handle::none()));
    let mut inventory = Inventory::new();
    inventory.add_item(ItemKind::Ammo, 10);
    let data = PlayerPersistentData { inventory, health: 100, current_weapon: 1, weapons: Vec::new() };
    let mut p = Player::new(Some(data), vec![glock, ak], 0);
    let effects = p.process_input_event(RawInput::Wheel { delta_y: -1 }, 16, &scheme(), ctx(), &weapons);
    assert_eq!(effects, vec![InputEffect::RestartWeaponChangeClips]);
    assert_eq!(p.weapon_change_direction(), RequiredWeapon::Previous);
    let me = node(4);
    let sent = p.handle_weapon_grab_signal(&vec![AnimationEvent { signal_id: 2 }], me, &weapons);
    assert_eq!(sent, vec![Message::GrabWeapon { kind: WeaponKind::Glock, actor: me }]);
    assert_eq!(p.current_weapon(), glock);
    assert_eq!(p.weapon_change_direction(), RequiredWeapon::NoChange);
}

#[test]
fn input_leaves_health_and_movement_alone() {
    let weapons = WeaponContainer::new();
    let mut p = Player::new(None, vec![node(1), node(2)], 0);
    p.damage(20);
    let a = p.process_input_event(RawInput::Wheel { delta_y: -1 }, 16, &scheme(), ctx(), &weapons);
    let b = p.process_input_event(RawInput::Wheel { delta_y: -120 }, 16, &scheme(), ctx(), &weapons);
    assert_eq!(a, b);
    assert_eq!(p.last_health(), 100);
    assert_eq!(p.velocity(), Vec3::new(0, 0, 0));
}
