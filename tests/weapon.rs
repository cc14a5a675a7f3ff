use station_iapetus::arena::Handle;
use station_iapetus::geometry::Vec3;
use station_iapetus::message::{Message, ProjectileKind, ShotEffect, Shooter};
use station_iapetus::weapon::{Weapon, WeaponContainer, WeaponKind, WeaponProjectile};

fn node(i: u32) -> Handle {
    Handle { index: i, generation: 1 }
}

#[test]
fn weapon_fire_interval_gates_shots() {
    let mut w = Weapon::new(WeaponKind::M4, node(1), node(2), Handle::none(), Handle::none(), Handle::none());
    assert_eq!(Weapon::definition(WeaponKind::M4).shoot_interval_ms, 100);
    assert!(w.can_shoot(0));
    let here = Vec3::new(0, 0, 0);
    let ahead = Vec3::new(0, 0, 1000);
    w.shoot(node(9), 0, here, ahead, 0, 0);
    assert!(!w.can_shoot(50));
    assert!(w.can_shoot(110));
    w.shoot(node(9), 110, here, ahead, 0, 0);
    assert!(!w.can_shoot(150));
}

#[test]
fn hit_scan_shot_reaches_a_thousand_units() {
    let mut w = Weapon::new(WeaponKind::Ak47, node(1), node(2), node(3), node(4), Handle::none());
    let me = node(7);
    let shot = w.shoot(me, 5, Vec3::new(1000, 2000, 3000), Vec3::new(0, 0, 1000), 4, 7);
    assert_eq!(
        shot.request,
        Message::ShootRay {
            shooter: Shooter::Weapon(me),
            begin: Vec3::new(1000, 2000, 3000),
            end: Vec3::new(1000, 2000, 3000 + 1_000_000),
            damage: 20,
            shot_effect: ShotEffect::Smoke,
        }
    );
    assert_eq!(
        shot.sound,
        Some(Message::PlaySound {
            weapon: WeaponKind::Ak47,
            sound: 1,
            position: Vec3::new(1000, 2000, 3000),
            gain: 1000,
            rolloff_factor: 5000,
            radius: 3000,
        })
    );
    let sent = shot.messages();
    assert_eq!(sent.len(), 2);
    assert_eq!(sent[0], shot.sound.unwrap());
    assert_eq!(sent[1], shot.request);
    assert_eq!(shot.flash_texture, Some(2));
}

#[test]
fn plasma_rifle_sends_a_projectile() {
    let mut w = Weapon::new(WeaponKind::PlasmaRifle, node(1), Handle::none(), Handle::none(), Handle::none(), Handle::none());
    assert_eq!(Weapon::definition(WeaponKind::PlasmaRifle).projectile, WeaponProjectile::Projectile(ProjectileKind::Plasma));
    let shot = w.shoot(node(5), 0, Vec3::new(1, 2, 3), Vec3::new(1000, 0, 0), 0, 0);
    assert_eq!(
        shot.request,
        Message::CreateProjectile {
            kind: ProjectileKind::Plasma,
            position: Vec3::new(1, 2, 3),
            direction: Vec3::new(1000, 0, 0),
            initial_velocity: Vec3::new(0, 0, 0),
            shooter: Shooter::Weapon(node(5)),
        }
    );
    assert_eq!(shot.flash_texture, None);
}

#[test]
fn muzzle_flash_goes_out_after_its_time() {
    let mut w = Weapon::new(WeaponKind::Glock, node(1), node(2), node(3), node(4), Handle::none());
    assert!(w.flash_expired());
    w.shoot(node(5), 0, Vec3::new(0, 0, 0), Vec3::new(0, 1000, 0), 0, 0);
    assert!(!w.flash_expired());
    w.update(50);
    assert!(!w.flash_expired());
    w.update(25);
    assert!(w.flash_expired());
}

#[test]
fn shot_origin_falls_back_to_the_model() {
    let w = Weapon::new(WeaponKind::M4, node(1), Handle::none(), Handle::none(), Handle::none(), Handle::none());
    assert_eq!(w.shot_origin(), node(1));
    assert_eq!(w.switch_flash_light(), None);
    let w = Weapon::new(WeaponKind::M4, node(1), node(2), Handle::none(), Handle::none(), node(6));
    assert_eq!(w.shot_origin(), node(2));
    assert_eq!(w.switch_flash_light(), Some(node(6)));
}

#[test]
fn default_weapon_is_an_unowned_m4() {
    let w = Weapon::default();
    assert_eq!(w.kind(), WeaponKind::M4);
    assert!(w.owner().is_none());
    assert!(w.model().is_none());
}

#[test]
fn container_shoots_and_ticks_its_weapons() {
    let mut weapons = WeaponContainer::new();
    let mut w = Weapon::new(WeaponKind::RailGun, node(1), node(2), node(3), node(4), Handle::none());
    w.set_owner(node(40));
    let h = weapons.add(w);
    assert!(weapons.contains(h));
    assert_eq!(weapons.try_get(h).map(|w| w.owner()), Some(node(40)));
    assert!(weapons.shoot(h, 1000, Vec3::new(0, 0, 0), Vec3::new(0, 0, 1000), 0, 0).is_some());
    assert!(!weapons.try_get(h).unwrap().can_shoot(1500));
    weapons.update(80);
    assert!(weapons.try_get(h).unwrap().flash_expired());
    weapons.free(h);
    assert!(!weapons.contains(h));
    assert!(weapons.shoot(h, 3000, Vec3::new(0, 0, 0), Vec3::new(0, 0, 1000), 0, 0).is_none());
}

#[test]
fn ticking_changes_only_the_flash_countdown() {
    let mut w = Weapon::new(WeaponKind::M4, node(1), node(2), node(3), node(4), Handle::none());
    w.set_owner(node(9));
    w.shoot(node(5), 40, Vec3::new(0, 0, 0), Vec3::new(0, 0, 1000), 0, 0);
    w.update(30);
    assert!(!w.flash_expired());
    assert_eq!(w.kind(), WeaponKind::M4);
    assert_eq!(w.owner(), node(9));
    assert!(!w.can_shoot(139));
    assert!(w.can_shoot(140));
}

#[test]
fn container_shot_leaves_the_owner_in_place() {
    let mut weapons = WeaponContainer::new();
    let mut w = Weapon::new(WeaponKind::Glock, node(1), node(2), Handle::none(), Handle::none(), Handle::none());
    w.set_owner(node(12));
    let h = weapons.add(w);
    let shot = weapons.shoot(h, 10, Vec3::new(0, 0, 0), Vec3::new(0, 0, 1000), 0, 0).unwrap();
    assert_eq!(shot.messages().len(), 2);
    assert_eq!(weapons.try_get(h).unwrap().owner(), node(12));
}
