use station_iapetus::arena::{Handle, Pool};
use station_iapetus::geometry::Vec3;
use station_iapetus::hit::{ray_cast_request, ray_hit, Actor, ActorContainer, Feature, HitBox, Intersection, ACTOR_CAPSULE_GROUP};
use station_iapetus::message::Shooter;
use station_iapetus::weapon::{Weapon, WeaponContainer, WeaponKind};

fn node(i: u32) -> Handle {
    Handle { index: i, generation: 1 }
}

fn isect(collider: Handle, z: i64) -> Intersection {
    Intersection { collider, position: Vec3::new(0, 0, z), normal: Vec3::new(0, 0, -1000), feature: Feature::Face(3) }
}

fn actor(capsule: u32, boxes: &[u32]) -> Actor {
    Actor {
        capsule_collider: node(capsule),
        hit_boxes: boxes.iter().map(|&c| HitBox { bone: node(c + 1000), collider: node(c) }).collect(),
    }
}

#[test]
fn ray_through_only_the_own_capsule_hits_nothing() {
    let weapons = WeaponContainer::new();
    let mut actors: ActorContainer = Pool::new();
    let me = actors.spawn(actor(10, &[11, 12]));
    let q = vec![isect(node(10), 100), isect(node(10), 200)];
    assert!(ray_hit(Shooter::Actor(me), &weapons, &actors, q, node(10)).is_none());
    assert!(ray_hit(Shooter::Actor(me), &weapons, &actors, Vec::new(), node(10)).is_none());
}

#[test]
fn ray_is_attributed_to_the_struck_actor() {
    let weapons = WeaponContainer::new();
    let mut actors: ActorContainer = Pool::new();
    let me = actors.spawn(actor(10, &[11]));
    let other = actors.spawn(actor(20, &[21, 22]));
    let q = vec![isect(node(10), 50), isect(node(22), 300), isect(node(99), 900)];
    let hit = ray_hit(Shooter::Actor(me), &weapons, &actors, q, node(10)).unwrap();
    assert_eq!(hit.actor, other);
    assert_eq!(hit.who, me);
    assert_ne!(hit.actor, hit.who);
    assert_eq!(hit.collider, node(22));
    assert_eq!(hit.hit_box, Some(HitBox { bone: node(1022), collider: node(22) }));
    assert_eq!(hit.position, Vec3::new(0, 0, 300));
    assert_eq!(hit.feature, Feature::Face(3));
    assert_eq!(hit.query_buffer.len(), 3);
}

#[test]
fn own_hit_box_is_transparent_to_own_shot() {
    let weapons = WeaponContainer::new();
    let mut actors: ActorContainer = Pool::new();
    let me = actors.spawn(actor(10, &[11]));
    let q = vec![isect(node(11), 10), isect(node(50), 500)];
    assert!(ray_hit(Shooter::Actor(me), &weapons, &actors, q, node(10)).is_none());
}

#[test]
fn environment_hit_has_no_actor() {
    let weapons = WeaponContainer::new();
    let mut actors: ActorContainer = Pool::new();
    let me = actors.spawn(actor(10, &[11]));
    let q = vec![isect(node(77), 40)];
    let hit = ray_hit(Shooter::Actor(me), &weapons, &actors, q, node(10)).unwrap();
    assert!(hit.actor.is_none());
    assert!(hit.who.is_none());
    assert_eq!(hit.hit_box, None);
    assert_eq!(hit.collider, node(77));
}

#[test]
fn weapon_shot_is_attributed_to_its_owner() {
    let mut weapons = WeaponContainer::new();
    let mut actors: ActorContainer = Pool::new();
    let owner = actors.spawn(actor(10, &[11]));
    let target = actors.spawn(actor(20, &[21]));
    let mut w = Weapon::new(WeaponKind::M4, node(1), node(2), Handle::none(), Handle::none(), Handle::none());
    w.set_owner(owner);
    let wh = weapons.add(w);
    let own = vec![isect(node(11), 10)];
    assert!(ray_hit(Shooter::Weapon(wh), &weapons, &actors, own, node(10)).is_none());
    let q = vec![isect(node(21), 10)];
    let hit = ray_hit(Shooter::Weapon(wh), &weapons, &actors, q, node(10)).unwrap();
    assert_eq!(hit.actor, target);
    assert_eq!(hit.who, owner);
}

#[test]
fn turret_shot_is_attributed_to_nobody() {
    let weapons = WeaponContainer::new();
    let mut actors: ActorContainer = Pool::new();
    let target = actors.spawn(actor(20, &[21]));
    let hit = ray_hit(Shooter::Turret(node(3)), &weapons, &actors, vec![isect(node(21), 10)], Handle::none()).unwrap();
    assert_eq!(hit.actor, target);
    assert!(hit.who.is_none());
}

#[test]
fn hits_compare_without_their_intersections() {
    let weapons = WeaponContainer::new();
    let actors: ActorContainer = Pool::new();
    let a = ray_hit(Shooter::Nobody, &weapons, &actors, vec![isect(node(5), 10)], Handle::none()).unwrap();
    let b = ray_hit(Shooter::Nobody, &weapons, &actors, vec![isect(node(5), 10), isect(node(6), 20)], Handle::none()).unwrap();
    assert!(a == b);
}

#[test]
fn shot_ray_skips_actor_capsules() {
    let r = ray_cast_request(Vec3::new(1, 2, 3), Vec3::new(11, 22, 33));
    assert_eq!(r.origin, Vec3::new(1, 2, 3));
    assert_eq!(r.direction, Vec3::new(10, 20, 30));
    assert_eq!(r.memberships, 0xFFFF);
    assert_eq!(r.filter, !ACTOR_CAPSULE_GROUP);
    assert!(r.sort_results);
}
