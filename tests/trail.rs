use station_iapetus::arena::Handle;
use station_iapetus::trail::{ShotTrail, ShotTrailContainer};

#[test]
fn trail_fades_linearly_and_is_removed_when_spent() {
    let node = Handle { index: 3, generation: 1 };
    let mut trails = ShotTrailContainer::new();
    trails.add(ShotTrail::new(node, 1000));
    let fades = trails.update(250);
    assert_eq!(fades.len(), 1);
    assert_eq!(fades[0].node, node);
    assert_eq!(fades[0].alpha, 191);
    assert!(!fades[0].removed);
    let fades = trails.update(500);
    assert_eq!(fades[0].alpha, 63);
    let fades = trails.update(1000);
    assert_eq!(fades[0].alpha, 0);
    assert!(fades[0].removed);
    assert!(trails.update(10).is_empty());
}

#[test]
fn trails_age_independently() {
    let a = Handle { index: 1, generation: 1 };
    let b = Handle { index: 2, generation: 1 };
    let mut trails = ShotTrailContainer::new();
    trails.add(ShotTrail::new(a, 100));
    trails.add(ShotTrail::new(b, 400));
    let fades = trails.update(200);
    assert_eq!(fades.len(), 2);
    assert!(fades[0].removed);
    assert!(!fades[1].removed);
    assert_eq!(fades[1].alpha, 127);
    let fades = trails.update(100);
    assert_eq!(fades.len(), 1);
    assert_eq!(fades[0].node, b);
}

#[test]
fn trail_without_lifetime_is_removed_at_once() {
    let mut trails = ShotTrailContainer::new();
    trails.add(ShotTrail::new(Handle { index: 1, generation: 1 }, 0));
    let fades = trails.update(0);
    assert!(fades[0].removed);
    assert_eq!(fades[0].alpha, 0);
}
