use station_iapetus::angle::{Recoil, SmoothAngle};

#[test]
fn recoil_decays_toward_zero_without_passing_it() {
    let mut r = Recoil::new(1000);
    r.kick(1500, 1500, 0);
    assert_eq!(r.angle(), 1500);
    r.update(500);
    assert_eq!(r.angle(), 1000);
    r.update(500);
    assert_eq!(r.angle(), 500);
    r.update(2000);
    assert_eq!(r.angle(), 0);
    r.update(100);
    assert_eq!(r.angle(), 0);
}

#[test]
fn negative_recoil_decays_up_to_zero() {
    let mut r = Recoil::new(1000);
    r.kick(-800, -800, 7);
    assert_eq!(r.angle(), -800);
    r.update(300);
    assert_eq!(r.angle(), -500);
    r.update(1000);
    assert_eq!(r.angle(), 0);
}

#[test]
fn recoil_is_kicked_afresh_not_accumulated() {
    let mut r = Recoil::new(1000);
    r.kick(1000, 2000, 250);
    assert_eq!(r.angle(), 1250);
    r.kick(1000, 2000, 250);
    assert_eq!(r.angle(), 1250);
    r.kick(1000, 2000, 1001);
    assert_eq!(r.angle(), 1000);
    for roll in 0..5000u32 {
        r.kick(-1000, 1000, roll);
        assert!(r.angle() >= -1000 && r.angle() <= 1000);
    }
}

#[test]
fn smooth_angle_moves_toward_target_at_its_speed() {
    let mut a = SmoothAngle::new(0, 10000, 20000);
    a.update(100);
    assert_eq!(a.angle(), 2000);
    a.update(1000);
    assert_eq!(a.angle(), 10000);
    a.set_target(-5000);
    a.update(250);
    assert_eq!(a.angle(), 5000);
}

#[test]
fn smooth_angle_turns_the_shorter_way_round() {
    let mut a = SmoothAngle::new(180000, -135000, 10000);
    a.update(1000);
    assert_eq!(a.angle(), 190000);
    a.update(10000);
    assert_eq!(a.angle(), 225000);
    let mut b = SmoothAngle::new(10000, 350000, 5000);
    b.update(1000);
    assert_eq!(b.angle(), 5000);
}
