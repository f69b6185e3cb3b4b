use nekoland::behavior::{
    choose_behavior, dock_countdown, is_docked, mouse_plan, twitch_live, Behavior, ControlWatch,
    FocusWatch, Mode, MousePlan, YarnPlan, YarnPlay, REST_TICKS, TWITCH_TIMEOUT_MS,
};
use nekoland::geometry::Edges;
use nekoland::rng::{Rng, UNIT_DENOMINATOR};
use nekoland::toy::{Dir, Toy, ToyStep, ONE_TENTH_BITS};

fn no_edges() -> Edges {
    Edges { left: false, top: false, right: false, bottom: false }
}

#[test]
fn rng_draws_follow_xorshift() {
    let mut r = Rng::from_seed(5);
    assert_eq!(r.next_bits(), 2642260);
    assert_eq!(r.next_bits(), 2814924313559080);
    assert_eq!(r.next_bits(), 8704502095450974);
}

#[test]
fn rng_zero_seed_is_made_odd() {
    let mut r = Rng::from_seed(0);
    assert_eq!(r.next_bits(), 528452);
    for _ in 0..10_000 {
        assert!(r.next_bits() < UNIT_DENOMINATOR);
    }
}

#[test]
fn integer_draws_match_the_float_draws() {
    let denom = UNIT_DENOMINATOR as f64;
    let mut r = Rng::from_seed(0x9E3779B97F4A7C15);
    for _ in 0..10_000 {
        let bits = r.next_bits();
        let unit = bits as f64 / denom;
        assert_eq!((unit * 4.0) as u32 as u64, bits >> 51);
        assert_eq!((unit * 4.0).floor() as u64, bits >> 51);
        assert_eq!(unit < 0.1, bits < ONE_TENTH_BITS);
    }
    for bits in [ONE_TENTH_BITS - 1, ONE_TENTH_BITS, ONE_TENTH_BITS + 1] {
        assert_eq!((bits as f64 / denom) < 0.1, bits < ONE_TENTH_BITS);
    }
}

#[test]
fn toy_spawn_draws_position_then_direction() {
    let mut t = Toy::new(5);
    assert!(!t.active());
    let (x, y) = t.spawn();
    assert!(t.active());
    assert_eq!(x, 2642260);
    assert_eq!(y, 2814924313559080);
    assert_eq!(t.current_frame(), (0, 0));
    // third draw >> 51 == 3: bottom right, so it steps right and down.
    assert_eq!(t.update(false, no_edges()), ToyStep::Moved(14, 16));
    assert_eq!(t.current_frame(), (32, 0));
}

#[test]
fn toy_bounces_at_edges() {
    let mut t = Toy::new(5);
    t.spawn();
    let right = Edges { left: false, top: false, right: true, bottom: false };
    assert_eq!(t.update(false, right), ToyStep::Turned);
    // now bottom left: moves left and down.
    match t.update(false, no_edges()) {
        ToyStep::Moved(dx, dy) => {
            assert!(dx <= -14 && dx >= -17);
            assert_eq!(dy, 16);
        }
        other => panic!("unexpected {:?}", other),
    }
    let bottom = Edges { left: false, top: false, right: false, bottom: true };
    assert_eq!(t.update(false, bottom), ToyStep::Turned);
    match t.update(false, no_edges()) {
        ToyStep::Moved(dx, dy) => {
            assert!(dx < 0);
            assert_eq!(dy, -16);
        }
        other => panic!("unexpected {:?}", other),
    }
}

#[test]
fn toy_caught_then_idle() {
    let mut t = Toy::new(9);
    t.spawn();
    assert_eq!(t.update(true, no_edges()), ToyStep::Caught);
    assert!(!t.active());
    assert_eq!(t.update(false, no_edges()), ToyStep::Idle);
    assert_eq!(t.update(true, no_edges()), ToyStep::Idle);
}

#[test]
fn toy_frames_cycle_through_six() {
    let mut t = Toy::new(11);
    t.spawn();
    let mut seen = Vec::new();
    for _ in 0..7 {
        seen.push(t.current_frame().0);
        let e = Edges { left: true, top: true, right: true, bottom: true };
        t.update(false, e);
    }
    assert_eq!(seen, vec![0, 32, 64, 96, 128, 160, 0]);
}

#[test]
fn toy_steps_stay_between_14_and_17() {
    let mut t = Toy::new(123);
    t.spawn();
    for _ in 0..2000 {
        match t.update(false, no_edges()) {
            ToyStep::Moved(dx, dy) => {
                assert!((14..=17).contains(&dx.abs()));
                assert_eq!(dy.abs(), 16);
            }
            other => panic!("unexpected {:?}", other),
        }
    }
    let _ = Dir::TopLeft;
}

#[test]
fn behavior_priorities() {
    assert_eq!(choose_behavior(true, Mode::Sleep, true), Behavior::Twitch);
    assert_eq!(choose_behavior(false, Mode::Sleep, true), Behavior::Sleep);
    assert_eq!(choose_behavior(false, Mode::Autonomous, true), Behavior::Dock);
    assert_eq!(choose_behavior(false, Mode::Autonomous, false), Behavior::Wander);
    assert_eq!(choose_behavior(false, Mode::Yarn, true), Behavior::Yarn);
    assert_eq!(choose_behavior(false, Mode::Mouse, false), Behavior::Mouse);
    assert_eq!(choose_behavior(true, Mode::Mouse, false), Behavior::Twitch);
    assert_eq!(choose_behavior(false, Mode::Other, false), Behavior::Yarn);
    assert_eq!(Behavior::Mouse.label(), "souris");
    assert_eq!(mouse_plan(true), MousePlan::ChasePointer);
    assert_eq!(mouse_plan(false), MousePlan::Stay);
    assert_eq!(Behavior::Wander.label(), "errance");
    assert_eq!(Behavior::Sleep.label(), "sommeil");
}

#[test]
fn mode_names() {
    assert_eq!(Mode::from_name("Pelote"), Mode::Yarn);
    assert_eq!(Mode::from_name("Autonome"), Mode::Autonomous);
    assert_eq!(Mode::from_name("Sommeil"), Mode::Sleep);
    assert_eq!(Mode::from_name("Souris"), Mode::Mouse);
    assert_eq!(Mode::from_name("pelote"), Mode::Other);
    assert_eq!(Mode::from_name("Souris").dashboard_index(), Some(2));
    assert_eq!(Mode::from_name("Sommeil").dashboard_index(), Some(3));
    assert_eq!(Mode::from_name("x").dashboard_index(), None);
    assert!(Mode::Yarn.keeps_ball());
    assert!(!Mode::Sleep.keeps_ball());
}

#[test]
fn rest_lasts_25_ticks_then_new_ball() {
    let mut p = YarnPlay::new();
    assert_eq!(p.next(false), YarnPlan::Respawn);
    assert_eq!(p.next(true), YarnPlan::ChaseBall);
    p.caught();
    for _ in 0..REST_TICKS {
        assert_eq!(p.next(false), YarnPlan::Rest);
    }
    assert_eq!(p.next(false), YarnPlan::Respawn);
}

#[test]
fn dock_after_a_minute() {
    assert!(!is_docked(true, 59));
    assert!(is_docked(true, 60));
    assert!(!is_docked(false, 600));
    assert_eq!(dock_countdown(15), 45);
    assert_eq!(dock_countdown(75), -15);
}

#[test]
fn control_changes_acted_on_once() {
    let mut w = ControlWatch::new();
    let e = w.poll(0, 0);
    assert!(!e.reload && !e.open_dashboard);
    let e = w.poll(1, 0);
    assert!(e.reload && !e.open_dashboard);
    let e = w.poll(1, 0);
    assert!(!e.reload && !e.open_dashboard);
    let e = w.poll(1, 3);
    assert!(!e.reload && e.open_dashboard);
}

#[test]
fn focus_time_restarts_on_change_only() {
    let mut f = FocusWatch::new();
    assert!(!f.valid());
    assert!(f.observe(Some("0xabc".to_string())));
    assert!(f.valid());
    assert!(!f.observe(Some("0xabc".to_string())));
    assert!(f.observe(Some("0xdef".to_string())));
    assert!(!f.observe(None));
    assert!(!f.valid());
    assert!(f.observe(Some("0xdef".to_string())));
}

#[test]
fn old_twitch_click_is_ignored() {
    assert!(twitch_live(true, 0));
    assert!(twitch_live(true, TWITCH_TIMEOUT_MS));
    assert!(!twitch_live(true, TWITCH_TIMEOUT_MS + 1));
    assert!(!twitch_live(false, 0));
    let live = twitch_live(true, TWITCH_TIMEOUT_MS + 500);
    assert_eq!(choose_behavior(live, Mode::Yarn, false), Behavior::Yarn);
}

#[test]
fn sleep_behavior_rests() {
    assert!(matches!(Behavior::Sleep.pet_state(), nekoland::pet::State::Rest));
    assert!(matches!(Behavior::Yarn.pet_state(), nekoland::pet::State::Chase));
    assert!(matches!(Behavior::Mouse.pet_state(), nekoland::pet::State::Chase));
}
