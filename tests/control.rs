use fan_control::controller::{Action, AppConfig, Controller, Event};
use fan_control::curve::{calculate_speed_value, Step};
use fan_control::device::{DeviceInfo, FanSpeedInfo};
use fan_control::hysteresis::should_update;

fn curve_of(points: &[(u32, u32)]) -> Vec<Step> {
    points.iter().map(|&(x, y)| Step { x, y }).collect()
}

fn sample_curve() -> Vec<Step> {
    curve_of(&[(30, 20), (60, 50), (90, 100)])
}

fn config(tolerance: u32, log: bool) -> AppConfig {
    AppConfig { interval: 2, tolerance, log, steps: sample_curve() }
}

#[test]
fn interpolation_correctness() {
    let curve = sample_curve();
    assert_eq!(calculate_speed_value(&curve, 45), 35);
    assert_eq!(calculate_speed_value(&curve, 75), 75);
}

#[test]
fn interpolation_exact_values_inside_spans() {
    let curve = sample_curve();
    assert_eq!(calculate_speed_value(&curve, 31), 21);
    assert_eq!(calculate_speed_value(&curve, 59), 49);
    assert_eq!(calculate_speed_value(&curve, 61), 51);
    assert_eq!(calculate_speed_value(&curve, 89), 98);
}

#[test]
fn boundary_fail_safe() {
    let curve = sample_curve();
    assert_eq!(calculate_speed_value(&curve, 30), 0);
    assert_eq!(calculate_speed_value(&curve, 90), 0);
    assert_eq!(calculate_speed_value(&curve, 60), 0);
    assert_eq!(calculate_speed_value(&curve, 0), 0);
    assert_eq!(calculate_speed_value(&curve, 29), 0);
    assert_eq!(calculate_speed_value(&curve, 120), 0);
}

#[test]
fn short_curves_give_zero() {
    assert_eq!(calculate_speed_value(&Vec::new(), 50), 0);
    assert_eq!(calculate_speed_value(&curve_of(&[(30, 40)]), 50), 0);
    assert_eq!(calculate_speed_value(&curve_of(&[(30, 40)]), 30), 0);
}

#[test]
fn falling_curve_interpolates() {
    let curve = curve_of(&[(30, 80), (60, 20)]);
    assert_eq!(calculate_speed_value(&curve, 45), 50);
    assert_eq!(calculate_speed_value(&curve, 40), 60);
    assert_eq!(calculate_speed_value(&curve, 59), 22);
}

#[test]
fn interpolation_rounds_down() {
    let curve = curve_of(&[(0, 0), (3, 2)]);
    assert_eq!(calculate_speed_value(&curve, 1), 0);
    assert_eq!(calculate_speed_value(&curve, 2), 1);
    let falling = curve_of(&[(0, 2), (3, 0)]);
    assert_eq!(calculate_speed_value(&falling, 1), 1);
    assert_eq!(calculate_speed_value(&falling, 2), 0);
}

#[test]
fn unordered_curve_matches_no_reversed_span() {
    let curve = curve_of(&[(60, 50), (30, 20)]);
    assert_eq!(calculate_speed_value(&curve, 45), 0);
}

#[test]
fn first_matching_span_wins() {
    let curve = curve_of(&[(0, 0), (100, 100), (10, 0), (50, 100)]);
    assert_eq!(calculate_speed_value(&curve, 20), 20);
}

#[test]
fn largest_values_do_not_overflow() {
    let rising = curve_of(&[(0, 0), (u32::MAX, u32::MAX)]);
    assert_eq!(calculate_speed_value(&rising, u32::MAX - 1), u32::MAX - 1);
    let falling = curve_of(&[(0, u32::MAX), (u32::MAX, 0)]);
    assert_eq!(calculate_speed_value(&falling, 1), u32::MAX - 1);
}

#[test]
fn hysteresis_gating() {
    assert!(!should_update(50, 47, 5));
    assert!(should_update(50, 45, 5));
    assert!(should_update(50, 44, 5));
}

#[test]
fn hysteresis_is_symmetric_and_zero_tolerance_always_updates() {
    assert!(should_update(45, 50, 5));
    assert!(!should_update(47, 50, 5));
    assert!(should_update(50, 50, 0));
    assert!(!should_update(50, 50, 1));
    assert!(should_update(u32::MAX, 0, u32::MAX));
}

#[test]
fn new_controller_starts_at_zero() {
    assert_eq!(Controller::new().last_temperature, 0);
}

#[test]
fn first_reading_triggers_update() {
    let cfg = config(5, true);
    let mut c = Controller::new();
    let action = c.step(&cfg, Event::Reading(45));
    assert_eq!(action, Action::Actuate { target_speed: 35, log: true });
    assert_eq!(c.last_temperature, 45);
}

#[test]
fn state_update_discipline() {
    let cfg = config(5, false);
    let mut c = Controller { last_temperature: 40 };
    let action = c.step(&cfg, Event::Reading(75));
    assert_eq!(action, Action::Actuate { target_speed: 75, log: false });
    assert_eq!(c.last_temperature, 75);
    let action = c.step(&cfg, Event::Reading(70));
    assert_eq!(action, Action::Actuate { target_speed: 66, log: false });
    assert_eq!(c.last_temperature, 70);
}

#[test]
fn no_update_idempotence() {
    let cfg = config(5, true);
    let mut c = Controller { last_temperature: 50 };
    for t in [50, 51, 54, 46, 47, 53, 50] {
        let action = c.step(&cfg, Event::Reading(t));
        assert_eq!(action, Action::Sleep { seconds: 2 });
        assert_eq!(c.last_temperature, 50);
    }
}

#[test]
fn fatal_telemetry_failure_halts_the_loop() {
    let cfg = config(5, true);
    let mut c = Controller { last_temperature: 50 };
    assert_eq!(c.step(&cfg, Event::ReadFailed), Action::Halt);
    assert_eq!(c.last_temperature, 50);
}

#[test]
fn actuation_failure_does_not_halt_the_loop() {
    let cfg = config(5, true);
    let mut c = Controller::new();
    assert_eq!(c.step(&cfg, Event::Reading(45)), Action::Actuate { target_speed: 35, log: true });
    assert_eq!(c.step(&cfg, Event::ActuationFailed), Action::Sleep { seconds: 2 });
    assert_eq!(c.last_temperature, 45);
    assert_eq!(c.step(&cfg, Event::Reading(75)), Action::Actuate { target_speed: 75, log: true });
    assert_eq!(c.step(&cfg, Event::Actuated), Action::Sleep { seconds: 2 });
    assert_eq!(c.last_temperature, 75);
}

#[test]
fn device_info_numbers_fans_in_order() {
    let info = DeviceInfo::new("GPU".to_string(), 61, vec![30, 45, 0]);
    assert_eq!(info.name, "GPU");
    assert_eq!(info.temperature, 61);
    assert_eq!(
        info.fan_speeds,
        vec![
            FanSpeedInfo { fan_id: 0, speed: 30 },
            FanSpeedInfo { fan_id: 1, speed: 45 },
            FanSpeedInfo { fan_id: 2, speed: 0 },
        ]
    );
    assert!(DeviceInfo::new(String::new(), 0, Vec::new()).fan_speeds.is_empty());
}
