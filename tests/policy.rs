use laptop_lights::policy::{als_to_dsp, als_to_kb, mult, step_down, step_up};
use laptop_lights::types::{build_device, get_brightness_file, get_max_file};

#[test]
fn keyboard_level_dark_is_tenth_of_max() {
    assert_eq!(als_to_kb(0, 255), 25);
    assert_eq!(als_to_kb(4, 3), 0);
    assert_eq!(als_to_kb(4, 100), 10);
    assert_eq!(als_to_kb(4, 0), 0);
}

#[test]
fn keyboard_level_bright_is_off() {
    assert_eq!(als_to_kb(5, 255), 0);
    assert_eq!(als_to_kb(1000, 255), 0);
    assert_eq!(als_to_kb(u32::MAX, u32::MAX), 0);
}

#[test]
fn display_level_formula_truncates() {
    // 0.15 * 153 = 22.95
    assert_eq!(als_to_dsp(0, 255), 22);
    // 255 * (4500 + 51 * 297) / 50000 = 100.19...
    assert_eq!(als_to_dsp(297, 255), 100);
    // at 500: 0.09 * max + 0.51 * max = 0.6 * max
    assert_eq!(als_to_dsp(500, 1000), 600);
    assert_eq!(als_to_dsp(1000, 1000), 1110);
    assert_eq!(als_to_dsp(0, 0), 0);
}

#[test]
fn display_level_saturates() {
    assert_eq!(als_to_dsp(u32::MAX, u32::MAX), u32::MAX);
}

#[test]
fn step_down_floors_at_zero() {
    assert_eq!(step_down(100, 25), 75);
    assert_eq!(step_down(10, 25), 0);
    assert_eq!(step_down(0, 0), 0);
}

#[test]
fn step_up_caps_at_max() {
    assert_eq!(step_up(100, 25, 255), 125);
    assert_eq!(step_up(250, 25, 255), 255);
    assert_eq!(step_up(u32::MAX, u32::MAX, 7), 7);
}

#[test]
fn step_down_then_up_not_above_start() {
    for &(level, step, max) in &[(100u32, 25u32, 255u32), (255, 25, 255), (30, 30, 10), (7, 3, 100)] {
        assert!(step_up(step_down(level, step), step, max) <= level);
        assert!(step_up(level, step, max) <= max);
    }
}

#[test]
fn dim_truncates() {
    assert_eq!(mult(60, 125), 75);
    assert_eq!(mult(60, 101), 60);
    assert_eq!(mult(0, 200), 0);
    assert_eq!(mult(100, u32::MAX), u32::MAX);
}

#[test]
fn device_paths_and_step() {
    assert_eq!(get_brightness_file("/sys/class/backlight/intel"), "/sys/class/backlight/intel/brightness");
    assert_eq!(get_max_file("/sys/x"), "/sys/x/max_brightness");
    let d = build_device("/sys/x", 255, 10);
    assert_eq!(d.file, "/sys/x/brightness");
    assert_eq!(d.max, 255);
    assert_eq!(d.step, 25);
    assert_eq!(build_device("/sys/x", 3, 10).step, 0);
}
