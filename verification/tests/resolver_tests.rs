use demonhide::geometry::{Monitor, OutputRecord};
use demonhide::resolver::resolve_lock_target;

fn mon(x: i64, y: i64, w: i64, h: i64, s: i64) -> Monitor {
    Monitor { x, y, width: w, height: h, scale: s }
}

fn out(x: i64, y: i64, w: i64, h: i64, s: i64) -> OutputRecord {
    OutputRecord {
        x,
        y,
        width: w,
        height: h,
        scale: s,
        has_geometry: true,
        has_mode: true,
        has_scale: true,
    }
}

#[test]
fn layout_two_monitors_focus_picks_second() {
    let layout = vec![mon(0, 0, 1920, 1080, 1), mon(1920, 0, 1920, 1080, 1)];
    let outputs: Vec<OutputRecord> = Vec::new();
    let target = resolve_lock_target(&layout, &outputs, Some((2500, 400)), None, None, None);
    assert_eq!(target, (2880, 540));
}

#[test]
fn one_live_output_gives_its_center() {
    let layout: Vec<Monitor> = Vec::new();
    let outputs = vec![out(0, 0, 2560, 1440, 1)];
    let target = resolve_lock_target(&layout, &outputs, None, None, None, None);
    assert_eq!(target, (1280, 720));
}

#[test]
fn env_overrides_give_half_scaled_size() {
    let layout: Vec<Monitor> = Vec::new();
    let outputs: Vec<OutputRecord> = Vec::new();
    let w = b"3000".to_vec();
    let h = b"2000".to_vec();
    let s = b"1".to_vec();
    let target = resolve_lock_target(&layout, &outputs, None, Some(&w), Some(&h), Some(&s));
    assert_eq!(target, (1500, 1000));
}

#[test]
fn env_defaults_without_overrides() {
    let layout: Vec<Monitor> = Vec::new();
    let outputs: Vec<OutputRecord> = Vec::new();
    let target = resolve_lock_target(&layout, &outputs, None, None, None, None);
    assert_eq!(target, (960, 540));
}

#[test]
fn unreadable_override_falls_back_to_default() {
    let layout: Vec<Monitor> = Vec::new();
    let outputs: Vec<OutputRecord> = Vec::new();
    let w = b"huge".to_vec();
    let target = resolve_lock_target(&layout, &outputs, None, Some(&w), None, None);
    assert_eq!(target, (960, 540));
}

#[test]
fn layout_beats_live_outputs() {
    let layout = vec![mon(0, 0, 800, 600, 1)];
    let outputs = vec![out(0, 0, 2560, 1440, 1)];
    let target = resolve_lock_target(&layout, &outputs, None, None, None, None);
    assert_eq!(target, (400, 300));
}

#[test]
fn focus_outside_all_monitors_falls_back_to_first() {
    let layout = vec![mon(0, 0, 1920, 1080, 1), mon(1920, 0, 1920, 1080, 1)];
    let outputs: Vec<OutputRecord> = Vec::new();
    let target = resolve_lock_target(&layout, &outputs, Some((9000, 9000)), None, None, None);
    assert_eq!(target, (960, 540));
}

#[test]
fn scaled_monitor_center_and_containment() {
    let layout = vec![mon(0, 0, 1920, 1080, 2), mon(3840, 0, 1920, 1080, 1)];
    let outputs: Vec<OutputRecord> = Vec::new();
    // The first monitor's scaled rectangle is 3840x2160 wide, so a focus at
    // (3000, 500) still lies inside it.
    let target = resolve_lock_target(&layout, &outputs, Some((3000, 500)), None, None, None);
    assert_eq!(target, (1920, 1080));
}

#[test]
fn unavailable_first_output_falls_through_to_env() {
    let layout: Vec<Monitor> = Vec::new();
    let mut rec = OutputRecord::fresh();
    rec.has_geometry = false;
    rec.has_mode = false;
    rec.has_scale = false;
    let outputs = vec![rec];
    let target = resolve_lock_target(&layout, &outputs, None, None, None, None);
    assert_eq!(target, (960, 540));
}

#[test]
fn focus_picks_containing_output() {
    let layout: Vec<Monitor> = Vec::new();
    let outputs = vec![out(0, 0, 1920, 1080, 1), out(1920, 0, 1920, 1080, 1)];
    let target = resolve_lock_target(&layout, &outputs, Some((2500, 400)), None, None, None);
    assert_eq!(target, (2880, 540));
}
