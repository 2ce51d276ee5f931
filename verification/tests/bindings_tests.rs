use demonhide::bindings::{classify_interface, GlobalBindings, GlobalInterface};
use demonhide::geometry::{focus_center, Monitor, OutputRecord};

#[test]
fn interface_names_classify_to_their_globals() {
    assert_eq!(
        classify_interface(b"zwp_pointer_constraints_v1"),
        Some(GlobalInterface::PointerConstraints)
    );
    assert_eq!(classify_interface(b"wl_seat"), Some(GlobalInterface::Seat));
    assert_eq!(classify_interface(b"wl_compositor"), Some(GlobalInterface::Compositor));
    assert_eq!(classify_interface(b"wl_output"), Some(GlobalInterface::Output));
    assert_eq!(classify_interface(b"wl_shell"), Some(GlobalInterface::Shell));
    assert_eq!(classify_interface(b"wl_shm"), None);
    assert_eq!(classify_interface(b"wl_seats"), None);
    assert_eq!(classify_interface(b""), None);
}

#[test]
fn binding_globals_sets_their_flags() {
    let mut b = GlobalBindings::new();
    b.on_global(GlobalInterface::PointerConstraints);
    b.on_global(GlobalInterface::Seat);
    b.on_global(GlobalInterface::Compositor);
    assert!(b.has_constraints_manager && b.has_seat && b.has_compositor);
    assert!(!b.has_shell && !b.has_pointer && !b.has_surface);
    b.on_global(GlobalInterface::Output);
    b.on_global(GlobalInterface::Output);
    assert_eq!(b.outputs.len(), 2);
    assert!(!b.outputs[0].has_geometry && !b.outputs[0].has_mode && !b.outputs[0].has_scale);
    assert_eq!(b.outputs[0].scale, 1);
}

#[test]
fn pointer_needs_seat_and_capability_bit() {
    let mut b = GlobalBindings::new();
    // Capabilities without a bound seat do nothing.
    assert!(!b.on_seat_capabilities(1));
    assert!(!b.has_pointer);
    b.on_global(GlobalInterface::Seat);
    // Keyboard capability alone (bit 1) is not the pointer bit.
    assert!(!b.on_seat_capabilities(2));
    assert!(!b.has_pointer);
    assert!(b.on_seat_capabilities(1 | 2));
    assert!(b.has_pointer);
}

#[test]
fn surface_needs_the_compositor() {
    let mut b = GlobalBindings::new();
    assert!(!b.create_surface_step());
    assert!(!b.has_surface);
    b.on_global(GlobalInterface::Compositor);
    assert!(b.create_surface_step());
    assert!(b.has_surface);
}

#[test]
fn output_events_merge_and_preserve_other_fields() {
    let mut b = GlobalBindings::new();
    b.on_global(GlobalInterface::Output);
    b.output_mode(0, 2560, 1440);
    let r = b.outputs[0];
    assert_eq!((r.x, r.y, r.width, r.height, r.scale), (0, 0, 2560, 1440, 1));
    assert!(!r.has_geometry && r.has_mode && !r.has_scale);
    b.output_geometry(0, 1920, 0);
    let r = b.outputs[0];
    assert_eq!((r.x, r.y, r.width, r.height, r.scale), (1920, 0, 2560, 1440, 1));
    b.output_scale(0, 2);
    let r = b.outputs[0];
    assert_eq!((r.x, r.y, r.width, r.height, r.scale), (1920, 0, 2560, 1440, 2));
    assert!(r.has_geometry && r.has_mode && r.has_scale);
    assert!(r.is_complete());
}

#[test]
fn handles_mirror_the_lock_requirements() {
    let mut b = GlobalBindings::new();
    b.on_global(GlobalInterface::PointerConstraints);
    b.on_global(GlobalInterface::Seat);
    b.on_global(GlobalInterface::Compositor);
    b.on_seat_capabilities(1);
    b.create_surface_step();
    let h = b.handles();
    assert!(h.has_constraints_manager && h.has_pointer && h.has_surface);
    assert!(h.ready());
}

#[test]
fn monitor_center_and_containment_arithmetic() {
    let m = Monitor { x: 1920, y: 0, width: 1920, height: 1080, scale: 1 };
    assert_eq!(m.center(), (2880, 540));
    assert!(m.contains(2500, 400));
    assert!(!m.contains(1919, 400));
    assert!(!m.contains(3840, 400));
    let scaled = Monitor { x: 0, y: 0, width: 1920, height: 1080, scale: 2 };
    assert_eq!(scaled.center(), (1920, 1080));
    assert!(scaled.contains(3839, 2159));
    assert!(!scaled.contains(3840, 0));
}

#[test]
fn focus_center_arithmetic() {
    assert_eq!(focus_center(100, 200, 800, 600), (500, 500));
    assert_eq!(focus_center(-1920, 0, 1920, 1080), (-960, 540));
}

#[test]
fn fresh_output_record_reads_as_a_degenerate_monitor() {
    let r = OutputRecord::fresh();
    assert!(!r.is_available());
    let m = r.to_monitor();
    assert_eq!((m.x, m.y, m.width, m.height, m.scale), (0, 0, 0, 0, 1));
}
