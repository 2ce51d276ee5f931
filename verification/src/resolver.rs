//! Lock-target resolution: the point the pointer is pinned to while locked.
//! Three sources are tried in priority order and the resolver always
//! returns a point:
//! 1. entries parsed from the user's layout file, when there are any;
//! 2. live output records collected from protocol events;
//! 3. numeric environment overrides, with 1920 x 1080 at scale 1 as the
//!    final default.
//! Within the first two sources, the monitor whose scaled rectangle
//! contains the focused window's center wins; otherwise the first entry.

use vstd::prelude::*;
use crate::bytes::{parse_i32, spec_parse_i32};
use crate::geometry::{lemma_scaled_extent_bounds, Monitor, OutputRecord};

verus! {

/// Index of the first monitor whose scaled rectangle contains the point,
/// scanning from `i`.
pub open spec fn first_containing(mons: Seq<Monitor>, fx: int, fy: int, i: int) -> Option<int>
    decreases mons.len() - i,
{
    if i < 0 || i >= mons.len() {
        None
    } else if mons[i].spec_contains(fx, fy) {
        Some(i)
    } else {
        first_containing(mons, fx, fy, i + 1)
    }
}

/// Index of the first output that has live data and whose rectangle
/// contains the point, scanning from `i`.
pub open spec fn first_containing_output(
    outs: Seq<OutputRecord>,
    fx: int,
    fy: int,
    i: int,
) -> Option<int>
    decreases outs.len() - i,
{
    if i < 0 || i >= outs.len() {
        None
    } else if outs[i].available() && outs[i].as_monitor().spec_contains(fx, fy) {
        Some(i)
    } else {
        first_containing_output(outs, fx, fy, i + 1)
    }
}

/// Target from a non-empty layout-file monitor list: the center of the
/// monitor containing the focus point when one is known and found, else
/// the center of the first entry.
pub open spec fn spec_layout_target(mons: Seq<Monitor>, focus: Option<(int, int)>) -> (int, int)
    recommends
        mons.len() > 0,
{
    let chosen = match focus {
        Some(f) => first_containing(mons, f.0, f.1, 0),
        None => None,
    };
    match chosen {
        Some(i) => (mons[i].spec_center_x(), mons[i].spec_center_y()),
        None => (mons[0].spec_center_x(), mons[0].spec_center_y()),
    }
}

/// Target from live output records: the center of the available output
/// containing the focus point, else the center of the first output when it
/// has live data, else nothing.
pub open spec fn spec_output_target(outs: Seq<OutputRecord>, focus: Option<(int, int)>) -> Option<
    (int, int),
> {
    let chosen = match focus {
        Some(f) => first_containing_output(outs, f.0, f.1, 0),
        None => None,
    };
    match chosen {
        Some(i) => Some(
            (outs[i].as_monitor().spec_center_x(), outs[i].as_monitor().spec_center_y()),
        ),
        None => if outs.len() > 0 && outs[0].available() {
            Some((outs[0].as_monitor().spec_center_x(), outs[0].as_monitor().spec_center_y()))
        } else {
            None
        },
    }
}

/// A numeric override: its value when it parses as a non-negative 32-bit
/// number, else the default.
pub open spec fn override_or(raw: Option<Seq<u8>>, default: int) -> int {
    match raw {
        None => default,
        Some(s) => match spec_parse_i32(s) {
            Some(v) => if v >= 0 {
                v
            } else {
                default
            },
            None => default,
        },
    }
}

/// Target from environment overrides alone: half the scaled size, with no
/// position offset.
pub open spec fn spec_env_target(
    width_raw: Option<Seq<u8>>,
    height_raw: Option<Seq<u8>>,
    scale_raw: Option<Seq<u8>>,
) -> (int, int) {
    let w = override_or(width_raw, 1920);
    let h = override_or(height_raw, 1080);
    let s = override_or(scale_raw, 1);
    ((w * s) / 2, (h * s) / 2)
}

/// The resolved lock target: layout entries first, then live outputs, then
/// environment overrides.
pub open spec fn spec_resolve_target(
    layout: Seq<Monitor>,
    outs: Seq<OutputRecord>,
    focus: Option<(int, int)>,
    width_raw: Option<Seq<u8>>,
    height_raw: Option<Seq<u8>>,
    scale_raw: Option<Seq<u8>>,
) -> (int, int) {
    if layout.len() > 0 {
        spec_layout_target(layout, focus)
    } else {
        match spec_output_target(outs, focus) {
            Some(t) => t,
            None => spec_env_target(width_raw, height_raw, scale_raw),
        }
    }
}

/// The focus point seen as a pair of mathematical integers.
pub open spec fn focus_view(focus: Option<(i64, i64)>) -> Option<(int, int)> {
    match focus {
        Some(f) => Some((f.0 as int, f.1 as int)),
        None => None,
    }
}

/// The raw override bytes seen as an optional byte sequence.
pub open spec fn raw_view(raw: Option<&Vec<u8>>) -> Option<Seq<u8>> {
    match raw {
        Some(v) => Some(v@),
        None => None,
    }
}

/// One environment override, parsed; out-of-range, negative or unreadable
/// values fall back to the default.
fn parse_override(raw: Option<&Vec<u8>>, default: i32) -> (v: i32)
    requires
        default >= 0,
    ensures
        v as int == override_or(raw_view(raw), default as int),
        v >= 0,
{
    match raw {
        None => default,
        Some(s) => match parse_i32(s.as_slice()) {
            Some(v) => if v >= 0 {
                v
            } else {
                default
            },
            None => default,
        },
    }
}

/// First monitor in the list containing the focus point.
#[verifier::loop_isolation(false)]
fn find_containing(mons: &Vec<Monitor>, fx: i64, fy: i64) -> (r: Option<usize>)
    requires
        forall|i: int| 0 <= i < mons@.len() ==> #[trigger] mons@[i].wf(),
    ensures
        match r {
            Some(i) => i < mons@.len() && first_containing(mons@, fx as int, fy as int, 0) == Some(
                i as int,
            ),
            None => first_containing(mons@, fx as int, fy as int, 0) is None,
        },
{
    let mut i: usize = 0;
    while i < mons.len()
        invariant
            i <= mons@.len(),
            first_containing(mons@, fx as int, fy as int, 0) == first_containing(
                mons@,
                fx as int,
                fy as int,
                i as int,
            ),
        decreases mons@.len() - i,
    {
        if mons[i].contains(fx, fy) {
            return Some(i);
        }
        i += 1;
    }
    None
}

/// First available output in the list containing the focus point.
#[verifier::loop_isolation(false)]
fn find_containing_output(outs: &Vec<OutputRecord>, fx: i64, fy: i64) -> (r: Option<usize>)
    requires
        forall|i: int| 0 <= i < outs@.len() ==> #[trigger] outs@[i].wf(),
    ensures
        match r {
            Some(i) => i < outs@.len() && first_containing_output(outs@, fx as int, fy as int, 0)
                == Some(i as int),
            None => first_containing_output(outs@, fx as int, fy as int, 0) is None,
        },
{
    let mut i: usize = 0;
    while i < outs.len()
        invariant
            i <= outs@.len(),
            first_containing_output(outs@, fx as int, fy as int, 0) == first_containing_output(
                outs@,
                fx as int,
                fy as int,
                i as int,
            ),
        decreases outs@.len() - i,
    {
        let rec = &outs[i];
        if rec.is_available() && rec.to_monitor().contains(fx, fy) {
            return Some(i);
        }
        i += 1;
    }
    None
}

/// Resolve the point the pointer will be locked to. Never fails: layout
/// entries win, then live output records, then environment overrides with
/// built-in defaults.
pub fn resolve_lock_target(
    layout: &Vec<Monitor>,
    outputs: &Vec<OutputRecord>,
    focus: Option<(i64, i64)>,
    width_raw: Option<&Vec<u8>>,
    height_raw: Option<&Vec<u8>>,
    scale_raw: Option<&Vec<u8>>,
) -> (target: (i64, i64))
    requires
        forall|i: int| 0 <= i < layout@.len() ==> #[trigger] layout@[i].wf(),
        forall|i: int| 0 <= i < outputs@.len() ==> #[trigger] outputs@[i].wf(),
    ensures
        (target.0 as int, target.1 as int) == spec_resolve_target(
            layout@,
            outputs@,
            focus_view(focus),
            raw_view(width_raw),
            raw_view(height_raw),
            raw_view(scale_raw),
        ),
{
    if layout.len() > 0 {
        let chosen: Option<usize> = match focus {
            Some(f) => find_containing(layout, f.0, f.1),
            None => None,
        };
        let m: &Monitor = match chosen {
            Some(i) => &layout[i],
            None => &layout[0],
        };
        return m.center();
    }
    let chosen: Option<usize> = match focus {
        Some(f) => find_containing_output(outputs, f.0, f.1),
        None => None,
    };
    match chosen {
        Some(i) => {
            return outputs[i].to_monitor().center();
        },
        None => {
            if outputs.len() > 0 {
                let rec = &outputs[0];
                if rec.is_available() {
                    return rec.to_monitor().center();
                }
            }
        },
    }
    let w = parse_override(width_raw, 1920);
    let h = parse_override(height_raw, 1080);
    let s = parse_override(scale_raw, 1);
    proof {
        lemma_scaled_extent_bounds(w as int, s as int);
        lemma_scaled_extent_bounds(h as int, s as int);
    }
    let tx: i64 = ((w as i64) * (s as i64)) / 2;
    let ty: i64 = ((h as i64) * (s as i64)) / 2;
    (tx, ty)
}

} // verus!
