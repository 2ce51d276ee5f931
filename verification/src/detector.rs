//! Trigger detection: the raw "should lock" reading taken each tick, and
//! the debouncer that only lets a change through once the raw reading has
//! stayed the same for a fixed number of consecutive ticks.
//!
//! The raw reading under the fullscreen policy is true exactly when the
//! session has both a Wayland marker and an X11 display, a focused window
//! other than the root was observed, that window covers the whole screen,
//! and the cursor image is hidden (unreadable, or at most one pixel in each
//! direction). All observations are conservative: anything unreadable makes
//! the corresponding check fail closed, except the cursor image, which is
//! assumed hidden when unreadable.

use vstd::prelude::*;

verus! {

/// How many consecutive identical raw readings must accumulate before the
/// debounced signal adopts them.
pub const DEBOUNCE_THRESHOLD: u32 = 3;

/// Size of a cursor image in pixels.
#[derive(Clone, Copy, PartialEq, Eq, Structural, Debug)]
pub struct CursorSize {
    pub width: i32,
    pub height: i32,
}

/// What one transient X11 inspection saw. Produced outside and handed in as
/// plain values; `None` for the whole observation means the display could
/// not be opened.
#[derive(Clone, Copy, PartialEq, Eq, Structural, Debug)]
pub struct X11Observation {
    /// A focused window other than the root exists and its attributes were
    /// read.
    pub focus_valid: bool,
    pub window_width: i32,
    pub window_height: i32,
    pub screen_width: i32,
    pub screen_height: i32,
    /// The cursor-shape extension answered the version query.
    pub xfixes_available: bool,
    /// Size of the current cursor image; `None` when it could not be read.
    pub cursor: Option<CursorSize>,
}

/// A window is fullscreen when it covers the whole screen in both
/// directions.
pub open spec fn spec_is_fullscreen(ww: int, wh: int, sw: int, sh: int) -> bool {
    ww >= sw && wh >= sh
}

/// The cursor counts as hidden when its image is unreadable or at most one
/// pixel in each direction.
pub open spec fn spec_cursor_hidden(cursor: Option<CursorSize>) -> bool {
    match cursor {
        None => true,
        Some(c) => c.width <= 1 && c.height <= 1,
    }
}

/// Whether one X11 observation triggers the lock: valid focus, fullscreen
/// window, cursor-shape extension present, hidden cursor.
pub open spec fn spec_observation_triggers(obs: X11Observation) -> bool {
    &&& obs.focus_valid
    &&& spec_is_fullscreen(
        obs.window_width as int,
        obs.window_height as int,
        obs.screen_width as int,
        obs.screen_height as int,
    )
    &&& obs.xfixes_available
    &&& spec_cursor_hidden(obs.cursor)
}

/// The raw reading: both session markers present and the observation, when
/// one could be taken at all, triggers.
pub open spec fn spec_raw_reading(
    wayland_present: bool,
    x11_present: bool,
    obs: Option<X11Observation>,
) -> bool {
    &&& wayland_present
    &&& x11_present
    &&& match obs {
        None => false,
        Some(o) => spec_observation_triggers(o),
    }
}

/// Whether a window of the given size covers the given screen.
pub fn is_fullscreen(ww: i32, wh: i32, sw: i32, sh: i32) -> (r: bool)
    ensures
        r == spec_is_fullscreen(ww as int, wh as int, sw as int, sh as int),
{
    ww >= sw && wh >= sh
}

/// Whether a cursor image, or its absence, counts as hidden.
pub fn cursor_hidden(cursor: Option<CursorSize>) -> (r: bool)
    ensures
        r == spec_cursor_hidden(cursor),
{
    match cursor {
        None => true,
        Some(c) => c.width <= 1 && c.height <= 1,
    }
}

/// The raw "should lock" reading for one tick under the fullscreen policy.
pub fn raw_reading(wayland_present: bool, x11_present: bool, obs: Option<&X11Observation>) -> (r:
    bool)
    ensures
        r == spec_raw_reading(
            wayland_present,
            x11_present,
            match obs {
                Some(o) => Some(*o),
                None => None,
            },
        ),
{
    if !wayland_present || !x11_present {
        return false;
    }
    match obs {
        None => false,
        Some(o) => {
            o.focus_valid && is_fullscreen(
                o.window_width,
                o.window_height,
                o.screen_width,
                o.screen_height,
            ) && o.xfixes_available && cursor_hidden(o.cursor)
        },
    }
}

/// The debouncer: the last raw reading, how many consecutive ticks it has
/// held, and the debounced signal that the state machine acts on. The
/// counter resets to one whenever the raw reading changes, and the
/// debounced signal adopts the reading only once the counter reaches the
/// threshold.
#[derive(Clone, Copy, PartialEq, Eq, Structural, Debug)]
pub struct Debouncer {
    pub last_raw: bool,
    pub stable_count: u32,
    pub debounced: bool,
}

impl Debouncer {
    /// The counter never runs past the threshold.
    pub open spec fn wf(self) -> bool {
        self.stable_count <= DEBOUNCE_THRESHOLD
    }

    /// A fresh debouncer reporting `initial` until readings accumulate.
    pub open spec fn spec_new(initial: bool) -> Debouncer {
        Debouncer { last_raw: initial, stable_count: 0, debounced: initial }
    }

    /// The state after one raw reading: the counter restarts at one on a
    /// change and otherwise grows to at most the threshold, and the
    /// debounced signal adopts the reading exactly when the counter has
    /// reached the threshold.
    pub open spec fn spec_observe(self, raw: bool) -> Debouncer {
        let count: int = if raw != self.last_raw {
            1
        } else if self.stable_count < DEBOUNCE_THRESHOLD {
            self.stable_count + 1
        } else {
            self.stable_count as int
        };
        Debouncer {
            last_raw: raw,
            stable_count: count as u32,
            debounced: if count >= DEBOUNCE_THRESHOLD {
                raw
            } else {
                self.debounced
            },
        }
    }

    /// A fresh debouncer.
    pub fn new(initial: bool) -> (d: Debouncer)
        ensures
            d == Debouncer::spec_new(initial),
            d.wf(),
    {
        Debouncer { last_raw: initial, stable_count: 0, debounced: initial }
    }

    /// Feed one raw reading.
    pub fn observe(&mut self, raw: bool)
        requires
            old(self).wf(),
        ensures
            *final(self) == old(self).spec_observe(raw),
            final(self).wf(),
    {
        if raw != self.last_raw {
            self.stable_count = 1;
            self.last_raw = raw;
        } else if self.stable_count < DEBOUNCE_THRESHOLD {
            self.stable_count = self.stable_count + 1;
        }
        if self.stable_count >= DEBOUNCE_THRESHOLD {
            self.debounced = raw;
        }
    }
}

/// The debouncer state after a whole sequence of raw readings.
pub open spec fn spec_run(d: Debouncer, rs: Seq<bool>) -> Debouncer
    decreases rs.len(),
{
    if rs.len() == 0 {
        d
    } else {
        spec_run(d, rs.drop_last()).spec_observe(rs.last())
    }
}

/// The debounced signal after each reading of a sequence.
pub open spec fn spec_outputs(d: Debouncer, rs: Seq<bool>) -> Seq<bool> {
    Seq::new(rs.len(), |i: int| spec_run(d, rs.take(i + 1)).debounced)
}

/// After at least one reading, the counter counts exactly a run of equal
/// readings at the end of the sequence: it is between one and the
/// threshold, no larger than the number of readings, the stored reading is
/// the last one, and the last `stable_count` readings all equal it.
proof fn lemma_run_stability(d0: Debouncer, rs: Seq<bool>)
    requires
        d0.stable_count == 0,
        rs.len() >= 1,
    ensures
        ({
            let d = spec_run(d0, rs);
            &&& 1 <= d.stable_count <= DEBOUNCE_THRESHOLD
            &&& d.stable_count <= rs.len()
            &&& d.last_raw == rs.last()
            &&& forall|j: int| rs.len() - d.stable_count <= j < rs.len() ==> rs[j] == rs.last()
        }),
    decreases rs.len(),
{
    if rs.len() == 1 {
        assert(rs.drop_last().len() == 0);
        assert(spec_run(d0, rs.drop_last()) == d0);
        assert(spec_run(d0, rs) == d0.spec_observe(rs.last()));
    } else {
        let prefix = rs.drop_last();
        lemma_run_stability(d0, prefix);
        let dprev = spec_run(d0, prefix);
        let d = spec_run(d0, rs);
        assert(d == dprev.spec_observe(rs.last()));
        if rs.last() == dprev.last_raw {
            assert(prefix.last() == rs[rs.len() - 2]);
            assert forall|j: int| rs.len() - d.stable_count <= j < rs.len() implies rs[j]
                == rs.last() by {
                if j < rs.len() - 1 {
                    assert(prefix[j] == rs[j]);
                    assert(prefix.len() - dprev.stable_count <= j < prefix.len());
                }
            }
        }
    }
}

/// When the last `k` readings all agree, the counter has reached at least
/// `k` (up to the threshold, where it is capped).
proof fn lemma_run_count_lower(d0: Debouncer, rs: Seq<bool>, k: int)
    requires
        d0.stable_count == 0,
        1 <= k <= rs.len(),
        k <= DEBOUNCE_THRESHOLD,
        forall|j: int| rs.len() - k <= j < rs.len() ==> rs[j] == rs.last(),
    ensures
        spec_run(d0, rs).stable_count >= k,
    decreases k,
{
    lemma_run_stability(d0, rs);
    if k > 1 {
        let prefix = rs.drop_last();
        assert(prefix.last() == rs[rs.len() - 2]);
        assert(rs[rs.len() - 2] == rs.last());
        assert forall|j: int| prefix.len() - (k - 1) <= j < prefix.len() implies prefix[j]
            == prefix.last() by {
            assert(prefix[j] == rs[j]);
        }
        lemma_run_count_lower(d0, prefix, k - 1);
        lemma_run_stability(d0, prefix);
        let dprev = spec_run(d0, prefix);
        assert(dprev.last_raw == prefix.last());
        assert(spec_run(d0, rs) == dprev.spec_observe(rs.last()));
    }
}

/// The debounce law, adoption direction: on the tick that completes a
/// threshold-long run of identical raw readings, the debounced signal
/// equals that reading.
pub proof fn lemma_debounce_adopt(initial: bool, rs: Seq<bool>, i: int)
    requires
        0 <= i < rs.len(),
        DEBOUNCE_THRESHOLD <= i + 1,
        forall|j: int| i + 1 - DEBOUNCE_THRESHOLD <= j <= i ==> rs[j] == rs[i],
    ensures
        spec_outputs(Debouncer::spec_new(initial), rs)[i] == rs[i],
{
    let d0 = Debouncer::spec_new(initial);
    let cur = rs.take(i + 1);
    assert(cur.last() == rs[i]);
    assert forall|j: int| cur.len() - DEBOUNCE_THRESHOLD <= j < cur.len() implies cur[j]
        == cur.last() by {
        assert(cur[j] == rs[j]);
    }
    lemma_run_count_lower(d0, cur, DEBOUNCE_THRESHOLD as int);
    assert(cur.drop_last() =~= rs.take(i));
    let dprev = spec_run(d0, rs.take(i));
    assert(spec_run(d0, cur) == dprev.spec_observe(rs[i]));
}

/// The debounce law: starting from a fresh debouncer, the debounced signal
/// changes at a tick only when that tick completes a threshold-long run of
/// identical raw readings, and it changes to that reading.
pub proof fn lemma_debounce_change(initial: bool, rs: Seq<bool>, i: int)
    requires
        0 <= i < rs.len(),
        spec_outputs(Debouncer::spec_new(initial), rs)[i] != (if i == 0 {
            initial
        } else {
            spec_outputs(Debouncer::spec_new(initial), rs)[i - 1]
        }),
    ensures
        DEBOUNCE_THRESHOLD <= i + 1,
        forall|j: int| i + 1 - DEBOUNCE_THRESHOLD <= j <= i ==> rs[j] == rs[i],
        spec_outputs(Debouncer::spec_new(initial), rs)[i] == rs[i],
{
    let d0 = Debouncer::spec_new(initial);
    let cur = rs.take(i + 1);
    let dprev = spec_run(d0, rs.take(i));
    assert(cur.drop_last() =~= rs.take(i));
    assert(cur.last() == rs[i]);
    assert(spec_run(d0, cur) == dprev.spec_observe(rs[i]));
    if i > 0 {
        assert(spec_outputs(d0, rs)[i - 1] == spec_run(d0, rs.take(i)).debounced);
    }
    let d = spec_run(d0, cur);
    assert(d.stable_count >= DEBOUNCE_THRESHOLD && d.debounced == rs[i]);
    lemma_run_stability(d0, cur);
    assert forall|j: int| i + 1 - DEBOUNCE_THRESHOLD <= j <= i implies rs[j] == rs[i] by {
        assert(cur[j] == rs[j]);
        assert(cur.last() == rs[i]);
    }
}

} // verus!
