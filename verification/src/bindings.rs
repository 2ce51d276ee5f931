//! Global bindings: which compositor-advertised globals have been bound,
//! and the live per-output records. The host enumerates the registry and
//! holds the actual protocol objects; this state mirrors their existence
//! and carries the data the daemon decides on. Invariant: the lock surface
//! exists only if the compositor was bound, and the pointer device only
//! after the seat was bound and advertised the pointer capability.

use vstd::prelude::*;
use vstd::string::StringSliceAdditionalSpecFns;
use crate::bytes::bytes_eq;
use crate::geometry::OutputRecord;
use crate::lock::Handles;

verus! {

/// The globals this daemon binds when the registry advertises them.
#[derive(Clone, Copy, PartialEq, Eq, Structural, Debug)]
pub enum GlobalInterface {
    /// The pointer-constraints manager extension.
    PointerConstraints,
    /// An input seat.
    Seat,
    /// The compositor, needed to create the lock surface.
    Compositor,
    /// One physical output.
    Output,
    /// The legacy shell; bound for compatibility, unused for locking.
    Shell,
}

/// Which global a registry advertisement names, by its interface string.
pub open spec fn spec_classify(name: Seq<u8>) -> Option<GlobalInterface> {
    if name == "zwp_pointer_constraints_v1".spec_bytes() {
        Some(GlobalInterface::PointerConstraints)
    } else if name == "wl_seat".spec_bytes() {
        Some(GlobalInterface::Seat)
    } else if name == "wl_compositor".spec_bytes() {
        Some(GlobalInterface::Compositor)
    } else if name == "wl_output".spec_bytes() {
        Some(GlobalInterface::Output)
    } else if name == "wl_shell".spec_bytes() {
        Some(GlobalInterface::Shell)
    } else {
        None
    }
}

/// Classify a registry advertisement by its interface name.
pub fn classify_interface(name: &[u8]) -> (r: Option<GlobalInterface>)
    ensures
        r == spec_classify(name@),
{
    if bytes_eq(name, "zwp_pointer_constraints_v1".as_bytes()) {
        Some(GlobalInterface::PointerConstraints)
    } else if bytes_eq(name, "wl_seat".as_bytes()) {
        Some(GlobalInterface::Seat)
    } else if bytes_eq(name, "wl_compositor".as_bytes()) {
        Some(GlobalInterface::Compositor)
    } else if bytes_eq(name, "wl_output".as_bytes()) {
        Some(GlobalInterface::Output)
    } else if bytes_eq(name, "wl_shell".as_bytes()) {
        Some(GlobalInterface::Shell)
    } else {
        None
    }
}

/// The binding flags of two states agree (the output records may differ).
pub open spec fn unchanged_flags(a: GlobalBindings, b: GlobalBindings) -> bool {
    &&& a.has_constraints_manager == b.has_constraints_manager
    &&& a.has_seat == b.has_seat
    &&& a.has_compositor == b.has_compositor
    &&& a.has_shell == b.has_shell
    &&& a.has_pointer == b.has_pointer
    &&& a.has_surface == b.has_surface
}

/// Which globals have been bound, and the per-output records.
#[derive(Clone, PartialEq, Eq, Debug)]
pub struct GlobalBindings {
    pub has_constraints_manager: bool,
    pub has_seat: bool,
    pub has_compositor: bool,
    pub has_shell: bool,
    /// A pointer device was obtained after the seat advertised the pointer
    /// capability.
    pub has_pointer: bool,
    /// The committed lock surface exists.
    pub has_surface: bool,
    /// One record per bound output, in binding order.
    pub outputs: Vec<OutputRecord>,
}

impl GlobalBindings {
    /// The surface needs the compositor, the pointer needs the seat, and
    /// every output record is well formed.
    pub open spec fn wf(self) -> bool {
        &&& (self.has_surface ==> self.has_compositor)
        &&& (self.has_pointer ==> self.has_seat)
        &&& forall|i: int| 0 <= i < self.outputs@.len() ==> #[trigger] self.outputs@[i].wf()
    }

    /// Nothing bound yet.
    pub fn new() -> (b: GlobalBindings)
        ensures
            !b.has_constraints_manager,
            !b.has_seat,
            !b.has_compositor,
            !b.has_shell,
            !b.has_pointer,
            !b.has_surface,
            b.outputs@.len() == 0,
            b.wf(),
    {
        GlobalBindings {
            has_constraints_manager: false,
            has_seat: false,
            has_compositor: false,
            has_shell: false,
            has_pointer: false,
            has_surface: false,
            outputs: Vec::new(),
        }
    }

    /// Record that a global of the given interface was bound: the matching
    /// flag is set, or a fresh record is added for an output; everything
    /// else is preserved. The host binds the actual protocol object when
    /// this is recorded.
    pub fn on_global(&mut self, iface: GlobalInterface)
        requires
            old(self).wf(),
        ensures
            final(self).has_constraints_manager == (old(self).has_constraints_manager || iface
                == GlobalInterface::PointerConstraints),
            final(self).has_seat == (old(self).has_seat || iface == GlobalInterface::Seat),
            final(self).has_compositor == (old(self).has_compositor || iface
                == GlobalInterface::Compositor),
            final(self).has_shell == (old(self).has_shell || iface == GlobalInterface::Shell),
            final(self).has_pointer == old(self).has_pointer,
            final(self).has_surface == old(self).has_surface,
            iface == GlobalInterface::Output ==> final(self).outputs@ == old(self).outputs@.push(
                OutputRecord {
                    x: 0,
                    y: 0,
                    width: 0,
                    height: 0,
                    scale: 1,
                    has_geometry: false,
                    has_mode: false,
                    has_scale: false,
                },
            ),
            iface != GlobalInterface::Output ==> final(self).outputs@ == old(self).outputs@,
            final(self).wf(),
    {
        match iface {
            GlobalInterface::PointerConstraints => {
                self.has_constraints_manager = true;
            },
            GlobalInterface::Seat => {
                self.has_seat = true;
            },
            GlobalInterface::Compositor => {
                self.has_compositor = true;
            },
            GlobalInterface::Shell => {
                self.has_shell = true;
            },
            GlobalInterface::Output => {
                self.outputs.push(OutputRecord::fresh());
            },
        }
    }

    /// The seat advertised its capabilities: a pointer device is obtained
    /// exactly when the seat is bound and the pointer bit is set. Returns
    /// whether the host must create the pointer device.
    pub fn on_seat_capabilities(&mut self, capabilities: u32) -> (create_pointer: bool)
        requires
            old(self).wf(),
        ensures
            create_pointer == (old(self).has_seat && (capabilities & 1u32) != 0u32),
            *final(self) == (GlobalBindings {
                has_pointer: old(self).has_pointer || create_pointer,
                ..*old(self)
            }),
            final(self).wf(),
    {
        let create = self.has_seat && (capabilities & 1u32) != 0u32;
        if create {
            self.has_pointer = true;
        }
        create
    }

    /// Create and commit the lock surface once binding is done: possible
    /// exactly when the compositor is bound. Returns whether the host must
    /// create the surface.
    pub fn create_surface_step(&mut self) -> (create: bool)
        requires
            old(self).wf(),
        ensures
            create == old(self).has_compositor,
            *final(self) == (GlobalBindings {
                has_surface: old(self).has_surface || create,
                ..*old(self)
            }),
            final(self).wf(),
    {
        let create = self.has_compositor;
        if create {
            self.has_surface = true;
        }
        create
    }

    /// A geometry event for the output at `idx`: its position is updated,
    /// everything else is preserved.
    pub fn output_geometry(&mut self, idx: usize, x: i32, y: i32)
        requires
            old(self).wf(),
            idx < old(self).outputs@.len(),
        ensures
            final(self).outputs@ == old(self).outputs@.update(
                idx as int,
                (OutputRecord {
                    x: x as i64,
                    y: y as i64,
                    has_geometry: true,
                    ..old(self).outputs@[idx as int]
                }),
            ),
            unchanged_flags(*old(self), *final(self)),
            final(self).wf(),
    {
        let mut rec = self.outputs[idx];
        rec.apply_geometry(x, y);
        self.outputs[idx] = rec;
        proof {
            assert(old(self).outputs@[idx as int].wf());
            assert forall|i: int| 0 <= i < self.outputs@.len() implies #[trigger] self.outputs@[i].wf() by {
                if i != idx {
                    assert(self.outputs@[i] == old(self).outputs@[i]);
                }
            }
        }
    }

    /// A mode event for the output at `idx`: its logical size is updated
    /// (negative sizes recorded as zero), everything else is preserved.
    pub fn output_mode(&mut self, idx: usize, width: i32, height: i32)
        requires
            old(self).wf(),
            idx < old(self).outputs@.len(),
        ensures
            final(self).outputs@ == old(self).outputs@.update(
                idx as int,
                (OutputRecord {
                    width: if width >= 0 {
                        width as i64
                    } else {
                        0
                    },
                    height: if height >= 0 {
                        height as i64
                    } else {
                        0
                    },
                    has_mode: true,
                    ..old(self).outputs@[idx as int]
                }),
            ),
            unchanged_flags(*old(self), *final(self)),
            final(self).wf(),
    {
        let mut rec = self.outputs[idx];
        rec.apply_mode(width, height);
        self.outputs[idx] = rec;
        proof {
            assert(old(self).outputs@[idx as int].wf());
            assert forall|i: int| 0 <= i < self.outputs@.len() implies #[trigger] self.outputs@[i].wf() by {
                if i != idx {
                    assert(self.outputs@[i] == old(self).outputs@[i]);
                }
            }
        }
    }

    /// A scale event for the output at `idx`: its scale factor is updated
    /// (negative factors recorded as zero), everything else is preserved.
    pub fn output_scale(&mut self, idx: usize, factor: i32)
        requires
            old(self).wf(),
            idx < old(self).outputs@.len(),
        ensures
            final(self).outputs@ == old(self).outputs@.update(
                idx as int,
                (OutputRecord {
                    scale: if factor >= 0 {
                        factor as i64
                    } else {
                        0
                    },
                    has_scale: true,
                    ..old(self).outputs@[idx as int]
                }),
            ),
            unchanged_flags(*old(self), *final(self)),
            final(self).wf(),
    {
        let mut rec = self.outputs[idx];
        rec.apply_scale(factor);
        self.outputs[idx] = rec;
        proof {
            assert(old(self).outputs@[idx as int].wf());
            assert forall|i: int| 0 <= i < self.outputs@.len() implies #[trigger] self.outputs@[i].wf() by {
                if i != idx {
                    assert(self.outputs@[i] == old(self).outputs@[i]);
                }
            }
        }
    }

    /// The protocol handles the lock path needs, as the state machine reads
    /// them.
    pub fn handles(&self) -> (h: Handles)
        ensures
            h == (Handles {
                has_constraints_manager: self.has_constraints_manager,
                has_pointer: self.has_pointer,
                has_surface: self.has_surface,
            }),
    {
        Handles {
            has_constraints_manager: self.has_constraints_manager,
            has_pointer: self.has_pointer,
            has_surface: self.has_surface,
        }
    }
}

} // verus!
