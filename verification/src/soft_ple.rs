//! Detection of vCPUs that spin or idle in place while host CPUs are scarce.
//!
//! A streak counts consecutive internal exits with the guest instruction
//! pointer confined to at most two windows of 64 bytes. A third window is
//! progress and starts over. The boot controller, the vCPU with id zero, is
//! tracked like the others but keeps its CPU: it is the one that others wait for.
use vstd::prelude::*;

use crate::state::{Bridge, BridgeView, MAX_VCPUS};
use crate::vcpu::{running_count, vm_active_vcpu_count};

verus! {

/// The streak at which a vCPU counts as spinning.
pub const SOFT_PLE_RIP_STREAK_THRESHOLD: usize = 3;

/// How many more exits in place confirm a spinning vCPU again.
pub const SOFT_PLE_REPARK_INTERVAL: usize = 2;

/// An unused window.
pub const NO_WINDOW: u64 = 0xffff_ffff_ffff_ffff;

/// The tracking of one vCPU.
#[derive(Clone, Copy, Debug, PartialEq, Eq, Structural)]
pub struct SpinTrack {
    pub last_rip: u64,
    pub last_rip2: u64,
    pub streak: usize,
}

impl SpinTrack {
    /// No window and no streak.
    pub open spec fn spec_reset() -> SpinTrack {
        SpinTrack { last_rip: NO_WINDOW, last_rip2: NO_WINDOW, streak: 0 }
    }

    /// The window of an instruction pointer.
    pub open spec fn window(rip: u64) -> u64 {
        (rip - rip % 64) as u64
    }

    /// A window that the streak is confined to.
    pub open spec fn confined_to(self, w: u64) -> bool {
        w == self.last_rip || w == self.last_rip2
    }

    /// The streak has not matured, and the second window is used only after the
    /// first.
    pub open spec fn inv(self) -> bool {
        &&& self.streak < SOFT_PLE_RIP_STREAK_THRESHOLD
        &&& self.last_rip == NO_WINDOW ==> self.last_rip2 == NO_WINDOW
    }

    /// An exit at `rip` is progress: both windows are taken by others.
    pub open spec fn progresses(self, rip: u64) -> bool {
        &&& !self.confined_to(Self::window(rip))
        &&& self.last_rip != NO_WINDOW
        &&& self.last_rip2 != NO_WINDOW
    }

    /// The tracking after an exit at `rip`, before a matured streak is cut back.
    pub open spec fn counted(self, rip: u64) -> SpinTrack {
        let w = Self::window(rip);
        if self.confined_to(w) {
            SpinTrack { streak: (self.streak + 1) as usize, ..self }
        } else if self.last_rip == NO_WINDOW {
            SpinTrack { last_rip: w, streak: (self.streak + 1) as usize, ..self }
        } else if self.last_rip2 == NO_WINDOW {
            SpinTrack { last_rip2: w, streak: (self.streak + 1) as usize, ..self }
        } else {
            SpinTrack { last_rip: w, last_rip2: NO_WINDOW, streak: 1 }
        }
    }

    /// The streak reached the threshold.
    pub open spec fn matured(self) -> bool {
        self.streak >= SOFT_PLE_RIP_STREAK_THRESHOLD
    }

    /// The tracking after an exit at `rip`.
    pub open spec fn after_exit(self, rip: u64) -> SpinTrack {
        let t = self.counted(rip);
        if t.matured() {
            SpinTrack { streak: (SOFT_PLE_RIP_STREAK_THRESHOLD - SOFT_PLE_REPARK_INTERVAL) as usize, ..t }
        } else {
            t
        }
    }
}

/// The tracking of every vCPU, by vCPU id.
pub struct SoftPle {
    pub tracks: Vec<SpinTrack>,
}

impl View for SoftPle {
    type V = Seq<SpinTrack>;

    open spec fn view(&self) -> Seq<SpinTrack> {
        self.tracks@
    }
}

/// What the host does for a vCPU after an internal exit.
#[derive(Clone, Copy, Debug, PartialEq, Eq, Structural)]
pub enum SpinAction {
    /// Nothing.
    Nothing,
    /// Restore the normal priority of the vCPU's thread.
    Restore,
    /// Yield towards a waiting vCPU, then lower the priority of this one's thread.
    HandOff,
}

/// More vCPUs of a VM compete than the host has CPUs online.
pub open spec fn oversubscribed(b: BridgeView, vm_handle: u64, online: usize) -> bool {
    online != 0 && running_count(b.vcpus, vm_handle) > online
}

/// More vCPUs of a VM compete than the host has CPUs online.
pub fn is_oversubscribed(bridge: &Bridge, vm_handle: u64, online: usize) -> (r: bool)
    requires
        bridge.wf(),
    ensures
        r == oversubscribed(bridge@, vm_handle, online),
{
    online != 0 && vm_active_vcpu_count(bridge, vm_handle) > online
}

proof fn lemma_window(rip: u64)
    by (bit_vector)
    ensures
        rip & !0x3fu64 == rip - rip % 64,
        rip & !0x3fu64 != 0xffff_ffff_ffff_ffff,
{
}

/// The vCPU that boots the guest and starts the others.
pub open spec fn boot_controller(id: u32) -> bool {
    id == 0
}

/// The action and the tracking after an internal exit of the vCPU with an id:
/// without scarce host CPUs or without a known instruction pointer, tracking starts
/// over and the priority is restored. A streak that matures hands the CPU off,
/// unless the vCPU is the boot controller.
pub open spec fn spin_step(id: u32, t: SpinTrack, scarce: bool, rip: Option<u64>) -> (SpinAction, SpinTrack) {
    match rip {
        Some(rip) if scarce => {
            let action = if t.progresses(rip) {
                SpinAction::Restore
            } else if t.counted(rip).matured() && !boot_controller(id) {
                SpinAction::HandOff
            } else {
                SpinAction::Nothing
            };
            (action, t.after_exit(rip))
        },
        _ => (SpinAction::Restore, SpinTrack::spec_reset()),
    }
}

impl SoftPle {
    /// Every vCPU id is tracked, and no streak has matured.
    pub open spec fn wf(&self) -> bool {
        &&& self@.len() == MAX_VCPUS
        &&& forall|i: int| 0 <= i < MAX_VCPUS ==> (#[trigger] self@[i]).inv()
    }

    /// Nothing tracked.
    pub fn new() -> (p: SoftPle)
        ensures
            p.wf(),
            p@ == Seq::new(MAX_VCPUS as nat, |i: int| SpinTrack::spec_reset()),
    {
        let mut tracks: Vec<SpinTrack> = Vec::new();
        let mut i: usize = 0;
        while i < MAX_VCPUS
            invariant
                i <= MAX_VCPUS,
                tracks@ == Seq::new(i as nat, |j: int| SpinTrack::spec_reset()),
            decreases MAX_VCPUS - i,
        {
            tracks.push(SpinTrack { last_rip: NO_WINDOW, last_rip2: NO_WINDOW, streak: 0 });
            i += 1;
        }
        SoftPle { tracks }
    }

    /// Starts the tracking of a vCPU over; an id that is not tracked does nothing.
    pub fn soft_ple_reset(&mut self, vidx: usize)
        requires
            old(self).wf(),
        ensures
            final(self).wf(),
            final(self)@ == (if vidx < MAX_VCPUS {
                old(self)@.update(vidx as int, SpinTrack::spec_reset())
            } else {
                old(self)@
            }),
    {
        if vidx >= MAX_VCPUS {
            return ;
        }
        let ghost before = self@;
        self.tracks[vidx] = SpinTrack { last_rip: NO_WINDOW, last_rip2: NO_WINDOW, streak: 0 };
        proof {
            assert forall|i: int| 0 <= i < MAX_VCPUS implies (#[trigger] self@[i]).inv() by {
                assert(before[i].inv());
            }
        }
    }

    /// Tracks an internal exit of a vCPU and decides what the host does for it.
    /// `online` is the number of host CPUs, `rip` the guest instruction pointer
    /// at the exit where it is known. A vCPU whose id is not tracked is left alone,
    /// and the boot controller is never handed off.
    pub fn soft_ple_maybe_park(&mut self, bridge: &Bridge, vcpu_index: usize, online: usize, rip: Option<u64>) -> (action:
        SpinAction)
        requires
            old(self).wf(),
            bridge.wf(),
            vcpu_index < MAX_VCPUS,
        ensures
            final(self).wf(),
            ({
                let id = bridge@.vcpus[vcpu_index as int].id;
                let scarce = oversubscribed(bridge@, bridge@.vcpus[vcpu_index as int].vm_handle, online);
                if id < MAX_VCPUS {
                    let step = spin_step(id, old(self)@[id as int], scarce, rip);
                    action == step.0 && final(self)@ == old(self)@.update(id as int, step.1)
                } else {
                    action == SpinAction::Nothing && final(self)@ == old(self)@
                }
            }),
            boot_controller(bridge@.vcpus[vcpu_index as int].id) ==> action != SpinAction::HandOff,
    {
        let vcpu_id: u32 = bridge.vcpus[vcpu_index].id;
        let vm_handle: u64 = bridge.vcpus[vcpu_index].vm_handle;
        let vidx: usize = vcpu_id as usize;
        if vidx >= MAX_VCPUS {
            return SpinAction::Nothing;
        }
        if !is_oversubscribed(bridge, vm_handle, online) {
            self.soft_ple_reset(vidx);
            return SpinAction::Restore;
        }
        let rip: u64 = match rip {
            None => {
                self.soft_ple_reset(vidx);
                return SpinAction::Restore;
            },
            Some(rip) => rip,
        };
        let ghost before = self@;
        assert(before[vidx as int].inv());
        proof {
            lemma_window(rip);
        }
        let rip_window: u64 = rip & !0x3f;
        let mut track: SpinTrack = self.tracks[vidx];
        let mut progress: bool = false;
        if rip_window == track.last_rip || rip_window == track.last_rip2 {
            track.streak = track.streak + 1;
        } else if track.last_rip == NO_WINDOW {
            track.last_rip = rip_window;
            track.streak = track.streak + 1;
        } else if track.last_rip2 == NO_WINDOW {
            track.last_rip2 = rip_window;
            track.streak = track.streak + 1;
        } else {
            track.last_rip = rip_window;
            track.last_rip2 = NO_WINDOW;
            track.streak = 1;
            progress = true;
        }
        let confirmed: bool = track.streak >= SOFT_PLE_RIP_STREAK_THRESHOLD;
        if confirmed {
            track.streak = SOFT_PLE_RIP_STREAK_THRESHOLD - SOFT_PLE_REPARK_INTERVAL;
        }
        self.tracks[vidx] = track;
        proof {
            assert(track == before[vidx as int].after_exit(rip));
            assert forall|i: int| 0 <= i < MAX_VCPUS implies (#[trigger] self@[i]).inv() by {
                assert(before[i].inv());
            }
        }
        if progress {
            SpinAction::Restore
        } else if confirmed && vcpu_id != 0 {
            SpinAction::HandOff
        } else {
            SpinAction::Nothing
        }
    }
}

/// A vCPU other than the boot controller whose exits stay within two windows is
/// handed off at its third exit.
pub proof fn spinning_vcpu_is_handed_off(id: u32, a: u64, b: u64, c: u64)
    requires
        !boot_controller(id),
        ({
            let wa = SpinTrack::window(a);
            let wb = SpinTrack::window(b);
            let wc = SpinTrack::window(c);
            wa == wb || wb == wc || wa == wc
        }),
    ensures
        ({
            let t2 = SpinTrack::spec_reset().after_exit(a).after_exit(b);
            spin_step(id, t2, true, Some(c)).0 == SpinAction::HandOff
        }),
{
    lemma_window(a);
    lemma_window(b);
    lemma_window(c);
}

/// Once confirmed, a vCPU other than the boot controller that stays in its windows
/// is handed off again two exits later.
pub proof fn confirmed_vcpu_is_handed_off_again(id: u32, t: SpinTrack, a: u64, b: u64, c: u64)
    requires
        !boot_controller(id),
        t.inv(),
        t.counted(a).matured(),
        t.after_exit(a).confined_to(SpinTrack::window(b)),
        t.after_exit(a).confined_to(SpinTrack::window(c)),
    ensures
        ({
            let t1 = t.after_exit(a);
            &&& spin_step(id, t1, true, Some(b)).0 == SpinAction::Nothing
            &&& spin_step(id, t1.after_exit(b), true, Some(c)).0 == SpinAction::HandOff
        }),
{
}

/// The boot controller is never handed off, however long it stays in place, and it
/// is tracked as any other vCPU is.
pub proof fn boot_controller_is_never_handed_off(id: u32, other: u32, t: SpinTrack, scarce: bool, rip: Option<u64>)
    requires
        boot_controller(id),
    ensures
        spin_step(id, t, scarce, rip).0 != SpinAction::HandOff,
        spin_step(id, t, scarce, rip).1 == spin_step(other, t, scarce, rip).1,
{
}

/// A vCPU that enters a third window makes progress: it is restored, not handed
/// off, and tracking starts over from that window.
pub proof fn progressing_vcpu_is_restored(id: u32, t: SpinTrack, rip: u64)
    requires
        t.inv(),
        t.progresses(rip),
    ensures
        spin_step(id, t, true, Some(rip)) == (
            SpinAction::Restore,
            (SpinTrack { last_rip: SpinTrack::window(rip), last_rip2: NO_WINDOW, streak: 1 }),
        ),
{
}

/// No run of exits through ever new windows is handed off: where each exit leaves
/// the windows of the two before it, the streak never matures.
pub proof fn advancing_vcpu_is_never_handed_off(id: u32, t: SpinTrack, a: u64, b: u64)
    requires
        t.inv(),
        t.last_rip != NO_WINDOW,
        t.last_rip2 == NO_WINDOW,
        t.streak == 1,
        !t.confined_to(SpinTrack::window(a)),
        SpinTrack::window(b) != SpinTrack::window(a),
        !t.confined_to(SpinTrack::window(b)),
    ensures
        spin_step(id, t, true, Some(a)).0 == SpinAction::Nothing,
        spin_step(id, t.after_exit(a), true, Some(b)).0 == SpinAction::Restore,
        t.after_exit(a).after_exit(b).streak == 1,
        t.after_exit(a).after_exit(b).last_rip != NO_WINDOW,
        t.after_exit(a).after_exit(b).last_rip2 == NO_WINDOW,
{
    lemma_window(a);
    lemma_window(b);
}

/// While host CPUs are not scarce no vCPU is handed off.
pub proof fn no_hand_off_without_scarcity(id: u32, t: SpinTrack, rip: Option<u64>)
    ensures
        spin_step(id, t, false, rip) == (SpinAction::Restore, SpinTrack::spec_reset()),
{
}

} // verus!
