//! The backend's tables together, as the boot and run sequences work on them.
use vstd::prelude::*;

use crate::context::{RunContext, RunContexts, RunContextsView, MAX_RUN_CONTEXTS};
use crate::percpu::{PercpuTable, MAX_HOST_CPUS};
use crate::soft_ple::{SoftPle, SpinTrack};
use crate::state::{
    BackendVcpu, BackendVm, Bridge, BridgeView, PageMapping, MAX_PAGE_MAPPINGS, MAX_VCPUS, MAX_VMS,
};

verus! {

/// The backend's tables.
pub struct Backend {
    pub bridge: Bridge,
    pub contexts: RunContexts,
    pub soft_ple: SoftPle,
    pub percpu: PercpuTable,
}

/// The contents of the backend's tables.
#[verifier::ext_equal]
pub struct BackendView {
    pub bridge: BridgeView,
    pub contexts: RunContextsView,
    pub soft_ple: Seq<SpinTrack>,
    pub percpu: Seq<bool>,
}

impl View for Backend {
    type V = BackendView;

    open spec fn view(&self) -> BackendView {
        BackendView {
            bridge: self.bridge@,
            contexts: self.contexts@,
            soft_ple: self.soft_ple@,
            percpu: self.percpu@,
        }
    }
}

impl BackendView {
    /// Every record is free, no task has a context, no vCPU is seen spinning, and no
    /// host CPU is set up.
    pub open spec fn spec_empty() -> BackendView {
        BackendView {
            bridge: BridgeView {
                vms: Seq::new(MAX_VMS as nat, |i: int| BackendVm::spec_empty()),
                vcpus: Seq::new(MAX_VCPUS as nat, |i: int| BackendVcpu::spec_empty()),
                mappings: Seq::new(MAX_PAGE_MAPPINGS as nat, |i: int| PageMapping::spec_empty()),
            },
            contexts: RunContextsView {
                slots: Seq::new(MAX_RUN_CONTEXTS as nat, |i: int| RunContext::spec_empty()),
                fallback_vm_id: 0,
                fallback_vcpu_id: 0,
            },
            soft_ple: Seq::new(MAX_VCPUS as nat, |i: int| SpinTrack::spec_reset()),
            percpu: Seq::new(MAX_HOST_CPUS as nat, |i: int| false),
        }
    }

    /// The record of the vCPU at a position.
    pub open spec fn vcpu_at(self, slot: usize) -> BackendVcpu {
        self.bridge.vcpus[slot as int]
    }

    /// The tables with one vCPU record replaced.
    pub open spec fn with_vcpu_at(self, slot: usize, vcpu: BackendVcpu) -> BackendView {
        BackendView { bridge: self.bridge.with_vcpu_at(slot as int, vcpu), ..self }
    }

    /// The tables with one VM record replaced.
    pub open spec fn with_vm(self, handle: u64, vm: BackendVm) -> BackendView {
        BackendView { bridge: self.bridge.with_vm(handle, vm), ..self }
    }

    /// The tables without reads of a vCPU that wait for data.
    pub open spec fn reads_cleared(self, slot: usize) -> BackendView {
        self.with_vcpu_at(slot, self.vcpu_at(slot).without_pending_reads())
    }

    /// The tables with the context of a task set.
    pub open spec fn context_set(self, task_id: u64, vm_handle: u64, vcpu_id: u32) -> BackendView {
        BackendView { contexts: self.contexts.set(task_id, vm_handle, vcpu_id as usize), ..self }
    }

    /// The tables with the set-up of host CPUs replaced.
    pub open spec fn with_percpu(self, percpu: Seq<bool>) -> BackendView {
        BackendView { percpu, ..self }
    }
}

impl Backend {
    /// The tables satisfy what every call keeps.
    pub open spec fn wf(&self) -> bool {
        &&& self.bridge.wf()
        &&& self.contexts.wf()
        &&& self.soft_ple.wf()
        &&& self.percpu.wf()
    }

    /// Tables with nothing in them.
    pub fn new() -> (b: Backend)
        ensures
            b.wf(),
            b@ == BackendView::spec_empty(),
            forall|h: u64| !#[trigger] b@.bridge.vm_live(h),
            forall|h: u64| !#[trigger] b@.bridge.vcpu_live(h),
    {
        Backend {
            bridge: Bridge::new(),
            contexts: RunContexts::new(),
            soft_ple: SoftPle::new(),
            percpu: PercpuTable::new(),
        }
    }
}

/// Brings the backend up: there is nothing to do.
pub fn axvisor_kvm_rs_backend_init() -> (r: i32)
    ensures
        r == 0,
{
    0
}

/// Takes the backend down: there is nothing to do, and nothing to say of it.
pub fn axvisor_kvm_rs_backend_exit() {
}

} // verus!
