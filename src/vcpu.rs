//! Types of the virtual CPU
use vstd::prelude::*;

use crate::time::Duration;

verus! {

/// Type representing the id of a virtual CPU
pub struct VCpuId(u32);

/// Definition of the vCpu's current state type
#[derive(Debug, Clone, Copy, PartialEq, Eq, Structural)]
pub enum VCpuState {
    /// The vCpu is eligible to run but it has not been selected by the scheduler
    Ready,
    /// The vCpu is running
    Running,
    /// The vCpu is not eligible by the scheduler to run. A vCpu reset operation is required to
    /// pass the vCpu to a ready state
    Idle,
    /// The vCpu is not eligible by the scheduler to run. The vCpu can be set to ready state either
    /// by resetting or by resuming it
    Suspended,
    /// The vCpu yields its computation time to the hypervisor until the end of the current slot
    Waiting,
}

/// The kernel's code of a ready vCpu (`xVCpuReady`).
pub const X_VCPU_READY: u32 = 0;

/// The kernel's code of a running vCpu (`xVCpuRunning`).
pub const X_VCPU_RUNNING: u32 = 1;

/// The kernel's code of an idle vCpu (`xVCpuIdle`).
pub const X_VCPU_IDLE: u32 = 2;

/// The kernel's code of a suspended vCpu (`xVCpuSuspended`).
pub const X_VCPU_SUSPENDED: u32 = 3;

/// The kernel's code of a waiting vCpu (`xVCpuWaiting`).
pub const X_VCPU_WAITING: u32 = 4;

/// The kernel's code of a vCpu state.
pub open spec fn state_code(state: VCpuState) -> u32 {
    match state {
        VCpuState::Ready => X_VCPU_READY,
        VCpuState::Running => X_VCPU_RUNNING,
        VCpuState::Idle => X_VCPU_IDLE,
        VCpuState::Suspended => X_VCPU_SUSPENDED,
        VCpuState::Waiting => X_VCPU_WAITING,
    }
}

impl VCpuState {
    /// The code that the kernel ABI uses for this state.
    pub fn code(&self) -> (r: u32)
        ensures
            r == state_code(*self),
    {
        match self {
            VCpuState::Ready => X_VCPU_READY,
            VCpuState::Running => X_VCPU_RUNNING,
            VCpuState::Idle => X_VCPU_IDLE,
            VCpuState::Suspended => X_VCPU_SUSPENDED,
            VCpuState::Waiting => X_VCPU_WAITING,
        }
    }
}

/// Status of the current schedule slot when the vCpu is in running state
pub struct VCpuSchedStatus {
    /// Current slot's identifier
    slot_id: u32,
    /// When the slot started
    slot_start: Duration,
    /// How long the slot lasts
    slot_duration: Duration,
}

} // verus!
