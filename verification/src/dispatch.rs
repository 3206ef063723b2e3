//! The dispatch descriptor.
//!
//! The read-only record describing one dispatch of an accelerator
//! program: work-group and grid dimensions, the argument-buffer address
//! and the completion-notification handle. The external driver owns the
//! record; the runtime only borrows a read-only reference scoped to the
//! current invocation, so all lanes may share it without locking.

use vstd::prelude::*;

verus! {

/// Handle to a completion-notification signal.
#[derive(Copy, Clone, Eq, PartialEq, Structural, Ord, PartialOrd, Hash, Debug)]
pub struct HsaSignal {
    /// The internal representation of the signal.
    pub handle: u64,
}

/// The packet that dispatched the currently running program: work-group
/// and grid dimensions, segment sizes, and the completion signal.
/// Addresses are carried as plain 64-bit words; only the external driver
/// dereferences them.
#[derive(Clone, Eq, PartialEq, Structural, Hash, Debug)]
pub struct HsaKernelDispatchPacket {
    /// Packet header, configuring packet-level parameters.
    pub header: u16,
    /// Dispatch setup parameters, such as the grid dimensionality.
    pub setup: u16,
    /// X dimension of the work-group, in work-items. Must be greater
    /// than 0.
    pub workgroup_size_x: u16,
    /// Y dimension of the work-group, in work-items. Must be greater
    /// than 0.
    pub workgroup_size_y: u16,
    /// Z dimension of the work-group, in work-items. Must be greater
    /// than 0.
    pub workgroup_size_z: u16,
    /// Reserved. Must be 0.
    pub reserved0: u16,
    /// X dimension of the grid, in work-items. Must be greater than 0
    /// and no smaller than `workgroup_size_x`.
    pub grid_size_x: u32,
    /// Y dimension of the grid, in work-items. Must be greater than 0
    /// and no smaller than `workgroup_size_y`.
    pub grid_size_y: u32,
    /// Z dimension of the grid, in work-items. Must be greater than 0
    /// and no smaller than `workgroup_size_z`.
    pub grid_size_z: u32,
    /// Bytes of private memory requested per work-item.
    pub private_segment_size: u32,
    /// Bytes of group memory requested per work-group.
    pub group_segment_size: u32,
    /// Opaque handle to the executable code object.
    pub kernel_object: u64,
    /// Address of the kernel-argument buffer.
    pub kernarg_address: u64,
    /// Reserved. Must be 0.
    pub reserved2: u64,
    /// Signal notified on completion; the null handle 0 means no signal
    /// is used.
    pub completion_signal: HsaSignal,
}

impl HsaKernelDispatchPacket {
    /// The packet's documented validity conditions: every work-group
    /// dimension is positive, no grid dimension is smaller than its
    /// work-group dimension, and the reserved fields are zero.
    pub open spec fn wf(&self) -> bool {
        &&& self.workgroup_size_x >= 1
        &&& self.workgroup_size_y >= 1
        &&& self.workgroup_size_z >= 1
        &&& self.grid_size_x >= self.workgroup_size_x
        &&& self.grid_size_y >= self.workgroup_size_y
        &&& self.grid_size_z >= self.workgroup_size_z
        &&& self.reserved0 == 0
        &&& self.reserved2 == 0
    }

    /// Checks the packet's documented validity conditions.
    pub fn is_well_formed(&self) -> (b: bool)
        ensures
            b == self.wf(),
    {
        self.workgroup_size_x >= 1 && self.workgroup_size_y >= 1 && self.workgroup_size_z >= 1
            && self.grid_size_x >= self.workgroup_size_x as u32
            && self.grid_size_y >= self.workgroup_size_y as u32
            && self.grid_size_z >= self.workgroup_size_z as u32 && self.reserved0 == 0
            && self.reserved2 == 0
    }
}

} // verus!
