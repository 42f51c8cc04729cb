//! Logical device: the selected GPU as the library uses it.
//!
//! Every queue family of the physical device is enabled, and every queue of a family has
//! the same priority.

use vstd::prelude::*;
use crate::hw::HWDevice;

verus! {

/// Errors while creating the device
#[derive(Debug, Clone, Copy, PartialEq, Eq, Structural)]
pub enum DeviceError {
    Creating,
}

/// Text that describes `e`.
pub open spec fn device_error_text(e: DeviceError) -> Seq<char> {
    "Failed to create Device (vkCreateDevice call failed)"@
}

impl DeviceError {
    /// Human readable description of the error
    pub fn message(&self) -> (r: &'static str)
        ensures
            r@ == device_error_text(*self),
    {
        "Failed to create Device (vkCreateDevice call failed)"
    }
}

/// Queues of one family to create (`VkDeviceQueueCreateInfo`); each has priority one
#[derive(Debug, Clone, Copy, PartialEq, Eq, Structural)]
pub struct QueueCreateInfo {
    pub queue_family_index: u32,
    pub queue_count: u32,
}

/// Device configuration: the physical device and the device extensions
#[derive(Debug, Clone, Copy)]
pub struct DeviceCfg<'a> {
    pub hw: &'a HWDevice,
    pub extensions: &'a [&'a str],
}

impl<'a> DeviceCfg<'a> {
    /// Queues to create: every queue of every family of the physical device, in order
    pub fn queue_create_infos(&self) -> (r: Vec<QueueCreateInfo>)
        ensures
            r@ == Seq::new(self.hw.spec_queues().len(), |i: int| QueueCreateInfo {
                queue_family_index: self.hw.spec_queues()[i].spec_index(),
                queue_count: self.hw.spec_queues()[i].spec_count(),
            }),
    {
        let queues = self.hw.queues();
        let mut r: Vec<QueueCreateInfo> = Vec::new();
        let n = queues.len();
        let mut i: usize = 0;
        while i < n
            invariant
                n == queues@.len(),
                queues@ == self.hw.spec_queues(),
                0 <= i <= n,
                r@ == Seq::new(i as nat, |k: int| QueueCreateInfo {
                    queue_family_index: self.hw.spec_queues()[k].spec_index(),
                    queue_count: self.hw.spec_queues()[k].spec_count(),
                }),
            decreases n - i,
        {
            let q = &queues[i];
            r.push(QueueCreateInfo { queue_family_index: q.index(), queue_count: q.count() });
            i = i + 1;
            assert(r@ =~= Seq::new(i as nat, |k: int| QueueCreateInfo {
                queue_family_index: self.hw.spec_queues()[k].spec_index(),
                queue_count: self.hw.spec_queues()[k].spec_count(),
            }));
        }
        r
    }
}

} // verus!
