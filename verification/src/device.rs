//! Device and work-queue descriptions.
//!
//! Enumerating devices and queues from the operating system's device
//! registry is an external collaborator's job; it produces the ordered
//! queue descriptors held here. The functions in this module are the
//! decisions made over those descriptors: counting queues, recognizing
//! the enabled ones, and sourcing a queue's kind from its reported
//! mode.

use vstd::prelude::*;
use crate::wq::{WorkQueueInfo, WorkQueueType};

verus! {

/// True when a queue descriptor reports the enabled state.
pub open spec fn spec_is_enabled(info: WorkQueueInfo) -> bool {
    info.state@ == "enabled"@
}

/// How many of the given queue descriptors report the enabled state.
pub open spec fn spec_enabled_count(infos: Seq<WorkQueueInfo>) -> nat
    decreases infos.len(),
{
    if infos.len() == 0 {
        0
    } else {
        spec_enabled_count(infos.drop_last()) + if spec_is_enabled(infos.last()) {
            1nat
        } else {
            0nat
        }
    }
}

/// Information about one accelerator device.
#[derive(Debug, Clone)]
pub struct DsaDevice {
    /// Device name (e.g., "dsa0").
    pub name: String,
    /// Path under which the device registry describes this device.
    pub sysfs_path: String,
    /// Available work queues on this device, in discovery order.
    pub work_queues: Vec<WorkQueueInfo>,
}

impl DsaDevice {
    /// Get the number of available work queues.
    pub fn wq_count(&self) -> (r: usize)
        ensures
            r == self.work_queues@.len(),
    {
        self.work_queues.len()
    }

    /// Get the number of work queues that report the enabled state.
    pub fn enabled_wq_count(&self) -> (r: usize)
        ensures
            r == spec_enabled_count(self.work_queues@),
    {
        let enabled: String = "enabled".to_owned();
        let mut count: usize = 0;
        let mut i: usize = 0;
        while i < self.work_queues.len()
            invariant
                i <= self.work_queues@.len(),
                count <= i,
                enabled@ == "enabled"@,
                count == spec_enabled_count(self.work_queues@.take(i as int)),
            decreases self.work_queues@.len() - i,
        {
            proof {
                assert(self.work_queues@.take(i + 1).drop_last() =~= self.work_queues@.take(
                    i as int,
                ));
                assert(self.work_queues@.take(i + 1).last() == self.work_queues@[i as int]);
            }
            if self.work_queues[i].state == enabled {
                count = count + 1;
            }
            i = i + 1;
        }
        proof {
            assert(self.work_queues@.take(self.work_queues@.len() as int) =~= self.work_queues@);
        }
        count
    }
}

/// The queue kind named by a discovery descriptor's mode text. A mode
/// the registry does not name as dedicated is treated as shared, the
/// kind safe for multiple submitters.
pub fn wq_type_from_mode(mode: &String) -> (r: WorkQueueType)
    ensures
        mode@ == "dedicated"@ ==> r == WorkQueueType::Dedicated,
        mode@ != "dedicated"@ ==> r == WorkQueueType::Shared,
{
    let dedicated: String = "dedicated".to_owned();
    if *mode == dedicated {
        WorkQueueType::Dedicated
    } else {
        WorkQueueType::Shared
    }
}

} // verus!
