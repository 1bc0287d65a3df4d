//! The command pools of the graphics and transfer queue families.

use vstd::prelude::*;

use crate::release::ReleaseStep;

verus! {

#[derive(Clone, Copy, Debug, PartialEq, Eq)]
pub struct Pools {
    pub graphics_command_pool: u64,
    pub transfer_command_pool: u64,
}

impl Pools {
    pub fn new(graphics_command_pool: u64, transfer_command_pool: u64) -> (r: Pools)
        ensures
            r.graphics_command_pool == graphics_command_pool,
            r.transfer_command_pool == transfer_command_pool,
    {
        Pools { graphics_command_pool, transfer_command_pool }
    }

    /// The graphics pool goes first, then the transfer pool.
    pub fn cleanup(&self) -> (r: Vec<ReleaseStep>)
        ensures
            r@ == seq![
                ReleaseStep::DestroyCommandPool(self.graphics_command_pool),
                ReleaseStep::DestroyCommandPool(self.transfer_command_pool),
            ],
    {
        let mut steps: Vec<ReleaseStep> = Vec::new();
        steps.push(ReleaseStep::DestroyCommandPool(self.graphics_command_pool));
        steps.push(ReleaseStep::DestroyCommandPool(self.transfer_command_pool));
        steps
    }
}

} // verus!
