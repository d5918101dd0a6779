use vstd::prelude::*;

use crate::config::{BatteryProviderConfig, RuntimeType};
use crate::interval::SyncInterval;
use crate::worker::{worker_step, CommonProviderState, WorkerAction, WorkerEvent};

verus! {

/// The battery provider: samples the first battery on a timer.
pub struct BatteryProvider {
    pub config: BatteryProviderConfig,
    pub common: CommonProviderState,
}

impl BatteryProvider {
    pub fn new(config: BatteryProviderConfig, common: CommonProviderState) -> (r: BatteryProvider)
        ensures
            r.config == config,
            r.common == common,
    {
        BatteryProvider { config, common }
    }

    pub fn runtime_type(&self) -> (r: RuntimeType)
        ensures
            r == RuntimeType::Sync,
    {
        RuntimeType::Sync
    }

    /// The sampling timer of the run loop, started at `now_ms`.
    pub fn start_sync(&self, now_ms: u64) -> (r: SyncInterval)
        ensures
            r.interval_ms == self.config.refresh_interval,
            r.next_tick_ms == now_ms,
            r.is_first,
    {
        SyncInterval::new(self.config.refresh_interval, now_ms)
    }

    /// One step of the run loop; battery readings answer no function calls.
    pub fn handle<T>(&mut self, event: WorkerEvent<T>) -> (r: WorkerAction<T>)
        ensures
            final(self).config == old(self).config,
            final(self).common.config_hash == old(self).common.config_hash,
            (final(self).common.running, r) == worker_step(old(self).common.running, false, event),
    {
        self.common.handle(false, event)
    }
}

} // verus!
