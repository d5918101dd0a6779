use vstd::prelude::*;

use crate::config::{GpuProviderConfig, RuntimeType};
use crate::interval::SyncInterval;
use crate::worker::{worker_step, CommonProviderState, WorkerAction, WorkerEvent};

verus! {

/// One graphics device's readings.
#[derive(Debug, Clone, PartialEq, Eq)]
pub struct GpuInfo {
    pub utilization_gpu: u32,
    pub utilization_memory: u32,
    pub total_memory: u64,
    pub free_memory: u64,
    pub temperature: u32,
    pub vendor: String,
}

#[derive(Debug, Clone, PartialEq, Eq)]
pub struct GpuOutput {
    pub gpus: Vec<GpuInfo>,
}

/// The readings of the devices that could be read, in device order.
pub open spec fn readable_devices(devices: Seq<Result<GpuInfo, String>>) -> Seq<GpuInfo>
    decreases devices.len(),
{
    if devices.len() == 0 {
        Seq::empty()
    } else {
        let rest = readable_devices(devices.drop_first());
        match devices[0] {
            Ok(info) => seq![info] + rest,
            Err(_) => rest,
        }
    }
}

/// Builds one sample from the per-device readings: a device that could not
/// be read is left out, and the sample as a whole still succeeds.
pub fn collect_gpus(devices: Vec<Result<GpuInfo, String>>) -> (r: GpuOutput)
    ensures
        r.gpus@ == readable_devices(devices@),
{
    let mut devices = devices;
    let ghost all = devices@;
    let mut gpus: Vec<GpuInfo> = Vec::new();
    while devices.len() > 0
        invariant
            gpus@ + readable_devices(devices@) == readable_devices(all),
        decreases devices@.len(),
    {
        let ghost before = devices@;
        let first = devices.remove(0);
        proof {
            assert(devices@ =~= before.drop_first());
        }
        match first {
            Ok(info) => {
                proof {
                    assert(gpus@.push(info) + readable_devices(devices@) =~= gpus@ + (seq![info]
                        + readable_devices(devices@)));
                }
                gpus.push(info);
            },
            Err(_) => {},
        }
    }
    assert(gpus@ + readable_devices(devices@) =~= gpus@);
    GpuOutput { gpus }
}

/// The GPU provider: samples every graphics device on a timer.
pub struct GpuProvider {
    pub config: GpuProviderConfig,
    pub common: CommonProviderState,
}

impl GpuProvider {
    pub fn new(config: GpuProviderConfig, common: CommonProviderState) -> (r: GpuProvider)
        ensures
            r.config == config,
            r.common == common,
    {
        GpuProvider { config, common }
    }

    pub fn runtime_type(&self) -> (r: RuntimeType)
        ensures
            r == RuntimeType::Sync,
    {
        RuntimeType::Sync
    }

    /// The sampling timer of the run loop, started at `now_ms`.
    pub fn start_sync(&self, now_ms: u64) -> (r: SyncInterval)
        ensures
            r.interval_ms == self.config.refresh_interval,
            r.next_tick_ms == now_ms,
            r.is_first,
    {
        SyncInterval::new(self.config.refresh_interval, now_ms)
    }

    /// One step of the run loop; GPU readings answer no function calls.
    pub fn handle(&mut self, event: WorkerEvent<GpuOutput>) -> (r: WorkerAction<GpuOutput>)
        ensures
            final(self).config == old(self).config,
            final(self).common.config_hash == old(self).common.config_hash,
            (final(self).common.running, r) == worker_step(old(self).common.running, false, event),
    {
        self.common.handle(false, event)
    }
}

} // verus!
