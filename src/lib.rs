//! Provider lifecycle core: the registry that deduplicates and ref-counts
//! data-producing workers, the two worker run-loop strategies as verified
//! state machines, the catch-up interval timer, and fan-out of outputs to
//! subscribing widgets.

mod battery;
mod config;
mod emitter;
mod gpu;
mod interval;
mod manager;
mod window;
mod worker;

pub use battery::BatteryProvider;
pub use config::{
    AudioProviderConfig, BatteryProviderConfig, CpuProviderConfig, GpuProviderConfig,
    MediaFunction, MediaProviderConfig, MemoryProviderConfig, NetworkProviderConfig,
    ProviderConfig, ProviderError, ProviderFunction, ProviderFunctionResponse, ProviderKind,
    RuntimeType, SystrayProviderConfig, WindowProviderConfig, MAX_REFRESH_INTERVAL_MS,
};
pub use emitter::{string_views, Emission, Emitter};
pub use gpu::{collect_gpus, readable_devices, GpuInfo, GpuOutput, GpuProvider};
pub use interval::{first_boundary_after, lemma_catch_up_single_tick, SyncInterval};
pub use manager::{
    after_create, after_creates, after_reply, after_stop, create_result, is_subscribed,
    lemma_invalid_config_untouched, lemma_one_worker_per_hash, lemma_teardown_at_zero,
    lemma_timeout_keeps_instance, reply_result, route_result, stop_result, CreateOutcome,
    FunctionReply, Instance, InstanceView, ManagerView, ProviderManager, StopOutcome,
};
pub use window::{
    contains_text, is_reported, own_window_marker, window_output, WindowEvent, WindowOutput,
    WindowProvider,
};
pub use worker::{
    emitted, lemma_failures_are_isolated, lemma_silent_after_stop, output_events, worker_step,
    CommonProviderState, ProviderInputMsg, WorkerAction, WorkerEvent,
};
