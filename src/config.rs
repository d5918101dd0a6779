use vstd::prelude::*;

verus! {

/// The longest refresh interval that a polling worker accepts, in
/// milliseconds (a little over 49 days).
pub const MAX_REFRESH_INTERVAL_MS: u64 = 4_294_967_295;

/// Errors of the provider lifecycle.
#[derive(PartialEq, Eq, Structural, Clone, Copy, Debug)]
pub enum ProviderError {
    /// The config is malformed or names parameters that cannot run.
    ConfigInvalid,
    /// No instance runs for the given config hash.
    NotFound,
    /// The worker could not acquire a resource it needs to start.
    ProviderInitFailure,
    /// A single sample or event failed; the worker keeps running.
    ProviderRuntimeFailure,
    /// The provider kind does not answer function calls.
    FunctionUnsupported,
    /// The worker did not answer a function call before the deadline.
    FunctionTimeout,
    /// The worker's control channel closed: it exited unexpectedly.
    ChannelClosed,
}

/// How a provider's worker runs.
#[derive(PartialEq, Eq, Structural, Clone, Copy, Debug)]
pub enum RuntimeType {
    /// Timer-driven sampling on a dedicated thread.
    Sync,
    /// A cooperative task woken by push notifications.
    Async,
}

/// The closed set of provider kinds.
#[derive(PartialEq, Eq, Structural, Clone, Copy, Debug)]
pub enum ProviderKind {
    Audio,
    Battery,
    Cpu,
    Gpu,
    Media,
    Memory,
    Network,
    Systray,
    Window,
}

impl ProviderKind {
    /// Pull-only data is sampled on a timer; push-capable data is event-driven.
    pub open spec fn spec_runtime_type(self) -> RuntimeType {
        match self {
            ProviderKind::Battery | ProviderKind::Cpu | ProviderKind::Gpu | ProviderKind::Memory
            | ProviderKind::Network => RuntimeType::Sync,
            ProviderKind::Audio | ProviderKind::Media | ProviderKind::Systray
            | ProviderKind::Window => RuntimeType::Async,
        }
    }

    /// Only media playback answers function calls (play, pause, ...).
    pub open spec fn spec_handles_functions(self) -> bool {
        self == ProviderKind::Media
    }

    pub fn runtime_type(&self) -> (r: RuntimeType)
        ensures
            r == self.spec_runtime_type(),
    {
        match self {
            ProviderKind::Battery | ProviderKind::Cpu | ProviderKind::Gpu | ProviderKind::Memory
            | ProviderKind::Network => RuntimeType::Sync,
            ProviderKind::Audio | ProviderKind::Media | ProviderKind::Systray
            | ProviderKind::Window => RuntimeType::Async,
        }
    }

    pub fn handles_functions(&self) -> (r: bool)
        ensures
            r == self.spec_handles_functions(),
    {
        match self {
            ProviderKind::Media => true,
            _ => false,
        }
    }
}

#[derive(PartialEq, Eq, Structural, Clone, Copy, Debug)]
pub struct AudioProviderConfig {}

#[derive(PartialEq, Eq, Structural, Clone, Copy, Debug)]
pub struct BatteryProviderConfig {
    pub refresh_interval: u64,
}

#[derive(PartialEq, Eq, Structural, Clone, Copy, Debug)]
pub struct CpuProviderConfig {
    pub refresh_interval: u64,
}

#[derive(PartialEq, Eq, Structural, Clone, Copy, Debug)]
pub struct GpuProviderConfig {
    pub refresh_interval: u64,
}

#[derive(PartialEq, Eq, Structural, Clone, Copy, Debug)]
pub struct MediaProviderConfig {}

#[derive(PartialEq, Eq, Structural, Clone, Copy, Debug)]
pub struct MemoryProviderConfig {
    pub refresh_interval: u64,
}

#[derive(PartialEq, Eq, Structural, Clone, Copy, Debug)]
pub struct NetworkProviderConfig {
    pub refresh_interval: u64,
}

#[derive(PartialEq, Eq, Structural, Clone, Copy, Debug)]
pub struct SystrayProviderConfig {}

#[derive(PartialEq, Eq, Structural, Clone, Copy, Debug)]
pub struct WindowProviderConfig {}

/// A provider request: one case per kind, with the kind's parameters.
#[derive(PartialEq, Eq, Structural, Clone, Copy, Debug)]
pub enum ProviderConfig {
    Audio(AudioProviderConfig),
    Battery(BatteryProviderConfig),
    Cpu(CpuProviderConfig),
    Gpu(GpuProviderConfig),
    Media(MediaProviderConfig),
    Memory(MemoryProviderConfig),
    Network(NetworkProviderConfig),
    Systray(SystrayProviderConfig),
    Window(WindowProviderConfig),
}

impl ProviderConfig {
    pub open spec fn spec_kind(self) -> ProviderKind {
        match self {
            ProviderConfig::Audio(_) => ProviderKind::Audio,
            ProviderConfig::Battery(_) => ProviderKind::Battery,
            ProviderConfig::Cpu(_) => ProviderKind::Cpu,
            ProviderConfig::Gpu(_) => ProviderKind::Gpu,
            ProviderConfig::Media(_) => ProviderKind::Media,
            ProviderConfig::Memory(_) => ProviderKind::Memory,
            ProviderConfig::Network(_) => ProviderKind::Network,
            ProviderConfig::Systray(_) => ProviderKind::Systray,
            ProviderConfig::Window(_) => ProviderKind::Window,
        }
    }

    /// The sampling period of a polling provider; event-driven ones have none.
    pub open spec fn spec_refresh_interval(self) -> Option<u64> {
        match self {
            ProviderConfig::Battery(c) => Some(c.refresh_interval),
            ProviderConfig::Cpu(c) => Some(c.refresh_interval),
            ProviderConfig::Gpu(c) => Some(c.refresh_interval),
            ProviderConfig::Memory(c) => Some(c.refresh_interval),
            ProviderConfig::Network(c) => Some(c.refresh_interval),
            _ => None,
        }
    }

    /// A config is valid when its refresh interval, if any, can be
    /// scheduled: it is neither zero nor above the maximum.
    pub open spec fn spec_is_valid(self) -> bool {
        match self.spec_refresh_interval() {
            Some(ms) => 0 < ms <= MAX_REFRESH_INTERVAL_MS,
            None => true,
        }
    }

    pub fn kind(&self) -> (r: ProviderKind)
        ensures
            r == self.spec_kind(),
    {
        match self {
            ProviderConfig::Audio(_) => ProviderKind::Audio,
            ProviderConfig::Battery(_) => ProviderKind::Battery,
            ProviderConfig::Cpu(_) => ProviderKind::Cpu,
            ProviderConfig::Gpu(_) => ProviderKind::Gpu,
            ProviderConfig::Media(_) => ProviderKind::Media,
            ProviderConfig::Memory(_) => ProviderKind::Memory,
            ProviderConfig::Network(_) => ProviderKind::Network,
            ProviderConfig::Systray(_) => ProviderKind::Systray,
            ProviderConfig::Window(_) => ProviderKind::Window,
        }
    }

    pub fn runtime_type(&self) -> (r: RuntimeType)
        ensures
            r == self.spec_kind().spec_runtime_type(),
    {
        self.kind().runtime_type()
    }

    pub fn refresh_interval(&self) -> (r: Option<u64>)
        ensures
            r == self.spec_refresh_interval(),
    {
        match self {
            ProviderConfig::Battery(c) => Some(c.refresh_interval),
            ProviderConfig::Cpu(c) => Some(c.refresh_interval),
            ProviderConfig::Gpu(c) => Some(c.refresh_interval),
            ProviderConfig::Memory(c) => Some(c.refresh_interval),
            ProviderConfig::Network(c) => Some(c.refresh_interval),
            _ => None,
        }
    }

    /// Checks that the config can run: `ConfigInvalid` exactly when it
    /// cannot.
    pub fn validate(&self) -> (r: Result<(), ProviderError>)
        ensures
            r is Ok <==> self.spec_is_valid(),
            r is Err ==> r == Err::<(), ProviderError>(ProviderError::ConfigInvalid),
    {
        match self.refresh_interval() {
            Some(ms) => {
                if ms == 0 || ms > MAX_REFRESH_INTERVAL_MS {
                    Err(ProviderError::ConfigInvalid)
                } else {
                    Ok(())
                }
            },
            None => Ok(()),
        }
    }
}

/// An operation on a media session.
#[derive(PartialEq, Eq, Structural, Clone, Copy, Debug)]
pub enum MediaFunction {
    Play,
    Pause,
    TogglePlayPause,
    Next,
    Previous,
}

/// A request for synchronous interaction with a running worker.
#[derive(PartialEq, Eq, Structural, Clone, Copy, Debug)]
pub enum ProviderFunction {
    Media(MediaFunction),
}

/// The answer to a function call that succeeded.
#[derive(PartialEq, Eq, Structural, Clone, Copy, Debug)]
pub enum ProviderFunctionResponse {
    Null,
}

} // verus!
