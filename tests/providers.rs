use zebar_providers::{
    collect_gpus, window_output, AudioProviderConfig, BatteryProvider, BatteryProviderConfig,
    CommonProviderState, GpuInfo, GpuProvider, GpuProviderConfig, MediaProviderConfig,
    MemoryProviderConfig, NetworkProviderConfig, ProviderConfig, ProviderError, ProviderKind,
    RuntimeType, SystrayProviderConfig, WindowEvent, WindowProvider, WindowProviderConfig,
    MAX_REFRESH_INTERVAL_MS,
};

fn gpu(vendor: &str, temperature: u32) -> GpuInfo {
    GpuInfo {
        utilization_gpu: 40,
        utilization_memory: 20,
        total_memory: 8_000,
        free_memory: 6_000,
        temperature,
        vendor: vendor.to_string(),
    }
}

#[test]
fn runtime_types_follow_the_kind() {
    let common = || CommonProviderState::new("h".to_string());
    let b = BatteryProvider::new(BatteryProviderConfig { refresh_interval: 1000 }, common());
    let g = GpuProvider::new(GpuProviderConfig { refresh_interval: 1000 }, common());
    let w = WindowProvider::new(WindowProviderConfig {}, common());
    assert_eq!(b.runtime_type(), RuntimeType::Sync);
    assert_eq!(g.runtime_type(), RuntimeType::Sync);
    assert_eq!(w.runtime_type(), RuntimeType::Async);
    let configs = [
        (ProviderConfig::Audio(AudioProviderConfig {}), RuntimeType::Async),
        (ProviderConfig::Media(MediaProviderConfig {}), RuntimeType::Async),
        (ProviderConfig::Systray(SystrayProviderConfig {}), RuntimeType::Async),
        (ProviderConfig::Memory(MemoryProviderConfig { refresh_interval: 1 }), RuntimeType::Sync),
        (ProviderConfig::Network(NetworkProviderConfig { refresh_interval: 1 }), RuntimeType::Sync),
    ];
    for (config, runtime) in configs {
        assert_eq!(config.runtime_type(), runtime);
    }
}

#[test]
fn only_media_handles_functions() {
    assert!(ProviderKind::Media.handles_functions());
    assert!(!ProviderKind::Battery.handles_functions());
    assert!(!ProviderKind::Window.handles_functions());
}

#[test]
fn validation_of_intervals() {
    let ok = ProviderConfig::Gpu(GpuProviderConfig { refresh_interval: MAX_REFRESH_INTERVAL_MS });
    assert_eq!(ok.validate(), Ok(()));
    let over = ProviderConfig::Gpu(GpuProviderConfig { refresh_interval: MAX_REFRESH_INTERVAL_MS + 1 });
    assert_eq!(over.validate(), Err(ProviderError::ConfigInvalid));
    let zero = ProviderConfig::Memory(MemoryProviderConfig { refresh_interval: 0 });
    assert_eq!(zero.validate(), Err(ProviderError::ConfigInvalid));
    assert_eq!(ProviderConfig::Window(WindowProviderConfig {}).validate(), Ok(()));
    assert_eq!(zero.refresh_interval(), Some(0));
    assert_eq!(ProviderConfig::Window(WindowProviderConfig {}).refresh_interval(), None);
}

#[test]
fn polling_timer_uses_configured_interval() {
    let b = BatteryProvider::new(
        BatteryProviderConfig { refresh_interval: 750 },
        CommonProviderState::new("h".to_string()),
    );
    let mut t = b.start_sync(100);
    assert_eq!(t.interval_ms, 750);
    assert_eq!(t.tick(100), 0);
    assert_eq!(t.tick(200), 650);
}

#[test]
fn unreadable_gpus_are_skipped() {
    let devices = vec![
        Ok(gpu("Nvidia", 60)),
        Err("Error getting temperature".to_string()),
        Ok(gpu("Nvidia", 55)),
    ];
    let out = collect_gpus(devices);
    assert_eq!(out.gpus, vec![gpu("Nvidia", 60), gpu("Nvidia", 55)]);
    assert!(collect_gpus(vec![]).gpus.is_empty());
    assert!(collect_gpus(vec![Err("x".to_string())]).gpus.is_empty());
}

#[test]
fn window_events_are_filtered() {
    let ev = |title: &str| WindowEvent { hwnd: 42, title: title.to_string() };
    let out = window_output(ev("Editor - notes.txt")).unwrap();
    assert_eq!(out.title, "Editor - notes.txt");
    assert_eq!(out.hwnd, 42);
    assert!(window_output(ev("")).is_none());
    assert!(window_output(ev("Dropdown - Zebar")).is_none());
    assert!(window_output(ev("Zeba")).is_some());
}
