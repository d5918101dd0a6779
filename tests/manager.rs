use zebar_providers::{
    BatteryProviderConfig, CreateOutcome, CpuProviderConfig, FunctionReply, MediaFunction,
    MediaProviderConfig, ProviderConfig, ProviderError, ProviderFunction,
    ProviderFunctionResponse, ProviderKind, ProviderManager, RuntimeType, StopOutcome,
    WindowProviderConfig,
};

fn s(text: &str) -> String {
    text.to_string()
}

fn cpu(ms: u64) -> ProviderConfig {
    ProviderConfig::Cpu(CpuProviderConfig { refresh_interval: ms })
}

#[test]
fn scenario_create_share_and_stop() {
    let mut m = ProviderManager::new();
    let first = m.create(s("h1"), cpu(1000), s("widget-a"));
    assert_eq!(
        first,
        Ok(CreateOutcome::Spawned { kind: ProviderKind::Cpu, runtime: RuntimeType::Sync })
    );
    let e = m.emit(&s("h1"), Ok::<u32, String>(7)).unwrap();
    assert_eq!(e.targets, vec![s("widget-a")]);

    let second = m.create(s("h1"), cpu(1000), s("widget-b"));
    assert_eq!(second, Ok(CreateOutcome::Attached { subscribers: 2 }));
    assert_eq!(m.subscriber_count(&s("h1")), 2);

    assert_eq!(m.stop(&s("h1"), &s("widget-a")), StopOutcome::Detached { remaining: 1 });
    assert_eq!(m.subscriber_count(&s("h1")), 1);
    let e = m.emit(&s("h1"), Ok::<u32, String>(8)).unwrap();
    assert_eq!(e.targets, vec![s("widget-b")]);
    assert_eq!(e.result, Ok(8));

    assert_eq!(m.stop(&s("h1"), &s("widget-b")), StopOutcome::Stopped);
    assert_eq!(m.subscriber_count(&s("h1")), 0);
    assert!(!m.contains(&s("h1")));
    assert!(m.emit(&s("h1"), Ok::<u32, String>(9)).is_none());
}

#[test]
fn many_creates_spawn_one_worker() {
    let mut m = ProviderManager::new();
    let mut spawned = 0;
    for i in 0..25 {
        match m.create(s("shared"), cpu(500), format!("widget-{}", i)) {
            Ok(CreateOutcome::Spawned { .. }) => spawned += 1,
            Ok(CreateOutcome::Attached { subscribers }) => assert_eq!(subscribers, i + 1),
            Err(e) => panic!("unexpected error {:?}", e),
        }
    }
    assert_eq!(spawned, 1);
    assert_eq!(m.subscriber_count(&s("shared")), 25);
}

#[test]
fn distinct_hashes_get_distinct_workers() {
    let mut m = ProviderManager::new();
    assert!(matches!(m.create(s("a"), cpu(500), s("w")), Ok(CreateOutcome::Spawned { .. })));
    assert!(matches!(
        m.create(s("b"), ProviderConfig::Window(WindowProviderConfig {}), s("w")),
        Ok(CreateOutcome::Spawned { kind: ProviderKind::Window, runtime: RuntimeType::Async })
    ));
    assert_eq!(m.subscriber_count(&s("a")), 1);
    assert_eq!(m.subscriber_count(&s("b")), 1);
}

#[test]
fn same_widget_twice_needs_two_stops() {
    let mut m = ProviderManager::new();
    m.create(s("h"), cpu(1000), s("w")).unwrap();
    m.create(s("h"), cpu(1000), s("w")).unwrap();
    assert_eq!(m.stop(&s("h"), &s("w")), StopOutcome::Detached { remaining: 1 });
    assert_eq!(m.stop(&s("h"), &s("w")), StopOutcome::Stopped);
}

#[test]
fn invalid_config_leaves_registry_untouched() {
    let mut m = ProviderManager::new();
    let zero = ProviderConfig::Battery(BatteryProviderConfig { refresh_interval: 0 });
    assert_eq!(m.create(s("h"), zero, s("w")), Err(ProviderError::ConfigInvalid));
    assert!(!m.contains(&s("h")));
    let huge = cpu(u64::MAX);
    assert_eq!(m.create(s("h"), huge, s("w")), Err(ProviderError::ConfigInvalid));
    assert_eq!(m.subscriber_count(&s("h")), 0);
}

#[test]
fn stop_unknown_is_a_no_op() {
    let mut m = ProviderManager::new();
    assert_eq!(m.stop(&s("nothing"), &s("w")), StopOutcome::Unknown);
    m.create(s("h"), cpu(1000), s("w")).unwrap();
    assert_eq!(m.stop(&s("h"), &s("other")), StopOutcome::Unknown);
    assert_eq!(m.subscriber_count(&s("h")), 1);
}

#[test]
fn call_function_on_unknown_hash_is_not_found() {
    let m = ProviderManager::new();
    let f = ProviderFunction::Media(MediaFunction::Play);
    assert_eq!(m.call_function(&s("missing"), &f), Err(ProviderError::NotFound));
    assert_eq!(m.call_function(&s("missing"), &f), Err(ProviderError::NotFound));
}

#[test]
fn timeout_keeps_instance_for_next_call() {
    let mut m = ProviderManager::new();
    m.create(s("media"), ProviderConfig::Media(MediaProviderConfig {}), s("w")).unwrap();
    let f = ProviderFunction::Media(MediaFunction::TogglePlayPause);
    assert_eq!(m.call_function(&s("media"), &f), Ok(()));
    let r = m.resolve_function_reply(&s("media"), FunctionReply::TimedOut);
    assert_eq!(r, Err(ProviderError::FunctionTimeout));
    assert!(m.contains(&s("media")));
    assert_eq!(m.call_function(&s("media"), &f), Ok(()));
    let r = m.resolve_function_reply(
        &s("media"),
        FunctionReply::Replied(Ok(ProviderFunctionResponse::Null)),
    );
    assert_eq!(r, Ok(ProviderFunctionResponse::Null));
}

#[test]
fn unsupported_reply_is_passed_on() {
    let mut m = ProviderManager::new();
    m.create(s("cpu"), cpu(1000), s("w")).unwrap();
    let r = m.resolve_function_reply(
        &s("cpu"),
        FunctionReply::Replied(Err(ProviderError::FunctionUnsupported)),
    );
    assert_eq!(r, Err(ProviderError::FunctionUnsupported));
    assert!(m.contains(&s("cpu")));
}

#[test]
fn closed_channel_surfaces_as_not_found_afterwards() {
    let mut m = ProviderManager::new();
    m.create(s("h"), cpu(1000), s("w")).unwrap();
    let r = m.resolve_function_reply(&s("h"), FunctionReply::ChannelClosed);
    assert_eq!(r, Err(ProviderError::ChannelClosed));
    let f = ProviderFunction::Media(MediaFunction::Next);
    assert_eq!(m.call_function(&s("h"), &f), Err(ProviderError::NotFound));
}

#[test]
fn discard_after_failed_start() {
    let mut m = ProviderManager::new();
    m.create(s("battery"), ProviderConfig::Battery(BatteryProviderConfig { refresh_interval: 5000 }), s("w"))
        .unwrap();
    assert!(m.discard(&s("battery")));
    assert!(!m.contains(&s("battery")));
    assert!(!m.discard(&s("battery")));
}

#[test]
fn shutdown_stops_everything() {
    let mut m = ProviderManager::new();
    m.create(s("a"), cpu(1000), s("w1")).unwrap();
    m.create(s("b"), cpu(2000), s("w2")).unwrap();
    m.create(s("a"), cpu(1000), s("w3")).unwrap();
    let mut hashes = m.shutdown();
    hashes.sort();
    assert_eq!(hashes, vec![s("a"), s("b")]);
    assert!(!m.contains(&s("a")));
    assert!(!m.contains(&s("b")));
    assert!(m.shutdown().is_empty());
}
