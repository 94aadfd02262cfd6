use codex_plus_core::launch::{injection_lock, AssetCheck, InjectionLock};
use codex_plus_core::start::{
    InjectorExit, InjectorStart, SpawnFailure, StartAction, StartEvent,
};

fn assets(all_found: bool) -> AssetCheck {
    AssetCheck {
        injector_script: "D:\\skin\\scripts\\injector.mjs".to_string(),
        injector_script_found: all_found,
        stylesheet: "D:\\skin\\dream-skin.css".to_string(),
        stylesheet_found: true,
        renderer_script: "D:\\skin\\renderer-inject.js".to_string(),
        renderer_script_found: true,
    }
}

fn fail_text(a: StartAction) -> String {
    match a {
        StartAction::Fail(e) => e.message(),
        other => panic!("expected a failure, got {:?}", other),
    }
}

/// Runs a start up to the wait for the CDP endpoint.
fn up_to_cdp(lock: &mut InjectionLock) -> InjectorStart {
    let mut s = InjectorStart::new(9335);
    assert!(matches!(s.step(lock, StartEvent::Requested), StartAction::ClearOldInjector));
    assert!(matches!(s.step(lock, StartEvent::OldInjectorCleared), StartAction::CheckAssets));
    assert!(matches!(s.step(lock, StartEvent::AssetsChecked(assets(true))), StartAction::ApplyTheme));
    assert!(matches!(s.step(lock, StartEvent::ThemeApplied(Ok(()))), StartAction::FindNode));
    assert!(matches!(
        s.step(lock, StartEvent::NodeFound(Some("node".to_string()))),
        StartAction::PrepareStateDir
    ));
    match s.step(lock, StartEvent::StateDirPrepared(Ok("C:\\state".to_string()))) {
        StartAction::WaitForCdp { port, timeout_secs } => {
            assert_eq!(port, 9335);
            assert_eq!(timeout_secs, 45);
        }
        other => panic!("unexpected {:?}", other),
    }
    s
}

#[test]
fn a_start_runs_to_completion() {
    let mut lock = injection_lock();
    let mut s = up_to_cdp(&mut lock);
    assert!(lock.is_held());
    match s.step(&mut lock, StartEvent::CdpWaited { ready: true }) {
        StartAction::FetchBrowserId { port } => assert_eq!(port, 9335),
        other => panic!("unexpected {:?}", other),
    }
    match s.step(&mut lock, StartEvent::BrowserIdFetched(Ok("b-1".to_string()))) {
        StartAction::SpawnInjector { program, args, stdout_path, stderr_path } => {
            assert_eq!(program, "node");
            assert_eq!(
                args,
                vec!["D:\\skin\\scripts\\injector.mjs", "--watch", "--port", "9335", "--browser-id", "b-1"]
            );
            assert_eq!(stdout_path, "C:\\state\\injector.log");
            assert_eq!(stderr_path, "C:\\state\\injector-error.log");
        }
        other => panic!("unexpected {:?}", other),
    }
    match s.step(&mut lock, StartEvent::InjectorSpawned(Ok(4242))) {
        StartAction::WatchInjector { settle_secs } => assert_eq!(settle_secs, 2),
        other => panic!("unexpected {:?}", other),
    }
    match s.step(&mut lock, StartEvent::InjectorWatched { exited: None, now: 3661 }) {
        StartAction::SaveState(r) => {
            assert_eq!(r.injector_pid, 4242);
            assert_eq!(r.port, 9335);
            assert_eq!(r.browser_id, "b-1");
            assert_eq!(r.node_path, "node");
            assert_eq!(r.injector_path, "D:\\skin\\scripts\\injector.mjs");
            assert_eq!(r.injector_started_at, "2026-07-17T01:01:01+00:00");
        }
        other => panic!("unexpected {:?}", other),
    }
    assert!(lock.is_held());
    assert!(matches!(s.step(&mut lock, StartEvent::StateSaved(Ok(()))), StartAction::Done));
    assert!(s.is_ended());
    assert!(!lock.is_held());
}

#[test]
fn a_start_is_refused_while_another_runs() {
    let mut lock = injection_lock();
    let _first = up_to_cdp(&mut lock);
    let mut second = InjectorStart::new(9335);
    assert_eq!(fail_text(second.step(&mut lock, StartEvent::Requested)), "Dream Skin 注入正在运行中，请等待完成");
    assert!(second.is_ended());
    assert!(lock.is_held());
}

#[test]
fn a_failed_start_does_not_block_the_next() {
    let mut lock = injection_lock();
    let mut s = up_to_cdp(&mut lock);
    assert_eq!(
        fail_text(s.step(&mut lock, StartEvent::CdpWaited { ready: false })),
        "Codex CDP 端点未在 45 秒内就绪，请确认 Codex 已启动且端口 9335 正确"
    );
    assert!(!lock.is_held());
    let mut next = InjectorStart::new(9335);
    assert!(matches!(next.step(&mut lock, StartEvent::Requested), StartAction::ClearOldInjector));
}

#[test]
fn every_failure_gives_the_lock_back() {
    let mut lock = injection_lock();
    let mut s = InjectorStart::new(1);
    s.step(&mut lock, StartEvent::Requested);
    s.step(&mut lock, StartEvent::OldInjectorCleared);
    assert_eq!(
        fail_text(s.step(&mut lock, StartEvent::AssetsChecked(assets(false)))),
        "injector.mjs 未找到: D:\\skin\\scripts\\injector.mjs"
    );
    assert!(!lock.is_held());

    let mut s = InjectorStart::new(1);
    s.step(&mut lock, StartEvent::Requested);
    s.step(&mut lock, StartEvent::OldInjectorCleared);
    s.step(&mut lock, StartEvent::AssetsChecked(assets(true)));
    assert_eq!(fail_text(s.step(&mut lock, StartEvent::ThemeApplied(Err("read-only".to_string())))), "read-only");
    assert!(!lock.is_held());

    let mut s = InjectorStart::new(1);
    s.step(&mut lock, StartEvent::Requested);
    s.step(&mut lock, StartEvent::OldInjectorCleared);
    s.step(&mut lock, StartEvent::AssetsChecked(assets(true)));
    s.step(&mut lock, StartEvent::ThemeApplied(Ok(())));
    assert_eq!(fail_text(s.step(&mut lock, StartEvent::NodeFound(None))), "未找到 Node.js，请先安装 Node.js 22+");
    assert!(!lock.is_held());

    let mut s = up_to_cdp(&mut lock);
    s.step(&mut lock, StartEvent::CdpWaited { ready: true });
    assert_eq!(
        fail_text(s.step(&mut lock, StartEvent::BrowserIdFetched(Err("CDP 响应中缺少 webSocketDebuggerUrl".to_string())))),
        "CDP 响应中缺少 webSocketDebuggerUrl"
    );
    assert!(!lock.is_held());

    let mut s = up_to_cdp(&mut lock);
    s.step(&mut lock, StartEvent::CdpWaited { ready: true });
    s.step(&mut lock, StartEvent::BrowserIdFetched(Ok("x".to_string())));
    assert_eq!(
        fail_text(s.step(&mut lock, StartEvent::InjectorSpawned(Err(SpawnFailure::Spawn("not found".to_string()))))),
        "启动 injector 失败: not found"
    );
    assert!(!lock.is_held());

    let mut s = up_to_cdp(&mut lock);
    s.step(&mut lock, StartEvent::CdpWaited { ready: true });
    s.step(&mut lock, StartEvent::BrowserIdFetched(Ok("x".to_string())));
    assert_eq!(
        fail_text(s.step(&mut lock, StartEvent::InjectorSpawned(Err(SpawnFailure::LogFile("denied".to_string()))))),
        "denied"
    );
    assert!(!lock.is_held());

    let mut s = up_to_cdp(&mut lock);
    s.step(&mut lock, StartEvent::CdpWaited { ready: true });
    s.step(&mut lock, StartEvent::BrowserIdFetched(Ok("x".to_string())));
    s.step(&mut lock, StartEvent::InjectorSpawned(Ok(5)));
    let exit = InjectorExit { status: "exit code: 1".to_string(), stderr: "boom".to_string() };
    assert_eq!(
        fail_text(s.step(&mut lock, StartEvent::InjectorWatched { exited: Some(exit), now: 0 })),
        "injector 启动后立即退出 (exit code: exit code: 1)。错误: boom"
    );
    assert!(!lock.is_held());

    let mut s = up_to_cdp(&mut lock);
    s.step(&mut lock, StartEvent::CdpWaited { ready: true });
    s.step(&mut lock, StartEvent::BrowserIdFetched(Ok("x".to_string())));
    s.step(&mut lock, StartEvent::InjectorSpawned(Ok(5)));
    s.step(&mut lock, StartEvent::InjectorWatched { exited: None, now: 0 });
    assert_eq!(fail_text(s.step(&mut lock, StartEvent::StateSaved(Err("disk full".to_string())))), "disk full");
    assert!(!lock.is_held());

    let mut s = InjectorStart::new(1);
    s.step(&mut lock, StartEvent::Requested);
    s.step(&mut lock, StartEvent::OldInjectorCleared);
    s.step(&mut lock, StartEvent::AssetsChecked(assets(true)));
    s.step(&mut lock, StartEvent::ThemeApplied(Ok(())));
    s.step(&mut lock, StartEvent::NodeFound(Some("node".to_string())));
    assert_eq!(fail_text(s.step(&mut lock, StartEvent::StateDirPrepared(Err("no space".to_string())))), "no space");
    assert!(!lock.is_held());
}

#[test]
fn events_out_of_turn_change_nothing() {
    let mut lock = injection_lock();
    let mut s = InjectorStart::new(1);
    assert!(matches!(s.step(&mut lock, StartEvent::OldInjectorCleared), StartAction::Ignore));
    assert!(!lock.is_held());
    assert!(matches!(s.step(&mut lock, StartEvent::Requested), StartAction::ClearOldInjector));
    assert!(matches!(s.step(&mut lock, StartEvent::NodeFound(None)), StartAction::Ignore));
    assert!(lock.is_held());
}

#[test]
fn missing_asset_failure_carries_the_path() {
    let mut lock = injection_lock();
    let mut s = InjectorStart::new(1);
    s.step(&mut lock, StartEvent::Requested);
    s.step(&mut lock, StartEvent::OldInjectorCleared);
    match s.step(&mut lock, StartEvent::AssetsChecked(assets(false))) {
        StartAction::Fail(codex_plus_core::launch::LaunchError::MissingAsset { path, .. }) => {
            assert_eq!(path, "D:\\skin\\scripts\\injector.mjs")
        }
        other => panic!("unexpected {:?}", other),
    }
}

#[test]
fn two_starts_on_one_lock() {
    let mut lock = injection_lock();
    let mut a = InjectorStart::new(1);
    let mut b = InjectorStart::new(1);
    assert!(matches!(a.step(&mut lock, StartEvent::Requested), StartAction::ClearOldInjector));
    assert!(matches!(b.step(&mut lock, StartEvent::Requested), StartAction::Fail(_)));
    a.step(&mut lock, StartEvent::OldInjectorCleared);
    a.step(&mut lock, StartEvent::AssetsChecked(assets(false)));
    assert!(!lock.is_held());
    let mut c = InjectorStart::new(1);
    assert!(matches!(c.step(&mut lock, StartEvent::Requested), StartAction::ClearOldInjector));
    assert!(lock.is_held());
}
