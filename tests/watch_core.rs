use std::sync::Arc;
use watch_config::{ConfigStore, ConfigUpdate, LoopAction, ServicePhase, Wake, WatchCore};

#[derive(Clone, Debug, PartialEq)]
struct Number {
    number: u64,
}

fn num(n: u64) -> Arc<Number> {
    Arc::new(Number { number: n })
}

fn running(initial: u64) -> WatchCore<Number> {
    let mut core = WatchCore::new(num(initial));
    core.start();
    core
}

#[test]
fn store_snapshot_and_replace() {
    let mut store = ConfigStore::new(num(1));
    let held = store.snapshot();
    let previous = store.replace(num(2));
    assert_eq!(previous.number, 1);
    assert_eq!(held.number, 1);
    assert_eq!(store.snapshot().number, 2);
}

#[test]
fn new_core_is_idle_then_watches() {
    let mut core = WatchCore::new(num(1));
    assert_eq!(core.phase(), ServicePhase::Idle);
    core.start();
    assert_eq!(core.phase(), ServicePhase::Watching);
    assert_eq!(core.snapshot().number, 1);
}

#[test]
fn change_asks_for_one_reload() {
    let mut core = running(1);
    assert_eq!(core.on_wake(Wake::FileChanged), LoopAction::Reload);
    assert_eq!(core.phase(), ServicePhase::Reloading);
}

#[test]
fn update_matches_snapshots() {
    let mut core = running(1);
    core.on_wake(Wake::FileChanged);
    let before = core.snapshot();
    let event = core.on_reload::<String>(Ok(num(2)));
    match event {
        Some(Ok(ConfigUpdate { old, new })) => {
            assert_eq!(*old, *before);
            assert_eq!(old.number, 1);
            assert_eq!(new.number, 2);
            assert_eq!(*core.snapshot(), *new);
        }
        other => panic!("expected an update, got {:?}", other),
    }
    assert_eq!(core.phase(), ServicePhase::Watching);
}

#[test]
fn equal_reload_is_silent() {
    let mut core = running(1);
    assert_eq!(core.on_wake(Wake::FileChanged), LoopAction::Reload);
    assert!(core.on_reload::<String>(Ok(num(1))).is_none());
    assert_eq!(core.snapshot().number, 1);
    assert_eq!(core.phase(), ServicePhase::Watching);
}

#[test]
fn failure_is_reported_and_isolated() {
    let mut core = running(1);
    core.on_wake(Wake::FileChanged);
    let event = core.on_reload(Err("parse".to_string()));
    assert!(matches!(event, Some(Err(ref e)) if e == "parse"));
    assert_eq!(core.snapshot().number, 1);
    core.on_wake(Wake::FileChanged);
    let event = core.on_reload::<String>(Ok(num(2)));
    assert!(matches!(event, Some(Ok(ref u)) if u.old.number == 1 && u.new.number == 2));
    assert_eq!(core.snapshot().number, 2);
}

#[test]
fn cancel_is_terminal() {
    let mut core = running(1);
    assert_eq!(core.on_wake(Wake::CancelRequested), LoopAction::Stop);
    assert_eq!(core.phase(), ServicePhase::Stopped);
    assert_eq!(core.on_wake(Wake::FileChanged), LoopAction::Stop);
    assert!(core.on_reload::<String>(Ok(num(3))).is_none());
    assert!(core.on_reload(Err("parse".to_string())).is_none());
    assert_eq!(core.snapshot().number, 1);
    core.start();
    assert_eq!(core.phase(), ServicePhase::Stopped);
}

#[test]
fn closed_source_stops() {
    let mut core = running(1);
    assert_eq!(core.on_wake(Wake::SourceClosed), LoopAction::Stop);
    assert_eq!(core.phase(), ServicePhase::Stopped);
}

#[test]
fn outcome_without_reload_is_dropped() {
    let mut core = running(1);
    assert!(core.on_reload::<String>(Ok(num(2))).is_none());
    assert_eq!(core.snapshot().number, 1);
    assert_eq!(core.phase(), ServicePhase::Watching);
}

#[test]
fn number_scenario() {
    let mut core = running(1);
    assert_eq!(core.snapshot().number, 1);

    assert_eq!(core.on_wake(Wake::FileChanged), LoopAction::Reload);
    let event = core.on_reload::<String>(Ok(num(2)));
    assert!(matches!(event, Some(Ok(ref u)) if u.old.number == 1 && u.new.number == 2));
    assert_eq!(core.snapshot().number, 2);

    assert_eq!(core.on_wake(Wake::FileChanged), LoopAction::Reload);
    let event = core.on_reload(Err("Parse".to_string()));
    assert!(matches!(event, Some(Err(ref e)) if e == "Parse"));
    assert_eq!(core.snapshot().number, 2);

    assert_eq!(core.on_wake(Wake::CancelRequested), LoopAction::Stop);
    assert_eq!(core.on_wake(Wake::FileChanged), LoopAction::Stop);
    assert!(core.on_reload::<String>(Ok(num(3))).is_none());
    assert_eq!(core.snapshot().number, 2);
}
