use sidecar_host::error::{LockFault, SidecarError};
use sidecar_host::protocol::{shutdown_line, sidecar_program};
use sidecar_host::store::{HandleStore, StartStep};

/// A stand-in for a child process: it records what is written to its input
/// and can be made to refuse writes.
#[derive(Debug, Clone, PartialEq, Eq)]
struct FakeChild {
    id: u32,
    input: Vec<u8>,
    broken: bool,
}

fn child(id: u32) -> FakeChild {
    FakeChild { id, input: Vec::new(), broken: false }
}

fn write_to(mut handle: FakeChild, line: &'static str) -> (FakeChild, Result<(), String>) {
    if handle.broken {
        (handle, Err("broken pipe".to_string()))
    } else {
        handle.input.extend_from_slice(line.as_bytes());
        (handle, Ok(()))
    }
}

#[test]
fn new_store_tracks_nothing() {
    let store: HandleStore<FakeChild> = HandleStore::new();
    assert!(!store.is_running());
    assert_eq!(store.handle(), None);
    assert_eq!(store.plan_start(), StartStep::Spawn);
}

#[test]
fn start_spawns_the_bundled_program_and_tracks_it() {
    let mut store = HandleStore::new();
    let mut asked: Vec<String> = Vec::new();
    let report = store.start(|program| {
        asked.push(program.to_string());
        Ok(child(1))
    });
    assert_eq!(report, Ok(()));
    assert_eq!(asked, vec!["main".to_string()]);
    assert_eq!(sidecar_program(), "main");
    assert!(store.is_running());
    assert_eq!(store.handle(), Some(&child(1)));
}

#[test]
fn start_twice_spawns_once() {
    let mut store = HandleStore::new();
    let mut spawns: u32 = 0;
    let first = store.start(|_| {
        spawns += 1;
        Ok(child(1))
    });
    let second = store.start(|_| {
        spawns += 1;
        Ok(child(2))
    });
    assert_eq!(first, Ok(()));
    assert_eq!(second, Ok(()));
    assert_eq!(spawns, 1);
    assert_eq!(store.handle(), Some(&child(1)));
    assert_eq!(store.plan_start(), StartStep::AlreadyRunning);
}

#[test]
fn start_reports_a_failed_spawn() {
    let mut store: HandleStore<FakeChild> = HandleStore::new();
    let report = store.start(|_| Err("no such executable".to_string()));
    assert_eq!(report, Err(SidecarError::Launch("no such executable".to_string())));
    assert!(!store.is_running());
    assert_eq!(store.plan_start(), StartStep::Spawn);
}

#[test]
fn start_after_a_failed_spawn_spawns_again() {
    let mut store = HandleStore::new();
    let first = store.start(|_| Err("busy".to_string()));
    let second = store.start(|_| Ok(child(3)));
    assert!(first.is_err());
    assert_eq!(second, Ok(()));
    assert_eq!(store.handle(), Some(&child(3)));
}

#[test]
fn start_steps_register_the_handle() {
    let mut store = HandleStore::new();
    assert_eq!(store.plan_start(), StartStep::Spawn);
    assert_eq!(store.finish_start(Ok(child(4))), Ok(()));
    assert_eq!(store.handle(), Some(&child(4)));
    assert_eq!(store.plan_start(), StartStep::AlreadyRunning);
}

#[test]
fn finish_start_keeps_the_store_on_failure() {
    let mut store = HandleStore::new();
    assert_eq!(store.finish_start(Ok(child(4))), Ok(()));
    let report = store.finish_start(Err("spawn failed".to_string()));
    assert_eq!(report, Err(SidecarError::Launch("spawn failed".to_string())));
    assert_eq!(store.handle(), Some(&child(4)));
}

#[test]
fn finish_start_replaces_an_earlier_handle() {
    let mut store = HandleStore::new();
    assert_eq!(store.finish_start(Ok(child(1))), Ok(()));
    assert_eq!(store.finish_start(Ok(child(2))), Ok(()));
    assert_eq!(store.handle(), Some(&child(2)));
}

#[test]
fn shutdown_writes_the_line_and_empties_the_store() {
    let mut store = HandleStore::new();
    assert_eq!(store.start(|_| Ok(child(1))), Ok(()));
    let mut written: Vec<u8> = Vec::new();
    let report = store.shutdown(|handle, line| {
        let (handle, outcome) = write_to(handle, line);
        written = handle.input.clone();
        (handle, outcome)
    });
    assert_eq!(report, Ok(()));
    assert_eq!(written, b"sidecar shutdown\n".to_vec());
    assert!(!store.is_running());
    let again = store.shutdown(write_to);
    assert_eq!(again, Err(SidecarError::NotRunning));
    assert!(!store.is_running());
}

#[test]
fn shutdown_without_handle_fails_and_writes_nothing() {
    let mut store: HandleStore<FakeChild> = HandleStore::new();
    let mut calls: u32 = 0;
    let report = store.shutdown(|handle, line| {
        calls += 1;
        write_to(handle, line)
    });
    assert_eq!(report, Err(SidecarError::NotRunning));
    assert_eq!(calls, 0);
    assert!(!store.is_running());
    assert_eq!(store.handle(), None);
}

#[test]
fn failed_write_keeps_the_handle_for_a_retry() {
    let mut store = HandleStore::new();
    let mut broken = child(9);
    broken.broken = true;
    assert_eq!(store.start(|_| Ok(broken.clone())), Ok(()));
    let report = store.shutdown(write_to);
    assert_eq!(report, Err(SidecarError::Write("broken pipe".to_string())));
    assert_eq!(store.handle(), Some(&broken));
    // the fault is cleared: the same handle now takes the line
    let retry = store.shutdown(|mut handle, line| {
        handle.broken = false;
        write_to(handle, line)
    });
    assert_eq!(retry, Ok(()));
    assert!(!store.is_running());
}

#[test]
fn shutdown_steps_take_and_restore() {
    let mut store = HandleStore::new();
    assert_eq!(store.finish_start(Ok(child(5))), Ok(()));
    let taken = store.begin_shutdown();
    assert_eq!(taken, Ok(child(5)));
    assert!(!store.is_running());
    let report = store.finish_shutdown(child(5), Err("closed".to_string()));
    assert_eq!(report, Err(SidecarError::Write("closed".to_string())));
    assert_eq!(store.handle(), Some(&child(5)));
    let taken = store.begin_shutdown();
    assert_eq!(taken, Ok(child(5)));
    assert_eq!(store.finish_shutdown(child(5), Ok(())), Ok(()));
    assert!(!store.is_running());
    assert_eq!(store.begin_shutdown(), Err(SidecarError::NotRunning));
}

#[test]
fn restart_after_shutdown_spawns_again() {
    let mut store = HandleStore::new();
    assert_eq!(store.start(|_| Ok(child(1))), Ok(()));
    assert_eq!(store.shutdown(write_to), Ok(()));
    let mut spawns: u32 = 0;
    let report = store.start(|_| {
        spawns += 1;
        Ok(child(2))
    });
    assert_eq!(report, Ok(()));
    assert_eq!(spawns, 1);
    assert_eq!(store.handle(), Some(&child(2)));
}

#[test]
fn exit_hook_writes_the_line_and_keeps_the_handle() {
    let mut store = HandleStore::new();
    assert_eq!(store.start(|_| Ok(child(1))), Ok(()));
    store.notify_exit(write_to);
    let kept = store.handle().cloned();
    assert_eq!(
        kept,
        Some(FakeChild { id: 1, input: b"sidecar shutdown\n".to_vec(), broken: false })
    );
}

#[test]
fn exit_hook_swallows_a_failed_write() {
    let mut store = HandleStore::new();
    let mut broken = child(2);
    broken.broken = true;
    assert_eq!(store.start(|_| Ok(broken.clone())), Ok(()));
    store.notify_exit(write_to);
    assert_eq!(store.handle(), Some(&broken));
}

#[test]
fn exit_hook_without_handle_does_nothing() {
    let mut store: HandleStore<FakeChild> = HandleStore::new();
    let mut calls: u32 = 0;
    store.notify_exit(|handle, line| {
        calls += 1;
        write_to(handle, line)
    });
    assert_eq!(calls, 0);
    assert!(!store.is_running());
}

#[test]
fn finish_exit_restores_the_handle() {
    let mut store = HandleStore::new();
    assert_eq!(store.finish_start(Ok(child(6))), Ok(()));
    let taken = store.begin_shutdown();
    assert_eq!(taken, Ok(child(6)));
    store.finish_exit(child(6), Err("closed".to_string()));
    assert_eq!(store.handle(), Some(&child(6)));
}

#[test]
fn shutdown_line_is_one_newline_terminated_command() {
    let line = shutdown_line();
    assert_eq!(line, "sidecar shutdown\n");
    assert_eq!(line.len(), 17);
    assert_eq!(line.matches('\n').count(), 1);
    assert!(line.ends_with('\n'));
}

#[test]
fn error_messages() {
    assert_eq!(SidecarError::Launch("spawn failed".to_string()).message(), "spawn failed");
    assert_eq!(
        SidecarError::Write("broken pipe".to_string()).message(),
        "向 sidecar stdin 写入失败: broken pipe"
    );
    assert_eq!(SidecarError::NotRunning.message(), "没有活跃的 sidecar 进程可以关闭。");
    assert_eq!(
        SidecarError::Lock(LockFault::Poisoned).message(),
        "[tauri] 获取 sidecar 进程锁失败。"
    );
    assert_eq!(SidecarError::Lock(LockFault::Unavailable).message(), "未找到 Sidecar 进程状态。");
    assert_eq!(
        SidecarError::store_inaccessible(),
        SidecarError::Launch("无法访问应用状态".to_string())
    );
}

#[test]
fn start_without_store_always_fails() {
    let report = sidecar_host::store::start_without_store(Ok(child(1)));
    assert_eq!(report, Err(SidecarError::Launch("无法访问应用状态".to_string())));
    let report = sidecar_host::store::start_without_store::<FakeChild>(Err("no exe".to_string()));
    assert_eq!(report, Err(SidecarError::Launch("no exe".to_string())));
}
