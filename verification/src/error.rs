//! The failures of sidecar supervision and the text that describes each.

use vstd::prelude::*;
use vstd::string::*;

verus! {

/// Why the handle store could not be used.
#[derive(Debug, Clone, Copy, PartialEq, Eq)]
pub enum LockFault {
    /// The lock around the store is poisoned.
    Poisoned,
    /// The host holds no store at all.
    Unavailable,
}

/// A failure of sidecar supervision.
#[derive(Debug, Clone, PartialEq, Eq)]
pub enum SidecarError {
    /// The executable could not be resolved or spawned, or the store could not
    /// be reached to register it. Carries the reason.
    Launch(String),
    /// The shutdown line could not be written to the child's input. Carries
    /// the reason given by the failed write.
    Write(String),
    /// Shutdown was requested while no handle was tracked.
    NotRunning,
    /// The store could not be locked or found.
    Lock(LockFault),
}

/// The reason carried by a launch failure that is due to an unreachable store.
pub open spec fn store_inaccessible_text() -> Seq<char> {
    "无法访问应用状态"@
}

/// What precedes the reason in the description of a failed write.
pub open spec fn write_failure_prefix() -> Seq<char> {
    "向 sidecar stdin 写入失败: "@
}

/// The description of a shutdown request that found nothing to shut down.
pub open spec fn not_running_text() -> Seq<char> {
    "没有活跃的 sidecar 进程可以关闭。"@
}

/// The description of a poisoned store lock.
pub open spec fn lock_poisoned_text() -> Seq<char> {
    "[tauri] 获取 sidecar 进程锁失败。"@
}

/// The description of a missing store.
pub open spec fn store_missing_text() -> Seq<char> {
    "未找到 Sidecar 进程状态。"@
}

/// The human-readable description of an error, as the front end receives it.
pub open spec fn message_text(error: SidecarError) -> Seq<char> {
    match error {
        SidecarError::Launch(reason) => reason@,
        SidecarError::Write(reason) => write_failure_prefix() + reason@,
        SidecarError::NotRunning => not_running_text(),
        SidecarError::Lock(LockFault::Poisoned) => lock_poisoned_text(),
        SidecarError::Lock(LockFault::Unavailable) => store_missing_text(),
    }
}

impl SidecarError {
    /// The launch failure of a start that spawned a child but found no store
    /// to register it in.
    pub fn store_inaccessible() -> (error: SidecarError)
        ensures
            error matches SidecarError::Launch(reason) && reason@ == store_inaccessible_text(),
    {
        SidecarError::Launch(String::from_str("无法访问应用状态"))
    }

    /// Describes the error in words.
    pub fn message(&self) -> (text: String)
        ensures
            text@ == message_text(*self),
    {
        match self {
            SidecarError::Launch(reason) => reason.clone(),
            SidecarError::Write(reason) => {
                String::from_str("向 sidecar stdin 写入失败: ").concat(reason.as_str())
            },
            SidecarError::NotRunning => String::from_str("没有活跃的 sidecar 进程可以关闭。"),
            SidecarError::Lock(LockFault::Poisoned) => {
                String::from_str("[tauri] 获取 sidecar 进程锁失败。")
            },
            SidecarError::Lock(LockFault::Unavailable) => {
                String::from_str("未找到 Sidecar 进程状态。")
            },
        }
    }
}

} // verus!
