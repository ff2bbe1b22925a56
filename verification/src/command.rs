//! The command surface: what each command that the front end can invoke
//! answers, as text, and what the fullscreen toggle asks of the window.

use vstd::prelude::*;
use vstd::string::*;
use crate::error::{message_text, SidecarError};

verus! {

/// The status that a successful start command answers.
pub open spec fn started_text() -> Seq<char> {
    "Sidecar 已启动并开始监控。"@
}

/// The status that a successful shutdown command answers.
pub open spec fn shutdown_sent_text() -> Seq<char> {
    "'sidecar shutdown' 命令已发送。"@
}

/// The answer of the start command: the status text after a successful start
/// request, else the description of the failure.
pub fn start_reply(report: Result<(), SidecarError>) -> (reply: Result<String, String>)
    ensures
        match report {
            Ok(_) => reply matches Ok(status) && status@ == started_text(),
            Err(error) => reply matches Err(failure) && failure@ == message_text(error),
        },
{
    match report {
        Ok(_) => Ok(String::from_str("Sidecar 已启动并开始监控。")),
        Err(error) => Err(error.message()),
    }
}

/// The answer of the shutdown command: the status text after a successful
/// shutdown request, else the description of the failure.
pub fn shutdown_reply(report: Result<(), SidecarError>) -> (reply: Result<String, String>)
    ensures
        match report {
            Ok(_) => reply matches Ok(status) && status@ == shutdown_sent_text(),
            Err(error) => reply matches Err(failure) && failure@ == message_text(error),
        },
{
    match report {
        Ok(_) => Ok(String::from_str("'sidecar shutdown' 命令已发送。")),
        Err(error) => Err(error.message()),
    }
}

/// The fullscreen toggle: given what the window answered when asked whether
/// it is fullscreen (`None` where it gave no answer), the flag to set. The
/// flag is flipped; without an answer nothing is set.
pub fn toggle_fullscreen(current: Option<bool>) -> (request: Option<bool>)
    ensures
        request == match current {
            Some(flag) => Some(!flag),
            None => None,
        },
{
    match current {
        Some(flag) => Some(!flag),
        None => None,
    }
}

} // verus!
