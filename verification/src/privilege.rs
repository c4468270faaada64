//! Administrator rights: reading the answer of the process token, and
//! starting the application again with such rights.

use vstd::prelude::*;
use crate::batch::Continuation;
use crate::error::{StartupError, StartupErrorView};
use crate::launch::{LaunchRequest, LaunchRequestView};
use crate::registrar::AUTO_FLAG;
use crate::text::owned;

verus! {

/// The highest value by which the operating system's "run as" call reports a
/// failure. Every greater value means that the program was started.
pub const SHELL_EXECUTE_FAILURE_MAX: isize = 32;

/// Reads what the process token says about administrator rights.
///
/// `token_opened` tells whether the token of the current process could be
/// opened, `information_read` whether its elevation could be read, and
/// `token_is_elevated` holds what was read. A process whose token cannot be
/// asked counts as one without administrator rights.
pub fn is_elevated_token(token_opened: bool, information_read: bool, token_is_elevated: u32) -> (elevated:
    bool)
    ensures
        elevated == (token_opened && information_read && token_is_elevated != 0),
{
    token_opened && information_read && token_is_elevated != 0
}

/// Returns the request that starts the program at `exe_path` again, with
/// administrator rights and with the flag for a start at logon.
pub fn relaunch_request(exe_path: &str) -> (request: LaunchRequest)
    ensures
        request@ == (LaunchRequestView::ElevatedProgram {
            path: exe_path@,
            parameters: Some(AUTO_FLAG@),
        }),
{
    LaunchRequest::ElevatedProgram { path: owned(exe_path), parameters: Some(owned(AUTO_FLAG)) }
}

/// Tells whether the value returned by the operating system's "run as" call
/// means that the program was started.
pub fn shell_execute_succeeded(code: isize) -> (started: bool)
    ensures
        started == (code > SHELL_EXECUTE_FAILURE_MAX),
{
    code > SHELL_EXECUTE_FAILURE_MAX
}

/// Says how a request to start again with administrator rights ends. If the
/// elevated process was started, the current process ends at once and the
/// operation does not return; otherwise the failure is reported.
pub fn conclude_relaunch(started: bool) -> (result: Result<Continuation, StartupError>)
    ensures
        match result {
            Ok(next) => started && next == Continuation::Terminate { grace_millis: 0 },
            Err(error) => !started && error@ == StartupErrorView::Spawn("以管理员身份重启失败"@),
        },
{
    if started {
        Ok(Continuation::Terminate { grace_millis: 0 })
    } else {
        Err(StartupError::Spawn(owned("以管理员身份重启失败")))
    }
}

} // verus!
