//! Decisions of a hotkey-triggered command execution. The host runs the
//! steps: it checks the session, lists the devices, calls the device and
//! reports the outcome as an event.

use vstd::prelude::*;
use crate::commands::SavedCommand;

verus! {

#[verifier::external_type_specification]
#[verifier::external_body]
pub struct ExJsonValue(serde_json::Value);

#[verifier::external_type_specification]
#[verifier::external_body]
pub struct ExJsonError(serde_json::Error);

/// Whether `serde_json` accepts the text as a JSON document.
pub uninterp spec fn json_accepts(s: Seq<char>) -> bool;

/// Relies on `serde_json::from_str::<serde_json::Value>`: it succeeds exactly
/// on text that is one JSON document, which depends on the text alone.
#[verifier::external_body]
fn parse_json(s: &str) -> (r: Result<serde_json::Value, serde_json::Error>)
    ensures
        r is Ok == json_accepts(s@),
{
    serde_json::from_str::<serde_json::Value>(s)
}

/// Why a hotkey-triggered execution failed.
#[derive(Clone, Debug, PartialEq, Eq)]
pub enum DispatchError {
    /// No usable session: no device was contacted.
    NotLoggedIn,
    /// The device listing failed.
    DevicesUnavailable,
    /// The account has no device.
    NoDevices,
    /// The stored parameters are not JSON; the message says why.
    InvalidParams(String),
    /// The device call failed with this message.
    CallFailed(String),
}

/// What the host must do next for a hotkey-triggered execution.
#[derive(Debug, PartialEq)]
pub enum DispatchStep {
    /// List the account's devices, in the order the cloud returns them.
    ListDevices,
    /// Invoke `method` with `params` on the device `did`.
    CallDevice { did: String, method: String, params: serde_json::Value },
    /// The execution is over.
    Finished(Result<(), DispatchError>),
}

/// The event that makes an execution's outcome visible; there is no caller to
/// return it to.
#[derive(Clone, Debug, PartialEq, Eq)]
pub enum ShortcutReport {
    /// The command of this name ran.
    Executed(String),
    /// The command of this name failed.
    Failed(String, DispatchError),
}

/// The parameters of a device call, given as JSON text or not at all. Text that
/// is not JSON is refused with the parser's message.
pub fn call_params(params: Option<String>) -> (r: Result<Option<serde_json::Value>, String>)
    ensures
        match params {
            None => r matches Ok(None),
            Some(p) => (r is Ok == json_accepts(p@)) && (r is Ok ==> r->Ok_0 is Some),
        },
{
    match params {
        None => Ok(None),
        Some(p) => match parse_json(p.as_str()) {
            Ok(v) => Ok(Some(v)),
            Err(e) => Err(e.to_string()),
        },
    }
}

/// First step: without a usable session, fail at once and touch no device.
pub fn dispatch_start(logged_in: bool) -> (r: DispatchStep)
    ensures
        r == (if logged_in {
            DispatchStep::ListDevices
        } else {
            DispatchStep::Finished(Err(DispatchError::NotLoggedIn))
        }),
{
    if logged_in {
        DispatchStep::ListDevices
    } else {
        DispatchStep::Finished(Err(DispatchError::NotLoggedIn))
    }
}

/// Second step, once the devices are listed (as their ids): the command goes
/// to the first device, with its stored parameters read as JSON.
pub fn dispatch_after_listing(cmd: &SavedCommand, devices: Result<Vec<String>, ()>) -> (r:
    DispatchStep)
    ensures
        match devices {
            Err(()) => r == DispatchStep::Finished(Err(DispatchError::DevicesUnavailable)),
            Ok(d) => if d@.len() == 0 {
                r == DispatchStep::Finished(Err(DispatchError::NoDevices))
            } else if json_accepts(cmd.params@) {
                &&& r is CallDevice
                &&& r->did == d@[0]
                &&& r->method == cmd.method
            } else {
                &&& r is Finished
                &&& r->Finished_0 matches Err(DispatchError::InvalidParams(_))
            },
        },
{
    let d = match devices {
        Err(()) => return DispatchStep::Finished(Err(DispatchError::DevicesUnavailable)),
        Ok(d) => d,
    };
    if d.len() == 0 {
        return DispatchStep::Finished(Err(DispatchError::NoDevices));
    }
    match parse_json(cmd.params.as_str()) {
        Ok(params) => DispatchStep::CallDevice {
            did: d[0].clone(),
            method: cmd.method.clone(),
            params,
        },
        Err(e) => DispatchStep::Finished(Err(DispatchError::InvalidParams(e.to_string()))),
    }
}

/// Last step, once the device has answered.
pub fn dispatch_after_call(outcome: Result<(), String>) -> (r: DispatchStep)
    ensures
        r == DispatchStep::Finished(
            match outcome {
                Ok(()) => Ok::<(), DispatchError>(()),
                Err(m) => Err(DispatchError::CallFailed(m)),
            },
        ),
{
    match outcome {
        Ok(()) => DispatchStep::Finished(Ok(())),
        Err(m) => DispatchStep::Finished(Err(DispatchError::CallFailed(m))),
    }
}

/// The event that reports how the execution of `cmd` ended.
pub fn report(cmd: &SavedCommand, result: Result<(), DispatchError>) -> (r: ShortcutReport)
    ensures
        r == (match result {
            Ok(()) => ShortcutReport::Executed(cmd.name),
            Err(e) => ShortcutReport::Failed(cmd.name, e),
        }),
{
    match result {
        Ok(()) => ShortcutReport::Executed(cmd.name.clone()),
        Err(e) => ShortcutReport::Failed(cmd.name.clone(), e),
    }
}

} // verus!
