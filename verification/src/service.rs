//! The interprocess surface of the timer service: the well-known identity
//! under which the service registers, the single method it exposes, and the
//! dispatch decision taken for each incoming call.
//!
//! Transport mechanics (connecting to the session bus, registering the name,
//! serving and invoking the method) live in the unverified driver around the
//! library; it hands a [`StartRequest`] in and receives a fresh
//! [`Engine`] to run on a background thread.

use vstd::prelude::*;

use crate::engine::Engine;

verus! {

/// Work duration, in minutes, used when the client does not ask for one.
pub const DEFAULT_WORK_MINUTES: u64 = 25;

/// Timeout, in milliseconds, that the client applies to the call itself
/// (not to the timer): the call is expected to return immediately because
/// dispatch never waits for the engine it spawns.
pub const CALL_TIMEOUT_MS: u64 = 5000;

/// The well-known name under which the service registers on the session bus.
pub fn service_name() -> (s: &'static str)
    ensures
        s@ == "com.example.Pomodoro"@,
{
    "com.example.Pomodoro"
}

/// The object path on which the service exposes its method.
pub fn object_path() -> (s: &'static str)
    ensures
        s@ == "/com/example/Pomodoro/Timers"@,
{
    "/com/example/Pomodoro/Timers"
}

/// The name of the one exposed method.
pub fn start_method() -> (s: &'static str)
    ensures
        s@ == "Start"@,
{
    "Start"
}

/// The request value carried by one "Start" call: a trigger, not a
/// computation — the reply is an empty acknowledgment.
pub struct StartRequest {
    /// Requested work duration in minutes, taken off the wire unvalidated.
    pub minutes: u64,
}

/// Dispatches one "Start" call: builds the fresh, independent engine
/// instance that the caller's background execution will run.
///
/// No validation is performed and no state is shared: every call — even two
/// in rapid succession with the same minutes — yields its own engine at step
/// zero, so concurrently running instances progress independently.
pub fn handle_start(req: &StartRequest) -> (e: Engine)
    ensures
        e.wf(),
        e.work_minutes == req.minutes,
        e.steps@ == 0,
{
    Engine::new(req.minutes)
}

} // verus!
