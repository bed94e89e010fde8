//! How a guest run ended, and what that means for the caller.
use crate::error::RuntimeError;
use crate::output::{decode_output, decoded_as};
use serde_json::Value;
use vstd::prelude::*;

verus! {

/// How the engine reported the end of a run. The two engine subsystems that
/// can raise an explicit process exit each have their own exit signal.
#[derive(Debug, PartialEq, Eq)]
pub enum RunEnd {
    /// The entry point returned.
    Returned,
    /// Explicit exit raised through `wasmtime_wasi`.
    WasiExit(i32),
    /// Explicit exit raised through `wasi_common`.
    CommonExit(i32),
    /// A trap, a missing entry point, or any other engine error.
    Fault(String),
}

/// A run's end, normalised.
#[derive(Debug, PartialEq, Eq)]
pub enum Outcome {
    Success,
    GuestExit(i32),
    EngineFault(String),
}

/// Only the carried exit code matters, not which subsystem raised the exit;
/// code 0 is a success like a normal return.
pub open spec fn outcome_of(end: RunEnd) -> Outcome {
    match end {
        RunEnd::Returned => Outcome::Success,
        RunEnd::WasiExit(c) | RunEnd::CommonExit(c) => if c == 0 {
            Outcome::Success
        } else {
            Outcome::GuestExit(c)
        },
        RunEnd::Fault(d) => Outcome::EngineFault(d),
    }
}

pub fn classify(end: RunEnd) -> (r: Outcome)
    ensures
        r == outcome_of(end),
{
    match end {
        RunEnd::Returned => Outcome::Success,
        RunEnd::WasiExit(c) | RunEnd::CommonExit(c) => if c == 0 {
            Outcome::Success
        } else {
            Outcome::GuestExit(c)
        },
        RunEnd::Fault(d) => Outcome::EngineFault(d),
    }
}

/// The result of a run that ended as `end` after writing `stdout`: a failure
/// carrying the exit code or the engine's detail, or what the output holds.
pub fn finish(end: RunEnd, stdout: Vec<u8>) -> (r: Result<Option<Value>, RuntimeError>)
    ensures
        match outcome_of(end) {
            Outcome::Success => decoded_as(stdout@, r),
            Outcome::GuestExit(c) => r matches Err(RuntimeError::GuestExit(k)) && k == c,
            Outcome::EngineFault(d) => r matches Err(RuntimeError::EngineFault(e)) && e == d,
        },
{
    match classify(end) {
        Outcome::Success => decode_output(stdout),
        Outcome::GuestExit(c) => Err(RuntimeError::GuestExit(c)),
        Outcome::EngineFault(d) => Err(RuntimeError::EngineFault(d)),
    }
}

/// An explicit exit with code 0, from either subsystem, ends a run exactly
/// as a normal return does.
pub proof fn lemma_exit_zero_is_return()
    ensures
        outcome_of(RunEnd::WasiExit(0)) == outcome_of(RunEnd::Returned),
        outcome_of(RunEnd::CommonExit(0)) == outcome_of(RunEnd::Returned),
        outcome_of(RunEnd::Returned) == Outcome::Success,
{
}

/// A run that ends successfully with nothing on standard output yields no
/// value, that is JSON null.
pub proof fn lemma_empty_output_is_null(end: RunEnd, r: Result<Option<Value>, RuntimeError>)
    requires
        outcome_of(end) == Outcome::Success,
        decoded_as(Seq::empty(), r),
    ensures
        r matches Ok(None),
{
}

/// An explicit exit is judged by its code alone: both subsystems' signals
/// give the same outcome, and a non-zero code is a guest-exit failure that
/// keeps the code.
pub proof fn lemma_exit_by_code(c: i32)
    ensures
        outcome_of(RunEnd::WasiExit(c)) == outcome_of(RunEnd::CommonExit(c)),
        c != 0 ==> outcome_of(RunEnd::WasiExit(c)) == Outcome::GuestExit(c),
{
}

} // verus!
