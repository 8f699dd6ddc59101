use vstd::prelude::*;

verus! {

#[verifier::external_type_specification]
#[verifier::external_body]
pub struct ExBacktrace(std::backtrace::Backtrace);

/// What a backtrace holds: a captured trace, nothing because capture was
/// switched off, or nothing because this platform cannot capture one.
#[derive(Clone, Copy, Debug, PartialEq, Eq, Structural)]
pub enum TraceStatus {
    Captured,
    Disabled,
    Unsupported,
}

/// Relies on `Backtrace::capture`: takes a backtrace of the calling thread, or
/// a disabled one when the environment switches capture off. Nothing is
/// promised of which.
pub assume_specification[ std::backtrace::Backtrace::capture ]() -> std::backtrace::Backtrace;

/// Relies on `Backtrace::status`: reports which state `trace` is in. Any state
/// other than captured or disabled counts as unsupported.
#[verifier::external_body]
pub(crate) fn status_of(trace: &std::backtrace::Backtrace) -> (r: TraceStatus) {
    match trace.status() {
        std::backtrace::BacktraceStatus::Captured => TraceStatus::Captured,
        std::backtrace::BacktraceStatus::Disabled => TraceStatus::Disabled,
        _ => TraceStatus::Unsupported,
    }
}

} // verus!
