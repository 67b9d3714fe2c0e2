//! The steps in which an output device is opened.

use vstd::prelude::*;

verus! {

/// A step of opening a device, or how opening it ended.
#[derive(Clone, Copy, Debug, PartialEq, Eq, Structural)]
pub enum OpenStep {
    /// Look the device up by name.
    ResolveDevice,
    /// Negotiate its format.
    PickConfig,
    /// Build the stream with the period that was asked for.
    BuildRequested,
    /// Build the stream with the period that the device prefers.
    BuildDefault,
    /// Start playback.
    Play,
    /// The device plays; the drain thread may start.
    Opened,
    /// Opening failed: report the error that the step returned.
    FailedWithCause,
    /// Opening failed: report an unknown error.
    FailedUnknown,
}

/// What follows `step`, which did or did not succeed.
pub open spec fn after(step: OpenStep, ok: bool) -> OpenStep {
    match (step, ok) {
        (OpenStep::ResolveDevice, true) => OpenStep::PickConfig,
        (OpenStep::PickConfig, true) => OpenStep::BuildRequested,
        (OpenStep::ResolveDevice, false) | (OpenStep::PickConfig, false) => {
            OpenStep::FailedWithCause
        },
        // A device may refuse a fixed period.
        (OpenStep::BuildRequested, false) => OpenStep::BuildDefault,
        (OpenStep::BuildRequested, true) | (OpenStep::BuildDefault, true) => OpenStep::Play,
        (OpenStep::Play, true) => OpenStep::Opened,
        (OpenStep::BuildDefault, false) | (OpenStep::Play, false) => OpenStep::FailedUnknown,
        (end, _) => end,
    }
}

/// The step after `step`, which succeeded or failed as `ok` says. An end stays.
pub fn next_step(step: OpenStep, ok: bool) -> (r: OpenStep)
    ensures
        r == after(step, ok),
{
    match step {
        OpenStep::ResolveDevice => if ok {
            OpenStep::PickConfig
        } else {
            OpenStep::FailedWithCause
        },
        OpenStep::PickConfig => if ok {
            OpenStep::BuildRequested
        } else {
            OpenStep::FailedWithCause
        },
        OpenStep::BuildRequested => if ok {
            OpenStep::Play
        } else {
            OpenStep::BuildDefault
        },
        OpenStep::BuildDefault => if ok {
            OpenStep::Play
        } else {
            OpenStep::FailedUnknown
        },
        OpenStep::Play => if ok {
            OpenStep::Opened
        } else {
            OpenStep::FailedUnknown
        },
        OpenStep::Opened | OpenStep::FailedWithCause | OpenStep::FailedUnknown => step,
    }
}

/// Where opening ends, by what each step does when it is tried.
pub open spec fn outcome(
    step: OpenStep,
    succeeds: spec_fn(OpenStep) -> bool,
    steps: nat,
) -> OpenStep
    decreases steps,
{
    if steps == 0 {
        step
    } else {
        outcome(after(step, succeeds(step)), succeeds, (steps - 1) as nat)
    }
}

/// Opening takes at most five steps. It succeeds exactly where the device is
/// found, a format is agreed on, the stream can be built in one of the two ways,
/// and playback starts. Where no device or no format is found, the cause is
/// reported; a stream that cannot be built or started is an unknown error.
pub proof fn law_opening(succeeds: spec_fn(OpenStep) -> bool)
    ensures
        outcome(OpenStep::ResolveDevice, succeeds, 5) == (if !succeeds(OpenStep::ResolveDevice)
            || !succeeds(OpenStep::PickConfig) {
            OpenStep::FailedWithCause
        } else if (succeeds(OpenStep::BuildRequested) || succeeds(OpenStep::BuildDefault))
            && succeeds(OpenStep::Play) {
            OpenStep::Opened
        } else {
            OpenStep::FailedUnknown
        }),
{
    reveal_with_fuel(outcome, 6);
}

/// The order of the steps: each is tried only after the one it depends on. A
/// format is negotiated once the device is found, and the stream is first built
/// once that succeeded; the second way to build it is for when the first failed;
/// playback starts once a stream was built, and the device is open once playback
/// started. Opening fails only at a step that failed, and an end is final.
pub proof fn law_order_of_steps(step: OpenStep, ok: bool)
    ensures
        ({
            let next = after(step, ok);
            let is_end = step is Opened || step is FailedWithCause || step is FailedUnknown;
            &&& is_end <==> next == step
            &&& next != OpenStep::ResolveDevice
            &&& next is PickConfig ==> ok && step is ResolveDevice
            &&& next is BuildRequested ==> ok && step is PickConfig
            &&& next is BuildDefault ==> !ok && step is BuildRequested
            &&& next is Play ==> ok && (step is BuildRequested || step is BuildDefault)
            &&& next is Opened && next != step ==> ok && step is Play
            &&& next is FailedWithCause && next != step ==> !ok && (step is ResolveDevice
                || step is PickConfig)
            &&& next is FailedUnknown && next != step ==> !ok && (step is BuildDefault
                || step is Play)
        }),
{
}

} // verus!
