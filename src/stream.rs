//! The sequence that (re)builds the output stream. The caller performs each step on the
//! device and reports whether it worked; the first failure ends the sequence.
use vstd::prelude::*;

use crate::playback::{set_status, CommandType, StatusRegister};
use crate::status::ProcessStatus;

verus! {

#[derive(Clone, Copy, Debug, PartialEq, Eq, Structural)]
pub enum SetupStep {
    /// Drop the stream that is live, if any.
    ReleaseStream,
    /// Find the default output device.
    FindDevice,
    /// Read the device's native configuration (with the requested rate put in, when
    /// reconfiguring).
    ReadConfig,
    /// Build a stream bound to the shared buffer.
    BuildStream,
    /// Start the new stream.
    StartStream,
    /// Make the new stream the one live stream.
    PublishStream,
    Done,
    Failed,
}

pub open spec fn step_after(step: SetupStep) -> SetupStep {
    match step {
        SetupStep::ReleaseStream => SetupStep::FindDevice,
        SetupStep::FindDevice => SetupStep::ReadConfig,
        SetupStep::ReadConfig => SetupStep::BuildStream,
        SetupStep::BuildStream => SetupStep::StartStream,
        SetupStep::StartStream => SetupStep::PublishStream,
        SetupStep::PublishStream => SetupStep::Done,
        SetupStep::Done => SetupStep::Done,
        SetupStep::Failed => SetupStep::Failed,
    }
}

pub open spec fn is_final(step: SetupStep) -> bool {
    step == SetupStep::Done || step == SetupStep::Failed
}

/// Starts building a stream: for `init`, or for a change of sample rate when
/// `reconfigure`. The status shows that command in progress.
pub fn begin_setup(reg: &mut StatusRegister, reconfigure: bool) -> (r: SetupStep)
    ensures
        r == SetupStep::ReleaseStream,
        final(reg).status == ProcessStatus::InProgress,
        final(reg).command == (if reconfigure {
            CommandType::SetSampleRate
        } else {
            CommandType::Init
        }),
{
    set_status(
        reg,
        ProcessStatus::InProgress,
        if reconfigure {
            CommandType::SetSampleRate
        } else {
            CommandType::Init
        },
    );
    SetupStep::ReleaseStream
}

/// The step after `step` given whether it worked: any failure ends in `Failed`, with
/// no retry; the status then reports the error. Reaching `Done` reports success.
pub fn next_step(reg: &mut StatusRegister, step: SetupStep, succeeded: bool) -> (r: SetupStep)
    requires
        !is_final(step),
    ensures
        r == (if succeeded {
            step_after(step)
        } else {
            SetupStep::Failed
        }),
        r == SetupStep::Failed ==> final(reg).status == ProcessStatus::Error && final(reg).command
            == CommandType::NoCommand,
        r == SetupStep::Done ==> final(reg).status == ProcessStatus::Success
            && final(reg).command == CommandType::NoCommand,
        !is_final(r) ==> *final(reg) == *old(reg),
{
    if !succeeded {
        set_status(reg, ProcessStatus::Error, CommandType::NoCommand);
        return SetupStep::Failed;
    }
    let r = match step {
        SetupStep::ReleaseStream => SetupStep::FindDevice,
        SetupStep::FindDevice => SetupStep::ReadConfig,
        SetupStep::ReadConfig => SetupStep::BuildStream,
        SetupStep::BuildStream => SetupStep::StartStream,
        SetupStep::StartStream => SetupStep::PublishStream,
        SetupStep::PublishStream => SetupStep::Done,
        SetupStep::Done => SetupStep::Done,
        SetupStep::Failed => SetupStep::Failed,
    };
    if r == SetupStep::Done {
        set_status(reg, ProcessStatus::Success, CommandType::NoCommand);
    }
    r
}

} // verus!
