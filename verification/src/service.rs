//! Service-level decisions of the supervisor loop.
//!
//! The supervisor builds a fresh receiver, transmitter and audio engine every
//! iteration, runs them concurrently, and when the first of them finishes
//! classifies the outcome: a clean finish ends the service successfully, a
//! restartable failure leads to a backoff-delayed restart, anything else ends
//! the service with a failure. Running tasks, sleeping and exiting are the
//! caller's; the classification stands here.

use vstd::prelude::*;

use crate::receiver::ReceiverError;
use crate::transmitter::TransmitterError;

verus! {

/// The command-line surface of the service: repeatable verbosity.
pub struct AudioBicycle {
    /// How many times the verbose flag was given.
    pub verbose: u8,
}

/// The logging verbosity selected by the command line.
#[derive(Debug, Clone, Copy, PartialEq, Eq, Structural)]
pub enum LogVerbosity {
    Info,
    Debug,
    Trace,
}

/// The verbosity each flag count selects: none for info, one for debug,
/// more for trace.
pub open spec fn spec_log_verbosity(verbose: u8) -> LogVerbosity {
    if verbose == 0 {
        LogVerbosity::Info
    } else if verbose == 1 {
        LogVerbosity::Debug
    } else {
        LogVerbosity::Trace
    }
}

impl AudioBicycle {
    /// The logging verbosity these arguments select.
    pub fn log_verbosity(&self) -> (r: LogVerbosity)
        ensures
            r == spec_log_verbosity(self.verbose),
    {
        if self.verbose == 0 {
            LogVerbosity::Info
        } else if self.verbose == 1 {
            LogVerbosity::Debug
        } else {
            LogVerbosity::Trace
        }
    }
}

/// Everything that can end one iteration of the service.
#[derive(Debug, Clone, Copy, PartialEq, Eq, Structural)]
pub enum AudioBicycleError {
    /// The configuration could not be loaded — fatal at startup.
    Config,
    /// The audio engine failed.
    PulseAudio,
    /// The UDP socket could not be created — nothing to restart into.
    Socket,
    /// The receive loop failed.
    Receiver(ReceiverError),
    /// The transmit loop failed.
    Transmitter(TransmitterError),
}

/// Which failures a restart can potentially cure: socket reads and writes
/// failing mid-run, the audio channel breaking, and audio-engine errors.
/// Configuration and socket-creation failures are not among them.
pub open spec fn spec_is_restartable(err: AudioBicycleError) -> bool {
    match err {
        AudioBicycleError::Receiver(ReceiverError::SocketRead) => true,
        AudioBicycleError::Receiver(ReceiverError::AudioChannelBroken) => true,
        AudioBicycleError::Transmitter(TransmitterError::SocketWrite) => true,
        AudioBicycleError::PulseAudio => true,
        _ => false,
    }
}

/// Is this error one that can potentially be handled by simply restarting
/// the pipeline?
pub fn is_restartable_error(err: &AudioBicycleError) -> (r: bool)
    ensures
        r == spec_is_restartable(*err),
{
    match *err {
        AudioBicycleError::Receiver(ReceiverError::SocketRead) => true,
        AudioBicycleError::Receiver(ReceiverError::AudioChannelBroken) => true,
        AudioBicycleError::Transmitter(TransmitterError::SocketWrite) => true,
        AudioBicycleError::PulseAudio => true,
        _ => false,
    }
}

/// What the supervisor does once an iteration of the pipeline has finished.
#[derive(Debug, Clone, Copy, PartialEq, Eq, Structural)]
pub enum ServiceDirective {
    /// Everything completed cleanly: exit with success.
    ExitSuccess,
    /// A restartable failure: back off, then rebuild and rerun the pipeline.
    RestartAfterBackOff,
    /// A fatal failure: exit with a failure status.
    ExitFailure,
}

/// Classifies the outcome of one pipeline iteration: success exits cleanly,
/// a restartable error asks for a backoff-delayed restart, any other error
/// ends the service.
pub fn classify_outcome(outcome: &Result<(), AudioBicycleError>) -> (d: ServiceDirective)
    ensures
        d is ExitSuccess <==> *outcome is Ok,
        d is RestartAfterBackOff <==> (*outcome matches Err(e) && spec_is_restartable(e)),
        d is ExitFailure <==> (*outcome matches Err(e) && !spec_is_restartable(e)),
{
    match outcome {
        Ok(_) => ServiceDirective::ExitSuccess,
        Err(e) => {
            if is_restartable_error(e) {
                ServiceDirective::RestartAfterBackOff
            } else {
                ServiceDirective::ExitFailure
            }
        },
    }
}

} // verus!
