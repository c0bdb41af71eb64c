use vstd::prelude::*;

use crate::measurement::{RangingMode, Roi, TimingBudget};
use crate::status::NativeLaserCan;

verus! {

/// Every configuration request waits this many milliseconds for its response.
pub const REQUEST_TIMEOUT_MS: u64 = 500;

/// The class of a protocol error, as the device or the transport reports it.
#[derive(Clone, Copy, Debug, PartialEq, Eq, Structural)]
pub enum ErrorKind {
    ParameterOutOfBounds,
    FailedAssertion,
    TimedOut,
    Generic,
}

/// The one-byte code of an error class on the wire.
pub open spec fn error_code_of(k: ErrorKind) -> u8 {
    match k {
        ErrorKind::ParameterOutOfBounds => 0x00,
        ErrorKind::FailedAssertion => 0x01,
        ErrorKind::TimedOut => 0xFE,
        ErrorKind::Generic => 0xFF,
    }
}

impl ErrorKind {
    /// The one-byte code of this error class.
    pub fn code(&self) -> (r: u8)
        ensures
            r == error_code_of(*self),
    {
        match self {
            ErrorKind::ParameterOutOfBounds => 0x00,
            ErrorKind::FailedAssertion => 0x01,
            ErrorKind::TimedOut => 0xFE,
            ErrorKind::Generic => 0xFF,
        }
    }
}

/// An error of the request/response protocol: its class and a message.
#[derive(Clone, Debug, PartialEq, Eq)]
pub struct ProtocolError {
    pub kind: ErrorKind,
    pub message: String,
}

/// A failed configuration call, classified by the layer that failed.
#[derive(Clone, Debug, PartialEq, Eq)]
pub enum LaserCanError {
    /// The round trip failed: no response within the timeout, or a broken frame.
    Transport(ProtocolError),
    /// The sensor understood the command and reported that it failed.
    Device(ProtocolError),
}

impl LaserCanError {
    /// Whether the transport, rather than the device, failed.
    pub fn is_transport(&self) -> (r: bool)
        ensures
            r <==> *self is Transport,
    {
        match self {
            LaserCanError::Transport(_) => true,
            LaserCanError::Device(_) => false,
        }
    }

    /// The class of the underlying protocol error.
    pub fn kind(&self) -> (r: ErrorKind)
        ensures
            r == error_kind_of(*self),
    {
        match self {
            LaserCanError::Transport(e) => e.kind,
            LaserCanError::Device(e) => e.kind,
        }
    }
}

/// The class of the protocol error under `e`.
pub open spec fn error_kind_of(e: LaserCanError) -> ErrorKind {
    match e {
        LaserCanError::Transport(p) => p.kind,
        LaserCanError::Device(p) => p.kind,
    }
}

/// A configuration command for the sensor.
#[derive(Clone, Copy, Debug, PartialEq, Eq, Structural)]
pub enum ConfigCommand {
    SetTimingBudget(TimingBudget),
    SetRoi(Roi),
    SetRange(RangingMode),
}

/// A command to send through the transport's request primitive, with the time
/// to wait for the response.
#[derive(Clone, Copy, Debug, PartialEq, Eq, Structural)]
pub struct ConfigRequest {
    pub command: ConfigCommand,
    pub timeout_ms: u64,
}

/// What the transport's request primitive hands back: the outer layer fails
/// when the round trip fails, the inner one when the device rejects the command.
pub type RequestResponse = Result<Result<(), ProtocolError>, ProtocolError>;

/// The single flattened outcome of a configuration call for `response`.
pub open spec fn flattened(response: RequestResponse) -> Result<(), LaserCanError> {
    match response {
        Ok(Ok(())) => Ok(()),
        Ok(Err(e)) => Err(LaserCanError::Device(e)),
        Err(e) => Err(LaserCanError::Transport(e)),
    }
}

/// Merges the transport and device layers of a response into one outcome.
pub fn flatten_response(response: RequestResponse) -> (r: Result<(), LaserCanError>)
    ensures
        r == flattened(response),
{
    match response {
        Ok(Ok(())) => Ok(()),
        Ok(Err(e)) => Err(LaserCanError::Device(e)),
        Err(e) => Err(LaserCanError::Transport(e)),
    }
}

/// The request that issues `command` with the fixed timeout.
pub fn config_request(command: ConfigCommand) -> (r: ConfigRequest)
    ensures
        r.command == command,
        r.timeout_ms == REQUEST_TIMEOUT_MS,
{
    ConfigRequest { command, timeout_ms: REQUEST_TIMEOUT_MS }
}

impl NativeLaserCan {
    /// The request that sets the sensor's timing budget.
    pub fn set_timing_budget(&self, budget: TimingBudget) -> (r: ConfigRequest)
        ensures
            r.command == ConfigCommand::SetTimingBudget(budget),
            r.timeout_ms == REQUEST_TIMEOUT_MS,
    {
        config_request(ConfigCommand::SetTimingBudget(budget))
    }

    /// The request that sets the sensor's region of interest.
    pub fn set_roi(&self, roi: Roi) -> (r: ConfigRequest)
        ensures
            r.command == ConfigCommand::SetRoi(roi),
            r.timeout_ms == REQUEST_TIMEOUT_MS,
    {
        config_request(ConfigCommand::SetRoi(roi))
    }

    /// The request that sets the sensor's ranging mode.
    pub fn set_range(&self, mode: RangingMode) -> (r: ConfigRequest)
        ensures
            r.command == ConfigCommand::SetRange(mode),
            r.timeout_ms == REQUEST_TIMEOUT_MS,
    {
        config_request(ConfigCommand::SetRange(mode))
    }

    /// The outcome of a configuration call once the transport answered.
    pub fn finish_request(&self, response: RequestResponse) -> (r: Result<(), LaserCanError>)
        ensures
            r == flattened(response),
    {
        flatten_response(response)
    }
}

} // verus!
