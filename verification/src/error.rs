//! Errors of the driver.
use vstd::prelude::*;
use vstd::std_specs::convert::{FromSpec, FromSpecImpl};

verus! {

/// Why a transfer failed.
#[derive(Copy, Clone, Debug, PartialEq, Eq, Structural)]
pub enum PipeError {
    /// The packet is too long for the buffer.
    BufferOverflow,
    /// CRC or other framing error.
    BadResponse,
    /// The device sent more data than expected.
    Babble,
    /// Data toggle mismatch.
    DataToggleError,
    /// The transfer was canceled.
    Canceled,
    /// The endpoint is stalled.
    Stall,
    /// The device did not respond in time.
    Timeout,
    /// The device is gone.
    Disconnected,
    /// A failure of any other kind.
    Other,
}

/// FTDI host driver error.
#[derive(Copy, Clone, Debug, PartialEq, Eq, Structural)]
pub enum FtdiError {
    /// Transfer error.
    Transfer(PipeError),
    /// No vendor-class interface at `interface_idx` with a bulk IN/OUT pair.
    NoInterface,
    /// Failed to allocate a pipe.
    NoPipe,
    /// Argument out of range for the FTDI protocol.
    InvalidArgument,
    /// The requested baud rate is not in the verified divisor table.
    UnsupportedBaud,
}

/// What kind of failure an error is to a user of byte streams.
#[derive(Copy, Clone, Debug, PartialEq, Eq, Structural)]
pub enum ErrorKind {
    /// Unspecified.
    Other,
    /// Something was not found.
    NotFound,
    /// There is no connection.
    NotConnected,
    /// A parameter was wrong.
    InvalidInput,
    /// The deadline passed.
    TimedOut,
    /// There was no room.
    OutOfMemory,
}

impl FromSpecImpl<PipeError> for FtdiError {
    open spec fn obeys_from_spec() -> bool {
        true
    }

    open spec fn from_spec(e: PipeError) -> Self {
        FtdiError::Transfer(e)
    }
}

impl From<PipeError> for FtdiError {
    fn from(e: PipeError) -> (error: Self) {
        FtdiError::Transfer(e)
    }
}

impl FtdiError {
    /// The error in words.
    pub open spec fn message(self) -> Seq<char> {
        match self {
            FtdiError::Transfer(_) => "Transfer error"@,
            FtdiError::NoInterface => "No FTDI interface found"@,
            FtdiError::NoPipe => "No free pipe"@,
            FtdiError::InvalidArgument => "Invalid argument"@,
            FtdiError::UnsupportedBaud => "Unsupported baud rate"@,
        }
    }

    /// The error in words.
    pub fn to_string(&self) -> (message: String)
        ensures
            message@ == self.message(),
    {
        match self {
            FtdiError::Transfer(_) => "Transfer error".to_owned(),
            FtdiError::NoInterface => "No FTDI interface found".to_owned(),
            FtdiError::NoPipe => "No free pipe".to_owned(),
            FtdiError::InvalidArgument => "Invalid argument".to_owned(),
            FtdiError::UnsupportedBaud => "Unsupported baud rate".to_owned(),
        }
    }

    /// What kind of failure this is to a user of byte streams.
    pub fn kind(&self) -> (kind: ErrorKind)
        ensures
            kind == match *self {
                FtdiError::Transfer(PipeError::Disconnected) => ErrorKind::NotConnected,
                FtdiError::Transfer(PipeError::BufferOverflow) => ErrorKind::OutOfMemory,
                FtdiError::Transfer(PipeError::Timeout) => ErrorKind::TimedOut,
                FtdiError::Transfer(_) => ErrorKind::Other,
                FtdiError::NoInterface => ErrorKind::NotFound,
                FtdiError::NoPipe => ErrorKind::OutOfMemory,
                FtdiError::InvalidArgument => ErrorKind::InvalidInput,
                FtdiError::UnsupportedBaud => ErrorKind::InvalidInput,
            },
    {
        match self {
            FtdiError::Transfer(e) => match e {
                PipeError::Disconnected => ErrorKind::NotConnected,
                PipeError::BufferOverflow => ErrorKind::OutOfMemory,
                PipeError::Timeout => ErrorKind::TimedOut,
                _ => ErrorKind::Other,
            },
            FtdiError::NoInterface => ErrorKind::NotFound,
            FtdiError::NoPipe => ErrorKind::OutOfMemory,
            FtdiError::InvalidArgument | FtdiError::UnsupportedBaud => ErrorKind::InvalidInput,
        }
    }
}

/// Every error has its own words; those of a transfer error do not depend on why
/// the transfer failed.
pub proof fn law_messages(failure: PipeError)
    ensures
        FtdiError::Transfer(failure).message() == "Transfer error"@,
        FtdiError::NoInterface.message() == "No FTDI interface found"@,
        FtdiError::NoPipe.message() == "No free pipe"@,
        FtdiError::InvalidArgument.message() == "Invalid argument"@,
        FtdiError::UnsupportedBaud.message() == "Unsupported baud rate"@,
{
}

/// A failed transfer becomes a transfer error that keeps the reason.
pub proof fn law_transfer_error_keeps_the_reason(failure: PipeError)
    ensures
        <FtdiError as FromSpec<PipeError>>::obeys_from_spec(),
        <FtdiError as FromSpec<PipeError>>::from_spec(failure) == FtdiError::Transfer(failure),
{
}

} // verus!
