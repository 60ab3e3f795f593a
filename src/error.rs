use vstd::prelude::*;

verus! {

/// Why a received control message was refused.
#[derive(Clone, Copy, Debug, PartialEq, Eq, Structural)]
pub enum InvalidData {
    /// The control region is too small to hold a message header.
    Header,
    /// The first message is not a `SOL_SOCKET` / `SCM_RIGHTS` record.
    Level,
    /// The kernel reported that control data was truncated.
    Truncated,
    /// The message did not carry exactly one descriptor.
    Length,
    /// The syscall returned a count outside the range it can return.
    Return,
}

/// An error of a descriptor transfer.
#[derive(Clone, Copy, Debug, PartialEq, Eq, Structural)]
pub enum FdError {
    /// The syscall failed with this `errno`.
    Os(i32),
    /// The peer closed the stream before a descriptor arrived.
    UnexpectedEof,
    /// The peer sent something other than one descriptor.
    InvalidData(InvalidData),
}

impl FdError {
    /// The diagnostic text of an error that the protocol itself raises;
    /// an OS error has its text from the platform.
    pub fn message(&self) -> (r: &'static str)
        ensures
            *self == FdError::UnexpectedEof ==> r@ == "0 bytes read"@,
            *self == FdError::InvalidData(InvalidData::Header) ==> r@ == "missing control msg"@,
            *self == FdError::InvalidData(InvalidData::Level) ==> r@ == "bad control msg (level)"@,
            *self == FdError::InvalidData(InvalidData::Truncated) ==> r@ == "control msg truncated"@,
            *self == FdError::InvalidData(InvalidData::Length) ==> r@ == "bad control msg (len)"@,
            *self == FdError::InvalidData(InvalidData::Return) ==> r@ == "unexpected return value"@,
            self is Os ==> r@ == "os error"@,
    {
        match self {
            FdError::Os(_) => "os error",
            FdError::UnexpectedEof => "0 bytes read",
            FdError::InvalidData(InvalidData::Header) => "missing control msg",
            FdError::InvalidData(InvalidData::Level) => "bad control msg (level)",
            FdError::InvalidData(InvalidData::Truncated) => "control msg truncated",
            FdError::InvalidData(InvalidData::Length) => "bad control msg (len)",
            FdError::InvalidData(InvalidData::Return) => "unexpected return value",
        }
    }
}

} // verus!
