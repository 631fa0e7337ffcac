//! The errors of the bridge.
use vstd::prelude::*;

verus! {

/// The host's own description of its last failure: the bytes of its message,
/// without the terminating NUL.
#[derive(Debug)]
pub struct ByondApiError(pub Vec<u8>);

#[derive(Debug)]
pub enum ByondError {
    /// A value was asked for as a type that it does not hold.
    InvalidConversion { expected: String, got: String },
    /// A proc name could not be turned into a host string id.
    InvalidProc,
    /// A variable name could not be turned into a host string id.
    InvalidVariable,
    /// A host string was not valid UTF-8, or had no terminator.
    NonUtf8String,
    /// A host call failed without saying why.
    UnknownByondError,
    /// A host call failed, with the host's message.
    ByondError(ByondApiError),
    /// The value is not a list.
    NotAList,
    /// The value holds no reference.
    NotReferenceable,
}

pub type ByondResult<T> = Result<T, ByondError>;

impl ByondError {
    /// The error of a failed host call, given the host's last error message
    /// if it had one.
    pub fn get_last_byond_error(last: Option<Vec<u8>>) -> (r: ByondError)
        ensures
            match last {
                Some(m) => r matches ByondError::ByondError(e) && e.0@ == m@,
                None => r is UnknownByondError,
            },
    {
        match last {
            Some(message) => ByondError::ByondError(ByondApiError(message)),
            None => ByondError::UnknownByondError,
        }
    }
}

/// The result of a host call that reports success as a flag: `Ok` when it
/// succeeded, else the error that the host's last message gives.
pub fn map_byond_error(succeeded: bool, last: Option<Vec<u8>>) -> (r: ByondResult<()>)
    ensures
        succeeded <==> r is Ok,
        !succeeded ==> match last {
            Some(m) => r matches Err(ByondError::ByondError(e)) && e.0@ == m@,
            None => r matches Err(ByondError::UnknownByondError),
        },
{
    if succeeded {
        Ok(())
    } else {
        Err(ByondError::get_last_byond_error(last))
    }
}

} // verus!
