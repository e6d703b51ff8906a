//! Status codes understood by the host, and the errors they stand for.

use vstd::prelude::*;

verus! {

/// Errors understood by the host. Each is bound to a fixed positive status
/// code; the code `0` means success.
#[derive(Debug, Copy, Clone, PartialEq, Eq, Structural)]
pub enum PluginError {
    Unknown,
    OutOfMemory,
    NotImplemented,
    InvalidArguments,
    InvalidPassword,
}

/// What a raw status code means: `Some(Ok(()))` for success, `Some(Err(_))`
/// for a known error, `None` for a code the host is not known to send.
pub open spec fn decode(code: u32) -> Option<Result<(), PluginError>> {
    if code == 0 {
        Some(Ok(()))
    } else if code == 1 {
        Some(Err(PluginError::Unknown))
    } else if code == 2 {
        Some(Err(PluginError::OutOfMemory))
    } else if code == 3 {
        Some(Err(PluginError::NotImplemented))
    } else if code == 4 {
        Some(Err(PluginError::InvalidArguments))
    } else if code == 5 {
        Some(Err(PluginError::InvalidPassword))
    } else {
        None
    }
}

/// The status code that reports `result` to the host.
pub open spec fn encode(result: Result<(), PluginError>) -> u32 {
    match result {
        Ok(()) => 0,
        Err(e) => e.spec_code(),
    }
}

/// What the host is told when a plugin call ended with `outcome`, where
/// `None` stands for a call that terminated abnormally.
pub open spec fn isolated(outcome: Option<Result<(), PluginError>>) -> Result<(), PluginError> {
    match outcome {
        Some(r) => r,
        None => Err(PluginError::Unknown),
    }
}

impl PluginError {
    /// The fixed status code of this error.
    pub open spec fn spec_code(self) -> u32 {
        match self {
            PluginError::Unknown => 1,
            PluginError::OutOfMemory => 2,
            PluginError::NotImplemented => 3,
            PluginError::InvalidArguments => 4,
            PluginError::InvalidPassword => 5,
        }
    }

    /// Converts a raw status code to a `PluginError`.
    ///
    /// If `error` indicates success, returns `Some(Ok(()))`; if it is a known
    /// error code, returns `Some(Err(<code>))`; otherwise returns `None`.
    pub fn from_raw(error: u32) -> (r: Option<Result<(), PluginError>>)
        ensures
            r == decode(error),
            r.is_some() <==> error <= 5,
    {
        match error {
            0 => Some(Ok(())),
            1 => Some(Err(PluginError::Unknown)),
            2 => Some(Err(PluginError::OutOfMemory)),
            3 => Some(Err(PluginError::NotImplemented)),
            4 => Some(Err(PluginError::InvalidArguments)),
            5 => Some(Err(PluginError::InvalidPassword)),
            _ => None,
        }
    }

    /// Returns the fixed status code of this error.
    #[verifier::when_used_as_spec(spec_code)]
    pub fn code(self) -> (c: u32)
        ensures
            c == self.spec_code(),
            1 <= c <= 5,
    {
        match self {
            PluginError::Unknown => 1,
            PluginError::OutOfMemory => 2,
            PluginError::NotImplemented => 3,
            PluginError::InvalidArguments => 4,
            PluginError::InvalidPassword => 5,
        }
    }
}

/// Converts the result of a callback to the status code handed to the host.
pub fn to_zathura(result: Result<(), PluginError>) -> (code: u32)
    ensures
        code == encode(result),
        code <= 5,
        code == 0 <==> result.is_ok(),
{
    match result {
        Ok(()) => 0,
        Err(e) => e.code(),
    }
}

/// Settles the outcome of a plugin call made inside a failure-isolating
/// boundary: a call that returned keeps its result, a call that terminated
/// abnormally (`None`) becomes `Unknown`.
pub fn wrap(outcome: Option<Result<(), PluginError>>) -> (r: Result<(), PluginError>)
    ensures
        r == isolated(outcome),
{
    match outcome {
        Some(r) => r,
        None => Err(PluginError::Unknown),
    }
}

/// Decoding undoes encoding: every result that can be reported to the host
/// is read back from its status code unchanged.
pub proof fn lemma_decode_encode(result: Result<(), PluginError>)
    ensures
        decode(encode(result)) == Some(result),
{
    match result {
        Ok(u) => {
            assert(u == ());
        },
        Err(_) => {},
    }
}

/// Encoding undoes decoding on the recognized codes `0..=5`, and every other
/// code is unrecognized.
pub proof fn lemma_encode_decode(code: u32)
    ensures
        code <= 5 ==> decode(code).is_some() && encode(decode(code).unwrap()) == code,
        code > 5 ==> decode(code).is_none(),
{
}

/// An abnormal termination is always reported as `Unknown`, and a call that
/// returned is reported with its own status code.
pub proof fn lemma_isolation(outcome: Option<Result<(), PluginError>>)
    ensures
        outcome.is_none() ==> encode(isolated(outcome)) == PluginError::Unknown.spec_code(),
        outcome.is_some() ==> encode(isolated(outcome)) == encode(outcome.unwrap()),
        encode(isolated(outcome)) <= 5,
{
}

} // verus!
