use vstd::prelude::*;

verus! {

/// Every way a shim command can fail.
///
/// Each platform failure carries the message of the underlying call verbatim;
/// refusing to install when no update is pending carries no message of its
/// own. User cancellation of a picker dialog is not an error and has no
/// variant here.
#[derive(Clone, Debug)]
pub enum ShimError {
    /// An OS call (opening a link, showing a notification) failed.
    IoError(String),
    /// Fetching or reading the update manifest failed.
    UpdateCheckError(String),
    /// An install was requested while no update is pending.
    NoUpdateAvailable,
    /// Downloading or applying a pending update failed.
    InstallError(String),
    /// The persisted settings store could not be read or written.
    StoreError(String),
}

impl ShimError {
    /// The message surfaced verbatim to the caller for this error.
    pub open spec fn spec_message(self) -> Seq<char> {
        match self {
            ShimError::IoError(m) => m@,
            ShimError::UpdateCheckError(m) => m@,
            ShimError::NoUpdateAvailable => "No update available"@,
            ShimError::InstallError(m) => m@,
            ShimError::StoreError(m) => m@,
        }
    }

    /// Surface the error to the caller as a plain string.
    pub fn message(&self) -> (m: String)
        ensures
            m@ == self.spec_message(),
    {
        match self {
            ShimError::IoError(m) => m.clone(),
            ShimError::UpdateCheckError(m) => m.clone(),
            ShimError::NoUpdateAvailable => String::from_str("No update available"),
            ShimError::InstallError(m) => m.clone(),
            ShimError::StoreError(m) => m.clone(),
        }
    }
}

/// Translate the outcome of an OS call (opening a link, showing a
/// notification) into the command's response: a failure surfaces as an I/O
/// error carrying the failing call's message, verbatim.
pub fn os_call_response(outcome: Result<(), String>) -> (r: Result<(), ShimError>)
    ensures
        outcome matches Ok(u) ==> r == Ok::<(), ShimError>(u),
        outcome matches Err(m) ==> r == Err::<(), ShimError>(ShimError::IoError(m)),
{
    match outcome {
        Ok(u) => Ok(u),
        Err(m) => Err(ShimError::IoError(m)),
    }
}

/// Translate the outcome of opening or saving the persisted settings store
/// into the command's response: a failure surfaces as a store error carrying
/// the failing call's message, verbatim.
pub fn store_call_response(outcome: Result<(), String>) -> (r: Result<(), ShimError>)
    ensures
        outcome matches Ok(u) ==> r == Ok::<(), ShimError>(u),
        outcome matches Err(m) ==> r == Err::<(), ShimError>(ShimError::StoreError(m)),
{
    match outcome {
        Ok(u) => Ok(u),
        Err(m) => Err(ShimError::StoreError(m)),
    }
}

} // verus!
