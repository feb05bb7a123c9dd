use vstd::prelude::*;

use crate::error::ShimError;

verus! {

/// The result of an update check, as reported to the UI.
#[derive(Clone, Debug, PartialEq, Eq)]
pub struct UpdateInfo {
    pub update_available: bool,
    pub version: Option<String>,
}

/// What a query of the update service reported.
///
/// The surrounding application performs the network query and hands the shim
/// one of these; the shim decides everything that follows.
#[derive(Clone, Debug)]
pub enum UpdateCheckOutcome {
    /// An update to the given version is pending.
    Found(String),
    /// No update is pending.
    UpToDate,
    /// The update manifest could not be fetched or read; the message of the
    /// failing call.
    Failed(String),
}

/// The next step of an install command once the update service was queried.
#[derive(Clone, Debug)]
pub enum InstallAction {
    /// Download and apply the pending update.
    Download,
    /// Refuse with the given error; nothing is downloaded.
    Refuse(ShimError),
}

/// The response a check-update command gives for each outcome of the query:
/// a pending update is reported available under its version, none pending is
/// reported unavailable with no version, and a failed query is an
/// update-check error carrying the query's message.
pub open spec fn spec_check_update(outcome: UpdateCheckOutcome) -> Result<UpdateInfo, ShimError> {
    match outcome {
        UpdateCheckOutcome::Found(v) => Ok(UpdateInfo { update_available: true, version: Some(v) }),
        UpdateCheckOutcome::UpToDate => Ok(
            UpdateInfo { update_available: false, version: None },
        ),
        UpdateCheckOutcome::Failed(m) => Err(ShimError::UpdateCheckError(m)),
    }
}

/// Translate the outcome of an update query into the check-update response.
pub fn check_update(outcome: UpdateCheckOutcome) -> (r: Result<UpdateInfo, ShimError>)
    ensures
        r == spec_check_update(outcome),
{
    match outcome {
        UpdateCheckOutcome::Found(v) => Ok(UpdateInfo { update_available: true, version: Some(v) }),
        UpdateCheckOutcome::UpToDate => Ok(UpdateInfo { update_available: false, version: None }),
        UpdateCheckOutcome::Failed(m) => Err(ShimError::UpdateCheckError(m)),
    }
}

/// The step an install command takes for each outcome of the query: download
/// only a pending update; with none pending refuse with the no-update error,
/// and after a failed query refuse with the query's error.
pub open spec fn spec_install_decision(outcome: UpdateCheckOutcome) -> InstallAction {
    match outcome {
        UpdateCheckOutcome::Found(_) => InstallAction::Download,
        UpdateCheckOutcome::UpToDate => InstallAction::Refuse(ShimError::NoUpdateAvailable),
        UpdateCheckOutcome::Failed(m) => InstallAction::Refuse(ShimError::UpdateCheckError(m)),
    }
}

/// Decide what an install command does after the update service was queried.
pub fn install_decision(outcome: UpdateCheckOutcome) -> (a: InstallAction)
    ensures
        a == spec_install_decision(outcome),
{
    match outcome {
        UpdateCheckOutcome::Found(_) => InstallAction::Download,
        UpdateCheckOutcome::UpToDate => InstallAction::Refuse(ShimError::NoUpdateAvailable),
        UpdateCheckOutcome::Failed(m) => InstallAction::Refuse(ShimError::UpdateCheckError(m)),
    }
}

/// Translate the outcome of downloading and applying an update into the
/// install-update response: a failure surfaces as an install error carrying
/// the failing call's message.
pub fn install_response(applied: Result<(), String>) -> (r: Result<(), ShimError>)
    ensures
        applied matches Ok(u) ==> r == Ok::<(), ShimError>(u),
        applied matches Err(m) ==> r == Err::<(), ShimError>(ShimError::InstallError(m)),
{
    match applied {
        Ok(u) => Ok(u),
        Err(m) => Err(ShimError::InstallError(m)),
    }
}

/// An install is never attempted when the check reports no update available:
/// whenever a query outcome makes check-update report `update_available`
/// false, the install decision for that same outcome is to refuse with the
/// no-update error, not to download.
pub proof fn lemma_no_update_never_downloads(outcome: UpdateCheckOutcome, info: UpdateInfo)
    requires
        spec_check_update(outcome) == Ok::<UpdateInfo, ShimError>(info),
        !info.update_available,
    ensures
        spec_install_decision(outcome) == InstallAction::Refuse(ShimError::NoUpdateAvailable),
        !(spec_install_decision(outcome) is Download),
{
}

} // verus!
