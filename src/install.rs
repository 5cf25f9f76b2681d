use vstd::prelude::*;
use vstd::string::*;

verus! {

/// What the host does next while installing an update.
pub enum InstallStep {
    /// Download, verify and apply the update that the check found.
    DownloadAndInstall,
    /// The update is in place: restart the application.
    Restart,
    /// Stop and report this message to the frontend.
    Fail(String),
}

/// The message returned when an installation is asked for but the check finds
/// no newer version.
pub open spec fn no_update_message() -> Seq<char> {
    "No update is currently available."@
}

/// The step that follows the update check made at the start of an
/// installation.
///
/// A failed check is reported verbatim, a check that finds nothing newer fails
/// with [`no_update_message`], and a check that finds an update leads to
/// downloading and installing it.
pub fn step_after_check(outcome: Result<Option<String>, String>) -> (r: InstallStep)
    ensures
        match outcome {
            Err(e) => r == InstallStep::Fail(e),
            Ok(None) => r matches InstallStep::Fail(m) && m@ == no_update_message(),
            Ok(Some(_)) => r == InstallStep::DownloadAndInstall,
        },
{
    match outcome {
        Err(e) => InstallStep::Fail(e),
        Ok(None) => {
            let m = String::from_str("No update is currently available.");
            InstallStep::Fail(m)
        },
        Ok(Some(_)) => InstallStep::DownloadAndInstall,
    }
}

/// The step that follows downloading and installing: a failure is reported
/// verbatim, a success restarts the application.
pub fn step_after_install(outcome: Result<(), String>) -> (r: InstallStep)
    ensures
        match outcome {
            Err(e) => r == InstallStep::Fail(e),
            Ok(_) => r == InstallStep::Restart,
        },
{
    match outcome {
        Err(e) => InstallStep::Fail(e),
        Ok(_) => InstallStep::Restart,
    }
}

} // verus!
