use vstd::prelude::*;

verus! {

/// What an update check reports to the frontend.
///
/// A well-formed record carries a latest version exactly when an update is
/// available (see [`UpdateCheckResult::wf`]).
pub struct UpdateCheckResult {
    pub available: bool,
    pub current_version: String,
    pub latest_version: Option<String>,
}

impl UpdateCheckResult {
    /// The availability flag agrees with the presence of a latest version.
    pub open spec fn wf(&self) -> bool {
        self.available <==> self.latest_version is Some
    }

    /// Builds the record for a check that found `latest_version`, or found
    /// nothing newer when it is `None`.
    pub fn new(current_version: String, latest_version: Option<String>) -> (r: UpdateCheckResult)
        ensures
            r.wf(),
            r.available == latest_version is Some,
            r.current_version@ == current_version@,
            r.latest_version == latest_version,
    {
        let available = latest_version.is_some();
        UpdateCheckResult { available, current_version, latest_version }
    }
}

/// Turns the outcome of asking the updater into the reply of the update check.
///
/// `outcome` is `Err(message)` when the updater could not be set up or the
/// check itself failed, `Ok(None)` when no newer version exists, and
/// `Ok(Some(version))` when `version` is available. An error is passed on
/// verbatim; otherwise the record names the running version and the newer one.
pub fn check_result(current_version: String, outcome: Result<Option<String>, String>) -> (r: Result<UpdateCheckResult, String>)
    ensures
        match outcome {
            Err(e) => r == Err::<UpdateCheckResult, String>(e),
            Ok(latest) => r matches Ok(rec) && rec.wf()
                && rec.available == latest is Some
                && rec.current_version@ == current_version@
                && rec.latest_version == latest,
        },
{
    match outcome {
        Err(e) => Err(e),
        Ok(latest) => Ok(UpdateCheckResult::new(current_version, latest)),
    }
}

} // verus!
