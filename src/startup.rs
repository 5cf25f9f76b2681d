use vstd::prelude::*;
use vstd::string::*;

verus! {

/// The exit code of a process that could not start.
pub const STARTUP_FAILURE_EXIT_CODE: i32 = 1;

/// What the process prints to standard error, line by line, and the code it
/// exits with when the application cannot start.
pub struct StartupFailure {
    pub lines: Vec<String>,
    pub exit_code: i32,
}

/// The troubleshooting text for a start that failed with `error`; the last
/// line is added only when the process runs under WSL.
pub open spec fn startup_failure_text(error: Seq<char>, wsl_detected: bool) -> Seq<Seq<char>> {
    let common = seq![
        "Concord failed to start: "@ + error,
        ""@,
        "Troubleshooting:"@,
        "1) Start with `npm run tauri dev` from the repo root (not plain `cargo run`)."@,
        "2) Ensure the frontend dev server is reachable at http://localhost:5173."@,
        "3) If you're on Linux/WSL, ensure a GUI session is available before launching."@,
    ];
    if wsl_detected {
        common.push("4) WSL detected. If GUI apps fail, run `wsl --shutdown`, reopen WSL, then retry."@)
    } else {
        common
    }
}

/// `lines` holds exactly the characters of `text`, line for line.
pub open spec fn lines_hold(lines: Seq<String>, text: Seq<Seq<char>>) -> bool {
    &&& lines.len() == text.len()
    &&& forall|i: int| 0 <= i < text.len() ==> #[trigger] lines[i]@ == text[i]
}

/// The report for a start that failed with `error`. Whatever the error, the
/// process exits with [`STARTUP_FAILURE_EXIT_CODE`].
pub fn startup_failure(error: &str, wsl_detected: bool) -> (r: StartupFailure)
    ensures
        r.exit_code == STARTUP_FAILURE_EXIT_CODE,
        lines_hold(r.lines@, startup_failure_text(error@, wsl_detected)),
{
    let mut lines: Vec<String> = Vec::new();
    lines.push(String::from_str("Concord failed to start: ").concat(error));
    lines.push(String::from_str(""));
    lines.push(String::from_str("Troubleshooting:"));
    lines.push(String::from_str("1) Start with `npm run tauri dev` from the repo root (not plain `cargo run`)."));
    lines.push(String::from_str("2) Ensure the frontend dev server is reachable at http://localhost:5173."));
    lines.push(String::from_str("3) If you're on Linux/WSL, ensure a GUI session is available before launching."));
    if wsl_detected {
        lines.push(String::from_str("4) WSL detected. If GUI apps fail, run `wsl --shutdown`, reopen WSL, then retry."));
    }
    StartupFailure { lines, exit_code: STARTUP_FAILURE_EXIT_CODE }
}

} // verus!
