//! The Change Source's and the editor's plain decisions: what a finished
//! command's output means, and which editor to launch.

use vstd::prelude::*;

verus! {

/// The editor launched when the environment names none.
pub const DEFAULT_EDITOR: &'static str = "vi";

/// What a finished query of the version-control system yields: its standard
/// output when it succeeded, else its standard error text.
pub fn command_result(succeeded: bool, stdout: String, stderr: String) -> (r: Result<String, String>)
    ensures
        succeeded ==> r == Ok::<String, String>(stdout),
        !succeeded ==> r == Err::<String, String>(stderr),
{
    if succeeded {
        Ok(stdout)
    } else {
        Err(stderr)
    }
}

/// The report when the version-control system could not be started at all.
pub fn launch_failure(detail: &str) -> (r: String)
    ensures
        r@ == "Failed to run git: "@ + detail@,
{
    String::from_str("Failed to run git: ").concat(detail)
}

/// The editor to launch, given the editor variable's value if it is set: that
/// value whenever the variable is set, else the default editor.
pub fn editor_command(var: Option<String>) -> (r: String)
    ensures
        var is Some ==> r@ == var->0@,
        var is None ==> r@ == DEFAULT_EDITOR@,
{
    match var {
        Some(e) => e,
        None => String::from_str(DEFAULT_EDITOR),
    }
}

} // verus!
