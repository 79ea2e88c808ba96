//! The choice between the local viewer and the SSH server, and how the program
//! ends.

use vstd::prelude::*;
use vstd::string::*;

verus! {

/// What the program runs as.
#[derive(Clone, Copy, Debug, PartialEq, Eq, Structural)]
pub enum Mode {
    /// The viewer on the local terminal.
    Interactive,
    /// The SSH server.
    Server,
}

/// How a failed SSH server is reported.
#[derive(Debug, PartialEq, Eq)]
pub struct ServerFailure {
    /// The line for the standard error output.
    pub report: String,
    /// The error that the program ends with.
    pub message: String,
}

/// Calls atty's `is` for `Stream::Stdout`: whether the standard output is a
/// terminal. The environment decides that, so nothing is claimed of the answer.
#[verifier::external_body]
pub fn is_interactive() -> (interactive: bool) {
    atty::is(atty::Stream::Stdout)
}

/// The mode for a standard output that is a terminal or is not.
pub open spec fn mode_for(interactive: bool) -> Mode {
    if interactive {
        Mode::Interactive
    } else {
        Mode::Server
    }
}

/// Chooses [`mode_for`] a standard output that is a terminal or is not.
pub fn select_mode(interactive: bool) -> (mode: Mode)
    ensures
        mode == mode_for(interactive),
{
    if interactive {
        Mode::Interactive
    } else {
        Mode::Server
    }
}

/// The mode for the standard output that the program has: the one for the answer
/// that [`is_interactive`] gave. It is up to the environment which one that is.
pub fn current_mode() -> (mode: Mode)
    ensures
        exists|interactive: bool|
            call_ensures(is_interactive, (), interactive) && mode == mode_for(interactive),
{
    select_mode(is_interactive())
}

/// How the program ends when the SSH server ended with `result`. A failure is
/// given by its text.
pub fn server_exit(result: Result<(), String>) -> (exit: Result<(), ServerFailure>)
    ensures
        result is Ok <==> exit is Ok,
        result matches Err(text) ==> {
            &&& exit is Err
            &&& exit->Err_0.report@ == "SSH server error: "@ + text@
            &&& exit->Err_0.message@ == "SSH server error"@
        },
{
    match result {
        Ok(()) => Ok(()),
        Err(text) => Err(
            ServerFailure {
                report: String::from_str("SSH server error: ").concat(text.as_str()),
                message: String::from_str("SSH server error"),
            },
        ),
    }
}

} // verus!
