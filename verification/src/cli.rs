//! The command surface of the driver: three commands over a user-supplied
//! source file, each mapped to one embedded entry point.

use vstd::prelude::*;

verus! {

/// A parsed command line.
pub struct Cli {
    pub command: CliCmd,
}

/// The three commands of the driver.  The debug flag is accepted but not yet
/// wired to pipeline behaviour.
pub enum CliCmd {
    /// Runs the Main term of a source file.
    Run { file: String, debug: bool },
    /// Checks a source file.
    Check { file: String, debug: bool },
    /// Compiles a source file to the engine's intermediate form.
    Compile { file: String },
}

/// The name of the embedded entry point that a command invokes.
pub open spec fn entry_name_v(cmd: CliCmd) -> Seq<char> {
    match cmd {
        CliCmd::Run { .. } => "Kind2.Run"@,
        CliCmd::Check { .. } => "Kind2.Check"@,
        CliCmd::Compile { .. } => "Kind2.Compile"@,
    }
}

/// The embedded entry point that a command invokes.
pub fn entry_name(cmd: &CliCmd) -> (r: &'static str)
    ensures
        r@ == entry_name_v(*cmd),
{
    match cmd {
        CliCmd::Run { .. } => "Kind2.Run",
        CliCmd::Check { .. } => "Kind2.Check",
        CliCmd::Compile { .. } => "Kind2.Compile",
    }
}

} // verus!
