//! The process launcher's plan, and the commands that reveal or open a file,
//! for each target platform.
use vstd::prelude::*;
use crate::paths::{clean_path, clean_spec, join, join_spec};
pub use crate::paths::Platform;
use crate::resolve::Candidate;

verus! {

/// The creation flag that keeps a background process from opening a
/// console window.
pub const CREATE_NO_WINDOW: u32 = 0x0800_0000;

/// The creation flags for a background process on `p`.
pub open spec fn creation_flags_spec(p: Platform) -> u32 {
    if p == Platform::Windows {
        CREATE_NO_WINDOW
    } else {
        0
    }
}

/// Whether `p` offers a kill-on-close process group to bind the child to.
pub open spec fn binding_supported_spec(p: Platform) -> bool {
    p == Platform::Windows
}

/// Whether the child can be bound to the host's lifetime on `p`.
pub fn binding_supported(p: Platform) -> (r: bool)
    ensures
        r == binding_supported_spec(p),
{
    match p {
        Platform::Windows => true,
        _ => false,
    }
}

/// The name of the file that receives the child's output.
pub open spec fn log_file_name() -> Seq<char> {
    "server_stdout.log"@
}

/// The path of the log file inside `log_dir` on `p`.
pub fn log_file_path(log_dir: &str, p: Platform) -> (r: String)
    ensures
        r@ == join_spec(log_dir@, log_file_name(), p),
{
    join(log_dir, "server_stdout.log", p)
}

/// Everything needed to start the server process.
#[derive(Clone, Debug)]
pub struct SpawnRequest {
    /// The runtime binary.
    pub program: String,
    /// Its arguments: the entry script.
    pub args: Vec<String>,
    /// The working directory of the child.
    pub current_dir: String,
    /// The file that receives both stdout and stderr, if one could be opened;
    /// without it the output is discarded.
    pub log_file: Option<String>,
    /// Platform creation flags.
    pub creation_flags: u32,
}

/// The spawn plan for candidate `c`: every path in plain form, the entry
/// script as the only argument, output to `log_file` when there is one.
pub fn spawn_request(c: &Candidate, log_file: Option<String>, platform: Platform) -> (r:
    SpawnRequest)
    ensures
        r.program@ == clean_spec(c.runtime@),
        r.args@.len() == 1,
        r.args@[0]@ == clean_spec(c.script@),
        r.current_dir@ == clean_spec(c.working_dir@),
        r.log_file == log_file,
        r.creation_flags == creation_flags_spec(platform),
{
    let program = clean_path(c.runtime.as_str());
    let script = clean_path(c.script.as_str());
    let current_dir = clean_path(c.working_dir.as_str());
    let mut args: Vec<String> = Vec::new();
    args.push(script);
    let creation_flags: u32 = match platform {
        Platform::Windows => CREATE_NO_WINDOW,
        _ => 0,
    };
    SpawnRequest { program, args, current_dir, log_file, creation_flags }
}

/// A program and its arguments.
#[derive(Clone, Debug)]
pub struct CommandLine {
    pub program: String,
    pub args: Vec<String>,
}

/// Whether `c` runs `program` with exactly the arguments `args`.
pub open spec fn runs(c: CommandLine, program: Seq<char>, args: Seq<Seq<char>>) -> bool {
    &&& c.program@ == program
    &&& c.args@.len() == args.len()
    &&& forall|i: int| 0 <= i < args.len() ==> #[trigger] c.args@[i]@ == args[i]
}

/// The command that shows `path` in the platform's file manager. Where the
/// file manager cannot select a file, it opens `containing_dir`: `path`
/// itself when it is a directory, else its parent.
pub open spec fn reveal_spec(p: Platform, path: Seq<char>, containing_dir: Seq<char>) -> (Seq<
    char>, Seq<Seq<char>>) {
    match p {
        Platform::Windows => ("explorer"@, seq!["/select,"@ + path]),
        Platform::MacOs => ("open"@, seq!["-R"@, path]),
        Platform::Other => ("xdg-open"@, seq![containing_dir]),
    }
}

/// The command that opens `path` with the platform's default handler.
pub open spec fn open_spec(p: Platform, path: Seq<char>) -> (Seq<char>, Seq<Seq<char>>) {
    match p {
        Platform::Windows => ("cmd"@, seq!["/c"@, "start"@, ""@, path]),
        Platform::MacOs => ("open"@, seq![path]),
        Platform::Other => ("xdg-open"@, seq![path]),
    }
}

/// Builds the command that shows `path` in a file manager.
pub fn reveal_command(p: Platform, path: &str, containing_dir: &str) -> (r: CommandLine)
    ensures
        runs(r, reveal_spec(p, path@, containing_dir@).0, reveal_spec(p, path@, containing_dir@).1),
{
    let mut args: Vec<String> = Vec::new();
    match p {
        Platform::Windows => {
            args.push(String::from_str("/select,").concat(path));
            let r = CommandLine { program: String::from_str("explorer"), args };
            assert(r.args@[0]@ == "/select,"@ + path@);
            r
        },
        Platform::MacOs => {
            args.push(String::from_str("-R"));
            args.push(String::from_str(path));
            CommandLine { program: String::from_str("open"), args }
        },
        Platform::Other => {
            args.push(String::from_str(containing_dir));
            CommandLine { program: String::from_str("xdg-open"), args }
        },
    }
}

/// Builds the command that opens `path` with its default handler.
pub fn open_command(p: Platform, path: &str) -> (r: CommandLine)
    ensures
        runs(r, open_spec(p, path@).0, open_spec(p, path@).1),
{
    let mut args: Vec<String> = Vec::new();
    match p {
        Platform::Windows => {
            args.push(String::from_str("/c"));
            args.push(String::from_str("start"));
            args.push(String::from_str(""));
            args.push(String::from_str(path));
            CommandLine { program: String::from_str("cmd"), args }
        },
        Platform::MacOs => {
            args.push(String::from_str(path));
            CommandLine { program: String::from_str("open"), args }
        },
        Platform::Other => {
            args.push(String::from_str(path));
            CommandLine { program: String::from_str("xdg-open"), args }
        },
    }
}

} // verus!
