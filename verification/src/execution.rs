//! The session directory, the build-and-run pipeline and the shell
//! emulator. The functions here decide; the embedding application writes
//! the files and launches the programs they name, and reports back.

use vstd::prelude::*;
use vstd::string::*;
use crate::invocation::{literal, local, Invocation, InvocationView, Launch, Piece};
use crate::text::{
    chars_of, is_space, optional_text, text_result, trim_back, trim_bounds, trim_front, trimmed,
};
use crate::toolchain::{language_of, resolve, Language, Toolchain};

verus! {

/// The session: the directory that executions and shell commands work in.
pub struct AppState {
    pub cwd: String,
}

impl AppState {
    /// A session that works in `cwd`.
    pub fn new(cwd: String) -> (r: AppState)
        ensures
            r.cwd@ == cwd@,
    {
        AppState { cwd }
    }

    /// The session directory.
    pub fn get(&self) -> (r: String)
        ensures
            r@ == self.cwd@,
    {
        self.cwd.clone()
    }
}

/// What is shown for the two output streams of a program: the first alone
/// where the second is empty, else both with a line break between them.
pub open spec fn combined(stdout: Seq<char>, stderr: Seq<char>) -> Seq<char> {
    if stderr.len() > 0 {
        stdout + "\n"@ + stderr
    } else {
        stdout
    }
}

/// Merges the two output streams of a program into the text that is shown.
pub fn combine_output(stdout: &str, stderr: &str) -> (r: String)
    ensures
        r@ == combined(stdout@, stderr@),
{
    if stderr.unicode_len() > 0 {
        String::from_str(stdout).concat("\n").concat(stderr)
    } else {
        String::from_str(stdout)
    }
}

/// Chooses the toolchain for a request to execute source text in `language`.
/// An unknown language is refused with a message that names it.
pub fn plan_execution(language: &str, windows: bool) -> (r: Result<Toolchain, String>)
    ensures
        match language_of(language@) {
            Some(lang) => r is Ok && r->Ok_0.describes(lang, windows),
            None => r is Err && r->Err_0@ == "Unsupported language for execution: "@ + language@,
        },
{
    match resolve(language) {
        Some(lang) => Ok(Toolchain::of(lang, windows)),
        None => Err(String::from_str("Unsupported language for execution: ").concat(language)),
    }
}

/// What follows a compiler call.
pub enum CompileVerdict {
    /// The compiler could not be launched: the execution fails with this text.
    Abort(String),
    /// The compiler rejected the source: its diagnostics are the result, and
    /// nothing is run.
    Diagnostics(String),
    /// The executable was produced and is to be run.
    Proceed,
}

/// Decides what follows a compiler call from what the compiler reported.
pub fn after_compile(report: Launch) -> (r: CompileVerdict)
    ensures
        match report {
            Launch::Failed(e) => r is Abort && r->Abort_0@ == "Failed to run compiler: "@ + e@,
            Launch::Finished { success, stdout, stderr } => if success {
                r is Proceed
            } else {
                r is Diagnostics && r->Diagnostics_0@ == stderr@
            },
        },
{
    match report {
        Launch::Failed(e) => CompileVerdict::Abort(
            String::from_str("Failed to run compiler: ").concat(e.as_str()),
        ),
        Launch::Finished { success, stdout, stderr } => {
            if success {
                CompileVerdict::Proceed
            } else {
                CompileVerdict::Diagnostics(stderr)
            }
        },
    }
}

/// The message for a program that could not be launched at the run step.
pub open spec fn launch_failure(compiled: bool, e: Seq<char>) -> Seq<char> {
    if compiled {
        "Failed to run executable: "@ + e
    } else {
        "Failed to execute command: "@ + e
    }
}

/// The result of an execution from what the run step reported. A program
/// that ran gives its merged output, whatever its exit status; one that
/// could not be launched fails the execution.
pub fn after_run(compiled: bool, report: Launch) -> (r: Result<String, String>)
    ensures
        match report {
            Launch::Failed(e) => r is Err && r->Err_0@ == launch_failure(compiled, e@),
            Launch::Finished { success, stdout, stderr } => r is Ok && r->Ok_0@ == combined(
                stdout@,
                stderr@,
            ),
        },
{
    match report {
        Launch::Failed(e) => {
            let head = if compiled {
                "Failed to run executable: "
            } else {
                "Failed to execute command: "
            };
            Err(String::from_str(head).concat(e.as_str()))
        },
        Launch::Finished { success, stdout, stderr } => Ok(
            combine_output(stdout.as_str(), stderr.as_str()),
        ),
    }
}

/// A step of an execution, in the order in which the steps are taken.
#[derive(Clone, Copy, Debug, PartialEq, Eq, Structural)]
pub enum Stage {
    /// The source text is written to the toolchain's source file.
    Write,
    /// The toolchain's compile call is launched.
    Compile,
    /// The toolchain's run call is launched.
    Run,
}

/// What follows a step of an execution.
pub enum Next {
    /// The execution goes on with this step.
    Do(Stage),
    /// The execution is over, with this result.
    Finish(Result<String, String>),
}

/// The mathematical content of a [`Next`].
pub enum NextView {
    Do(Stage),
    Finish(Result<Seq<char>, Seq<char>>),
}

impl View for Next {
    type V = NextView;

    open spec fn view(&self) -> NextView {
        match self {
            Next::Do(stage) => NextView::Do(*stage),
            Next::Finish(Ok(text)) => NextView::Finish(Ok(text@)),
            Next::Finish(Err(e)) => NextView::Finish(Err(e@)),
        }
    }
}

/// What follows the step `stage` of an execution, given what the step
/// reported. A source file that cannot be written ends the execution with
/// the system's message. A compiler that rejects the source ends it with
/// the diagnostics as its result, and nothing is run. A program that cannot
/// be launched ends it with a failure. The run step always ends it.
pub open spec fn next_step(compiled: bool, stage: Stage, report: Launch) -> NextView {
    match stage {
        Stage::Write => match report {
            Launch::Failed(e) => NextView::Finish(Err(e@)),
            Launch::Finished { success, stdout, stderr } => NextView::Do(
                if compiled {
                    Stage::Compile
                } else {
                    Stage::Run
                },
            ),
        },
        Stage::Compile => match report {
            Launch::Failed(e) => NextView::Finish(Err("Failed to run compiler: "@ + e@)),
            Launch::Finished { success, stdout, stderr } => if success {
                NextView::Do(Stage::Run)
            } else {
                NextView::Finish(Ok(stderr@))
            },
        },
        Stage::Run => match report {
            Launch::Failed(e) => NextView::Finish(Err(launch_failure(compiled, e@))),
            Launch::Finished { success, stdout, stderr } => NextView::Finish(
                Ok(combined(stdout@, stderr@)),
            ),
        },
    }
}

/// Decides what follows a step of an execution. `compiled` says whether
/// the toolchain has a compile step. For the write step, `report` is
/// `Failed` with the system's message where the file could not be written,
/// and `Finished` otherwise.
pub fn advance(compiled: bool, stage: Stage, report: Launch) -> (r: Next)
    ensures
        r@ == next_step(compiled, stage, report),
{
    match stage {
        Stage::Write => match report {
            Launch::Failed(e) => Next::Finish(Err(e)),
            Launch::Finished { success, stdout, stderr } => Next::Do(
                if compiled {
                    Stage::Compile
                } else {
                    Stage::Run
                },
            ),
        },
        Stage::Compile => match after_compile(report) {
            CompileVerdict::Abort(e) => Next::Finish(Err(e)),
            CompileVerdict::Diagnostics(text) => Next::Finish(Ok(text)),
            CompileVerdict::Proceed => Next::Do(Stage::Run),
        },
        Stage::Run => Next::Finish(after_run(compiled, report)),
    }
}

/// The place of a step in an execution.
pub open spec fn rank(stage: Stage) -> int {
    match stage {
        Stage::Write => 0,
        Stage::Compile => 1,
        Stage::Run => 2,
    }
}

/// An execution only moves forward: the step that follows a step comes
/// later in the order, so that no execution takes more than three steps;
/// and an interpreted language is never compiled.
pub proof fn lemma_execution_moves_forward(compiled: bool, stage: Stage, report: Launch)
    ensures
        match next_step(compiled, stage, report) {
            NextView::Do(next) => rank(stage) < rank(next) && (next is Compile ==> compiled),
            NextView::Finish(_) => true,
        },
{
}

/// Whether a trimmed command changes the directory: `cd` alone, or `cd`
/// and a single space before anything else.
pub open spec fn is_cd(t: Seq<char>) -> bool {
    t.len() >= 2 && t[0] == 'c' && t[1] == 'd' && (t.len() == 2 || t[2] == ' ')
}

/// The home directory as text, or `.` where there is none.
pub open spec fn home_or_dot(home: Option<Seq<char>>) -> Seq<char> {
    match home {
        Some(h) => h,
        None => "."@,
    }
}

/// The directory that a trimmed `cd` command names, as the user is shown it.
pub open spec fn cd_shown(t: Seq<char>, home: Option<Seq<char>>) -> Seq<char> {
    if t.len() == 2 {
        home_or_dot(home)
    } else {
        trimmed(t.subrange(3, t.len() as int))
    }
}

/// The path that a `cd` command asks for: the home directory for `~`, else
/// the named directory taken against the session directory.
pub open spec fn cd_target(shown: Seq<char>, home: Option<Seq<char>>) -> (bool, Seq<char>) {
    if shown == seq!['~'] {
        literal(home_or_dot(home))
    } else {
        local(shown)
    }
}

/// The call that hands `command` to the platform's shell.
pub open spec fn shell_call(command: Seq<char>, windows: bool) -> InvocationView {
    if windows {
        InvocationView {
            program: literal("powershell"@),
            args: seq![literal("-NoProfile"@), literal("-Command"@), literal(command)],
        }
    } else {
        InvocationView { program: literal("sh"@), args: seq![literal("-c"@), literal(command)] }
    }
}

/// What the shell emulator is to do with a command.
pub enum ShellRequest {
    /// Resolve `target` to a canonical path and make it the session
    /// directory; `shown` is the directory as the user named it.
    ChangeDirectory { shown: String, target: Piece },
    /// Run the call in the session directory.
    Delegate(Invocation),
}

/// The mathematical content of a [`ShellRequest`].
pub enum ShellRequestView {
    ChangeDirectory { shown: Seq<char>, target: (bool, Seq<char>) },
    Delegate(InvocationView),
}

impl View for ShellRequest {
    type V = ShellRequestView;

    open spec fn view(&self) -> ShellRequestView {
        match self {
            ShellRequest::ChangeDirectory { shown, target } => ShellRequestView::ChangeDirectory {
                shown: shown@,
                target: target@,
            },
            ShellRequest::Delegate(call) => ShellRequestView::Delegate(call@),
        }
    }
}

/// What a command asks of the shell emulator, given the home directory.
pub open spec fn request_of(
    command: Seq<char>,
    home: Option<Seq<char>>,
    windows: bool,
) -> ShellRequestView {
    let t = trimmed(command);
    if is_cd(t) {
        let shown = cd_shown(t, home);
        ShellRequestView::ChangeDirectory { shown, target: cd_target(shown, home) }
    } else {
        ShellRequestView::Delegate(shell_call(command, windows))
    }
}

fn is_tilde(s: &str) -> (r: bool)
    ensures
        r == (s@ == seq!['~']),
{
    if s.unicode_len() == 1 {
        let c = s.get_char(0);
        proof {
            if c == '~' {
                assert(s@ =~= seq!['~']);
            } else {
                assert(seq!['~'][0] == '~');
            }
        }
        c == '~'
    } else {
        proof {
            assert(seq!['~'].len() == 1);
        }
        false
    }
}

/// Reads a command: a directory change is taken apart, anything else is
/// handed to the platform's shell as it was typed.
pub fn interpret_command(command: &str, home: Option<String>, windows: bool) -> (r: ShellRequest)
    ensures
        r@ == request_of(command@, optional_text(home), windows),
{
    let v = chars_of(command);
    let (a, b) = trim_bounds(&v, 0, v.len());
    proof {
        assert(v@.subrange(0, v@.len() as int) =~= v@);
    }
    let ghost t = v@.subrange(a as int, b as int);
    if b - a >= 2 && v[a] == 'c' && v[a + 1] == 'd' && (b - a == 2 || v[a + 2] == ' ') {
        let home_text = match &home {
            Some(h) => h.clone(),
            None => String::from_str("."),
        };
        let shown = if b - a == 2 {
            home_text.clone()
        } else {
            let (c, d) = trim_bounds(&v, a + 3, b);
            proof {
                assert(t.subrange(3, t.len() as int) =~= v@.subrange(a + 3, b as int));
            }
            String::from_str(command.substring_char(c, d))
        };
        let target = if is_tilde(shown.as_str()) {
            Piece::literal(home_text.as_str())
        } else {
            Piece::local(shown.as_str())
        };
        ShellRequest::ChangeDirectory { shown, target }
    } else {
        let mut args: Vec<Piece> = Vec::new();
        let program = if windows {
            args.push(Piece::literal("-NoProfile"));
            args.push(Piece::literal("-Command"));
            Piece::literal("powershell")
        } else {
            args.push(Piece::literal("-c"));
            Piece::literal("sh")
        };
        args.push(Piece::literal(command));
        let call = Invocation { program, args };
        proof {
            assert(call@.args =~= shell_call(command@, windows).args);
        }
        ShellRequest::Delegate(call)
    }
}

/// The user's home directory as text, as `dirs::home_dir` finds it; nothing
/// is claimed of the answer, which depends on the environment.
#[verifier::external_body]
fn home_directory() -> (r: Option<String>) {
    dirs::home_dir().map(|p| p.to_string_lossy().to_string())
}

/// Reads a command as [`interpret_command`] does, with the home directory
/// that the platform reports.
pub fn run_terminal_command(command: &str, windows: bool) -> (r: ShellRequest)
    ensures
        exists|home: Option<Seq<char>>| r@ == request_of(command@, home, windows),
        !is_cd(trimmed(command@)) ==> r@ == ShellRequestView::Delegate(
            shell_call(command@, windows),
        ),
{
    let home = home_directory();
    let ghost h = optional_text(home);
    let r = interpret_command(command, home, windows);
    proof {
        assert(r@ == request_of(command@, h, windows));
    }
    r
}

/// The line shown when a directory change fails.
pub open spec fn cd_diagnostic(shown: Seq<char>, error: Seq<char>) -> Seq<char> {
    "cd: "@ + shown + ": "@ + error
}

/// Why a directory change is refused, if it is: the path has no canonical
/// form, or what it names is no directory.
pub open spec fn cd_refusal(resolved: Result<Seq<char>, Seq<char>>, kind: PathKind) -> Option<
    Seq<char>,
> {
    match resolved {
        Err(e) => Some(e),
        Ok(_) => match kind {
            PathKind::Directory => None,
            PathKind::File => Some("Not a directory"@),
            PathKind::Missing => Some("No such file or directory"@),
        },
    }
}

/// Completes a directory change. `resolved` is the canonical form of the
/// requested path, or the reason why it has none, and `kind` says what that
/// canonical path names. The session moves only onto a directory, and
/// nothing is shown then. Otherwise the session stays where it was and a
/// diagnostic line, never empty, is shown.
pub fn finish_cd(
    state: &mut AppState,
    shown: &str,
    resolved: Result<String, String>,
    kind: PathKind,
) -> (out: String)
    ensures
        match cd_refusal(text_result(resolved), kind) {
            None => final(state).cwd@ == resolved->Ok_0@ && out@ == Seq::<char>::empty(),
            Some(e) => final(state).cwd@ == old(state).cwd@ && out@ == cd_diagnostic(shown@, e)
                && out@.len() > 0,
        },
{
    proof {
        reveal_strlit("cd: ");
    }
    let reason = match resolved {
        Ok(p) => match kind {
            PathKind::Directory => {
                state.cwd = p;
                return String::new();
            },
            PathKind::File => String::from_str("Not a directory"),
            PathKind::Missing => String::from_str("No such file or directory"),
        },
        Err(e) => e,
    };
    String::from_str("cd: ").concat(shown).concat(": ").concat(reason.as_str())
}

/// What a path names on disk.
#[derive(Clone, Copy, Debug, PartialEq, Eq, Structural)]
pub enum PathKind {
    Missing,
    File,
    Directory,
}

/// Moves the session to `path`, which the caller found to be of `kind`.
/// Only an existing directory is accepted; otherwise the session stays
/// where it was and the refusal names the path.
pub fn change_working_directory(state: &mut AppState, path: String, kind: PathKind) -> (r: Result<
    String,
    String,
>)
    ensures
        match kind {
            PathKind::Directory => final(state).cwd@ == path@ && r is Ok && r->Ok_0@
                == "CWD Updated"@,
            PathKind::Missing => final(state).cwd@ == old(state).cwd@ && r is Err && r->Err_0@
                == "Directory does not exist: "@ + path@,
            PathKind::File => final(state).cwd@ == old(state).cwd@ && r is Err && r->Err_0@
                == "Path is not a directory: "@ + path@,
        },
{
    match kind {
        PathKind::Missing => Err(
            String::from_str("Directory does not exist: ").concat(path.as_str()),
        ),
        PathKind::File => Err(String::from_str("Path is not a directory: ").concat(path.as_str())),
        PathKind::Directory => {
            state.cwd = path;
            Ok(String::from_str("CWD Updated"))
        },
    }
}

/// The name of the scratch workspace under the home directory.
pub fn scratch_workspace_name() -> (r: &'static str)
    ensures
        r@ == "PseudoIDE_Testing_Grounds"@,
{
    "PseudoIDE_Testing_Grounds"
}

/// Moves the session into the scratch workspace. `location` is its path,
/// absent where no home directory is known; `prepared` says whether the
/// directory exists now, or why it could not be created. The session moves
/// only where both are in order.
pub fn ensure_testing_grounds(
    state: &mut AppState,
    location: Option<String>,
    prepared: Result<(), String>,
) -> (r: Result<String, String>)
    ensures
        match (location, prepared) {
            (None, _) => final(state).cwd@ == old(state).cwd@ && r is Err && r->Err_0@
                == "Could not find home directory"@,
            (Some(p), Err(e)) => final(state).cwd@ == old(state).cwd@ && r is Err && r->Err_0@
                == e@,
            (Some(p), Ok(_)) => final(state).cwd@ == p@ && r is Ok && r->Ok_0@ == p@,
        },
{
    match location {
        None => Err(String::from_str("Could not find home directory")),
        Some(p) => match prepared {
            Err(e) => Err(e),
            Ok(_) => {
                state.cwd = p.clone();
                Ok(p)
            },
        },
    }
}

/// `cd ~` asks for the home directory itself, whatever the session
/// directory is: the target is not taken against it.
pub proof fn lemma_cd_tilde_is_home(command: Seq<char>, home: Option<Seq<char>>, windows: bool)
    requires
        trimmed(command) == seq!['c', 'd', ' ', '~'],
    ensures
        request_of(command, home, windows) == (ShellRequestView::ChangeDirectory {
            shown: seq!['~'],
            target: literal(home_or_dot(home)),
        }),
{
    let t = trimmed(command);
    let rest = t.subrange(3, t.len() as int);
    assert(rest =~= seq!['~']);
    assert(!is_space('~'));
    assert(trim_front(rest) == rest);
    assert(trim_back(rest) == rest);
}

} // verus!
