//! External programs: what to run, what was seen when it ran, and whether
//! that counts as success.

use vstd::prelude::*;
use vstd::string::*;
use vstd::utf8::{decode_utf8, valid_utf8};

verus! {

/// A program and the arguments to run it with.
#[derive(Debug)]
pub struct Command {
    pub program: String,
    pub args: Vec<String>,
}

/// What a [`Command`] holds, as plain text.
pub struct CommandView {
    pub program: Seq<char>,
    pub args: Seq<Seq<char>>,
}

/// The texts that a list of strings holds.
pub open spec fn texts(strings: Seq<String>) -> Seq<Seq<char>> {
    strings.map_values(|s: String| s@)
}

impl View for Command {
    type V = CommandView;

    open spec fn view(&self) -> CommandView {
        CommandView { program: self.program@, args: texts(self.args@) }
    }
}

/// What the driver saw when it ran a command and waited for it.
#[derive(Debug)]
pub enum Observed {
    /// The program could not be started. `reason` is the operating system's
    /// description of the error.
    NotStarted { reason: String },
    /// The program ran and ended. `code` is its exit code where it has one
    /// (a program ended by a signal has none), `stderr` the bytes it wrote to
    /// standard error.
    Exited { code: Option<i32>, stderr: Vec<u8> },
}

/// What an [`Observed`] holds, as plain values.
pub enum ObservedView {
    NotStarted { reason: Seq<char> },
    Exited { code: Option<i32>, stderr: Seq<u8> },
}

impl View for Observed {
    type V = ObservedView;

    open spec fn view(&self) -> ObservedView {
        match self {
            Observed::NotStarted { reason } => ObservedView::NotStarted { reason: reason@ },
            Observed::Exited { code, stderr } => ObservedView::Exited {
                code: *code,
                stderr: stderr@,
            },
        }
    }
}

/// Why a command did not succeed.
#[derive(Debug)]
pub enum Failure {
    /// The program could not be started.
    NotStarted { reason: String },
    /// The program ended with an exit code other than zero, or with none.
    Failed { stderr: String },
}

/// What a [`Failure`] holds, as plain text.
pub enum FailureView {
    NotStarted { reason: Seq<char> },
    Failed { stderr: Seq<char> },
}

impl View for Failure {
    type V = FailureView;

    open spec fn view(&self) -> FailureView {
        match self {
            Failure::NotStarted { reason } => FailureView::NotStarted { reason: reason@ },
            Failure::Failed { stderr } => FailureView::Failed { stderr: stderr@ },
        }
    }
}

/// How a run ended: well, or with a failure.
pub enum Outcome {
    Succeeded,
    Failed(FailureView),
}

/// The outcome that a result stands for.
pub open spec fn outcome_of(result: Result<(), Failure>) -> Outcome {
    match result {
        Ok(_) => Outcome::Succeeded,
        Err(failure) => Outcome::Failed(failure@),
    }
}

/// The text that `String::from_utf8_lossy` makes of bytes: the text they
/// encode where they are UTF-8, and otherwise that text with a replacement
/// character wherever they are not.
pub uninterp spec fn lossy_text(bytes: Seq<u8>) -> Seq<char>;

/// The outcome of a program that ended with `code`, having written the text
/// `stderr` to standard error: it succeeded if and only if the exit code is
/// zero, and the failure carries the text.
pub open spec fn judged_exit(code: Option<i32>, stderr: Seq<char>) -> Outcome {
    if code == Some(0i32) {
        Outcome::Succeeded
    } else {
        Outcome::Failed(FailureView::Failed { stderr })
    }
}

/// The outcome of a run: it succeeded if and only if the program ended with
/// exit code zero. Otherwise the failure carries what the program wrote to
/// standard error, as text, or why it could not be started.
pub open spec fn judged(observed: ObservedView) -> Outcome {
    match observed {
        ObservedView::NotStarted { reason } => Outcome::Failed(FailureView::NotStarted { reason }),
        ObservedView::Exited { code, stderr } => judged_exit(code, lossy_text(stderr)),
    }
}

/// The text of a failure: the operating system's words where the program
/// could not be started, and a fixed opening followed by what the program
/// wrote to standard error where it ended badly.
pub open spec fn failure_text(failure: FailureView) -> Seq<char> {
    match failure {
        FailureView::NotStarted { reason } => reason,
        FailureView::Failed { stderr } => "Command failed with error: "@ + stderr,
    }
}

/// `String::from_utf8_lossy`, with the result as an owned string. It never
/// fails. For bytes that are UTF-8 the text is the one they encode.
#[verifier::external_body]
fn utf8_lossy(bytes: &[u8]) -> (text: String)
    ensures
        text@ == lossy_text(bytes@),
        valid_utf8(bytes@) ==> text@ == decode_utf8(bytes@),
{
    String::from_utf8_lossy(bytes).into_owned()
}

/// Decides how a program ended that exited with `code`, having written the
/// text `stderr` to standard error.
pub fn judge_exit(code: Option<i32>, stderr: String) -> (result: Result<(), Failure>)
    ensures
        outcome_of(result) == judged_exit(code, stderr@),
{
    match code {
        Some(0) => Ok(()),
        _ => Err(Failure::Failed { stderr }),
    }
}

/// Decides how a run ended. Where the program ended badly and what it wrote
/// to standard error is UTF-8, the failure carries exactly that text.
pub fn command_result(observed: Observed) -> (result: Result<(), Failure>)
    ensures
        outcome_of(result) == judged(observed@),
        observed@ matches ObservedView::Exited { code, stderr } ==> (code != Some(0i32)
            && valid_utf8(stderr) ==> outcome_of(result) == Outcome::Failed(
            FailureView::Failed { stderr: decode_utf8(stderr) },
        )),
{
    match observed {
        Observed::NotStarted { reason } => Err(Failure::NotStarted { reason }),
        Observed::Exited { code, stderr } => judge_exit(code, utf8_lossy(stderr.as_slice())),
    }
}

impl Failure {
    /// The text of this failure.
    pub fn message(&self) -> (text: String)
        ensures
            text@ == failure_text(self@),
    {
        match self {
            Failure::NotStarted { reason } => reason.clone(),
            Failure::Failed { stderr } => {
                let mut text = "Command failed with error: ".to_owned();
                text.append(stderr.as_str());
                text
            },
        }
    }
}

} // verus!
