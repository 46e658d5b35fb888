//! Applying a new address to a connection: four commands in a fixed order,
//! none of which stops the ones after it.

use crate::command::{
    failure_text, outcome_of, Command, CommandView, Failure, FailureView, Outcome,
};
use vstd::prelude::*;
use vstd::string::*;

verus! {

/// One command of the sequence.
#[derive(Clone, Copy, PartialEq, Eq, Structural, Debug)]
pub enum Step {
    /// Take the connection down.
    Deactivate,
    /// Set the connection's cloned address to the new one.
    SetOverride,
    /// Bring the connection up again.
    Reactivate,
    /// Reset the connection's cloned address to blank.
    ClearOverride,
}

/// The steps in the order in which they are taken.
pub open spec fn plan() -> Seq<Step> {
    seq![Step::Deactivate, Step::SetOverride, Step::Reactivate, Step::ClearOverride]
}

/// The place of a step in the plan.
pub open spec fn place(step: Step) -> int {
    match step {
        Step::Deactivate => 0,
        Step::SetOverride => 1,
        Step::Reactivate => 2,
        Step::ClearOverride => 3,
    }
}

/// The step after `step`, if there is one.
pub open spec fn following(step: Step) -> Option<Step> {
    if place(step) + 1 < plan().len() {
        Some(plan()[place(step) + 1])
    } else {
        None
    }
}

/// How many seconds to wait after a step, so that the network stack settles:
/// one after taking the connection down and one after bringing it up.
pub open spec fn settle_seconds(step: Step) -> u64 {
    match step {
        Step::Deactivate => 1,
        Step::Reactivate => 1,
        _ => 0,
    }
}

/// The arguments of the connection manager for a step.
pub open spec fn step_args(step: Step, connection: Seq<char>, address: Seq<char>) -> Seq<
    Seq<char>,
> {
    match step {
        Step::Deactivate => seq!["connection"@, "down"@, connection],
        Step::SetOverride => seq![
            "connection"@,
            "modify"@,
            connection,
            "802-11-wireless.cloned-mac-address"@,
            address,
        ],
        Step::Reactivate => seq!["connection"@, "up"@, connection],
        Step::ClearOverride => seq![
            "connection"@,
            "modify"@,
            connection,
            "802-11-wireless.cloned-mac-address"@,
            " "@,
        ],
    }
}

/// The command for a step.
pub open spec fn step_command_view(
    step: Step,
    connection: Seq<char>,
    address: Seq<char>,
) -> CommandView {
    CommandView { program: "nmcli"@, args: step_args(step, connection, address) }
}

/// The command that lists the network interfaces.
pub open spec fn listing_command_view() -> CommandView {
    CommandView { program: "ip"@, args: seq!["a"@] }
}

/// What a step does, in words.
pub open spec fn step_label(step: Step) -> Seq<char> {
    match step {
        Step::Deactivate => "Deactivating the connection"@,
        Step::SetOverride => "Setting the new address"@,
        Step::Reactivate => "Reactivating the connection"@,
        Step::ClearOverride => "Clearing the address override"@,
    }
}

/// The line that reports how a step ended.
pub open spec fn status_text(step: Step, outcome: Outcome) -> Seq<char> {
    match outcome {
        Outcome::Succeeded => step_label(step) + " succeeded"@,
        Outcome::Failed(failure) => step_label(step) + " failed: "@ + failure_text(failure),
    }
}

/// The line that warns that the interfaces could not be listed.
pub open spec fn listing_warning(failure: FailureView) -> Seq<char> {
    "Warning: Could not display network interfaces: "@ + failure_text(failure)
}

/// The first step.
pub fn first_step() -> (step: Step)
    ensures
        step == plan()[0],
{
    Step::Deactivate
}

/// The step after `step`, if there is one.
pub fn next_step(step: Step) -> (next: Option<Step>)
    ensures
        next == following(step),
{
    match step {
        Step::Deactivate => Some(Step::SetOverride),
        Step::SetOverride => Some(Step::Reactivate),
        Step::Reactivate => Some(Step::ClearOverride),
        Step::ClearOverride => None,
    }
}

/// How many seconds to wait after a step.
pub fn pause_after(step: Step) -> (seconds: u64)
    ensures
        seconds == settle_seconds(step),
{
    match step {
        Step::Deactivate => 1,
        Step::Reactivate => 1,
        _ => 0,
    }
}

/// The command that lists the network interfaces.
pub fn listing_command() -> (command: Command)
    ensures
        command@ == listing_command_view(),
{
    let mut args: Vec<String> = Vec::new();
    args.push("a".to_owned());
    let command = Command { program: "ip".to_owned(), args };
    assert(command@.args =~= seq!["a"@]);
    command
}

/// The command for a step on the connection `connection` with the new
/// address `address`.
pub fn step_command(step: Step, connection: &str, address: &str) -> (command: Command)
    ensures
        command@ == step_command_view(step, connection@, address@),
{
    let mut args: Vec<String> = Vec::new();
    args.push("connection".to_owned());
    match step {
        Step::Deactivate => {
            args.push("down".to_owned());
            args.push(connection.to_owned());
        },
        Step::SetOverride => {
            args.push("modify".to_owned());
            args.push(connection.to_owned());
            args.push("802-11-wireless.cloned-mac-address".to_owned());
            args.push(address.to_owned());
        },
        Step::Reactivate => {
            args.push("up".to_owned());
            args.push(connection.to_owned());
        },
        Step::ClearOverride => {
            args.push("modify".to_owned());
            args.push(connection.to_owned());
            args.push("802-11-wireless.cloned-mac-address".to_owned());
            args.push(" ".to_owned());
        },
    }
    let command = Command { program: "nmcli".to_owned(), args };
    assert(command@.args =~= step_args(step, connection@, address@));
    command
}

/// The words for a step.
fn label(step: Step) -> (text: &'static str)
    ensures
        text@ == step_label(step),
{
    match step {
        Step::Deactivate => "Deactivating the connection",
        Step::SetOverride => "Setting the new address",
        Step::Reactivate => "Reactivating the connection",
        Step::ClearOverride => "Clearing the address override",
    }
}

/// The line that reports how a step ended.
pub fn status_line(step: Step, result: &Result<(), Failure>) -> (line: String)
    ensures
        line@ == status_text(step, outcome_of(*result)),
{
    let mut line = label(step).to_owned();
    match result {
        Ok(_) => {
            line.append(" succeeded");
        },
        Err(failure) => {
            line.append(" failed: ");
            let message = failure.message();
            line.append(message.as_str());
        },
    }
    line
}

/// The line that warns that the interfaces could not be listed.
pub fn listing_warning_line(failure: &Failure) -> (line: String)
    ensures
        line@ == listing_warning(failure@),
{
    let mut line = "Warning: Could not display network interfaces: ".to_owned();
    let message = failure.message();
    line.append(message.as_str());
    line
}

} // verus!
