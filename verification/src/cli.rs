//! The command that was given, and what to do while the backend runs.

use vstd::prelude::*;

verus! {

/// What is to be done with the deployment.
#[derive(Clone, Copy, Debug, PartialEq, Eq, Structural)]
pub enum Command {
    /// Prepare the state of the backend.
    Init,
    /// Bring the infrastructure to what the graph declares.
    Apply,
    /// Take down all that the graph declares.
    Destroy,
}

/// The command line: the one command that was given.
#[derive(Debug)]
pub struct Cli {
    command: Command,
}

impl View for Cli {
    type V = Command;

    closed spec fn view(&self) -> Command {
        self.command
    }
}

impl Cli {
    /// The command line that gives `command`.
    pub fn new(command: Command) -> (cli: Cli)
        ensures
            cli@ == command,
    {
        Cli { command }
    }

    /// The command that was given.
    pub fn command(&self) -> (command: &Command)
        ensures
            *command == self@,
    {
        &self.command
    }
}

/// What was seen of the backend process at one look.
#[derive(Clone, Copy, Debug, PartialEq, Eq, Structural)]
pub enum Sighting {
    /// A signal asked this program to end.
    Interrupted,
    /// The process has ended, with the given exit code if it has one.
    Ended(Option<i32>),
    /// The process is still at work.
    Running,
}

/// What to do after a look at the backend process.
#[derive(Clone, Copy, Debug, PartialEq, Eq, Structural)]
pub enum Reaction {
    /// Kill the process and end.
    Kill,
    /// End with the given exit code.
    Exit(i32),
    /// Look again after the given number of milliseconds.
    Wait(u64),
}

/// The pause between two looks at the backend process, in milliseconds.
pub const LOOK_EVERY: u64 = 200;

/// What follows from a look at the backend process.
pub open spec fn reaction_to(sighting: Sighting) -> Reaction {
    match sighting {
        Sighting::Interrupted => Reaction::Kill,
        Sighting::Ended(Some(code)) => Reaction::Exit(code),
        Sighting::Ended(None) => Reaction::Exit(0),
        Sighting::Running => Reaction::Wait(LOOK_EVERY),
    }
}

/// What to do after a look at the backend process: on a signal the process
/// is killed; once it has ended, its exit code is passed on, and 0 where it
/// has none; else the next look follows after a pause.
pub fn react(sighting: Sighting) -> (reaction: Reaction)
    ensures
        reaction == reaction_to(sighting),
{
    match sighting {
        Sighting::Interrupted => Reaction::Kill,
        Sighting::Ended(Some(code)) => Reaction::Exit(code),
        Sighting::Ended(None) => Reaction::Exit(0),
        Sighting::Running => Reaction::Wait(LOOK_EVERY),
    }
}

} // verus!
