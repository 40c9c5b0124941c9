//! The workflow as a state machine.
//!
//! A [`State`] names the one thing that the caller is to do next, or says that
//! the run is over. The caller does it and hands the [`Event`] that came of it
//! to [`step`], which answers with the messages for the user and the next
//! state. Every step moves forward; no state is visited twice.

use vstd::prelude::*;
use crate::message::{failure, found_at, views, Message, Severity};
use crate::response::{answer_of, classify, Answer};

verus! {

/// What the tool was invoked for.
#[derive(Clone, Copy, Debug, PartialEq, Eq, Structural)]
pub enum Mode {
    /// Set the project up: create the marker file.
    Initialize,
    /// Confirm that the project is set up.
    CheckAndRun,
}

/// How the process is to end.
#[derive(Clone, Copy, Debug, PartialEq, Eq, Structural)]
pub enum Exit {
    Success,
    Failure,
}

/// What the caller is to do next.
#[derive(Clone, Copy, Debug, PartialEq, Eq, Structural)]
pub enum State {
    /// Look whether the project descriptor is in the directory.
    ProbeDescriptor(Mode),
    /// Look whether the marker file is in the directory.
    ProbeMarker(Mode),
    /// Create the marker file, empty.
    CreateMarker,
    /// Append the fixed section to the marker file.
    PopulateMarker,
    /// Look whether the ignore file is in the directory.
    ProbeIgnoreList,
    /// Put the question to the user and read one line.
    AwaitResponse,
    /// Append the fixed block to the ignore file, without creating it.
    AppendIgnoreList,
    /// Leave with the given status.
    Finished(Exit),
}

/// What came of the caller's action.
#[derive(Debug, PartialEq, Eq)]
pub enum Event {
    /// The file looked for is there.
    Present,
    /// The file looked for is not there.
    Absent,
    /// The file was created or written.
    Done,
    /// The file could not be created or opened; the system's reason.
    OpenFailed(String),
    /// The file was opened but not written; the system's reason.
    WriteFailed(String),
    /// The line that the user typed; empty at the end of input.
    Line(String),
}

/// An [`Event`] as contracts see it, with each text as a sequence of characters.
pub enum Occurrence {
    Present,
    Absent,
    Done,
    OpenFailed(Seq<char>),
    WriteFailed(Seq<char>),
    Line(Seq<char>),
}

impl View for Event {
    type V = Occurrence;

    open spec fn view(&self) -> Occurrence {
        match *self {
            Event::Present => Occurrence::Present,
            Event::Absent => Occurrence::Absent,
            Event::Done => Occurrence::Done,
            Event::OpenFailed(reason) => Occurrence::OpenFailed(reason@),
            Event::WriteFailed(reason) => Occurrence::WriteFailed(reason@),
            Event::Line(reply) => Occurrence::Line(reply@),
        }
    }
}

/// The outcome of one step.
#[derive(Debug, PartialEq, Eq)]
pub struct Step {
    pub next: State,
    pub messages: Vec<Message>,
}

/// Whether `event` can come of the action that `state` asks for.
pub open spec fn answers(state: State, event: Occurrence) -> bool {
    match state {
        State::ProbeDescriptor(_) | State::ProbeMarker(_) | State::ProbeIgnoreList => {
            event is Present || event is Absent
        },
        State::CreateMarker => event is Done || event is OpenFailed,
        State::PopulateMarker | State::AppendIgnoreList => {
            event is Done || event is OpenFailed || event is WriteFailed
        },
        State::AwaitResponse => event is Line,
        State::Finished(_) => false,
    }
}

/// The state that follows `state` on `event`.
pub open spec fn next_state(state: State, event: Occurrence) -> State {
    match state {
        State::ProbeDescriptor(mode) => {
            if event is Present {
                State::ProbeMarker(mode)
            } else {
                State::Finished(Exit::Failure)
            }
        },
        State::ProbeMarker(Mode::Initialize) => {
            if event is Present {
                State::Finished(Exit::Success)
            } else {
                State::CreateMarker
            }
        },
        State::ProbeMarker(Mode::CheckAndRun) => {
            if event is Present {
                State::Finished(Exit::Success)
            } else {
                State::Finished(Exit::Failure)
            }
        },
        State::CreateMarker => {
            if event is Done {
                State::PopulateMarker
            } else {
                State::Finished(Exit::Failure)
            }
        },
        State::PopulateMarker => State::ProbeIgnoreList,
        State::ProbeIgnoreList => {
            if event is Present {
                State::AwaitResponse
            } else {
                State::Finished(Exit::Success)
            }
        },
        State::AwaitResponse => match event {
            Occurrence::Line(reply) if answer_of(reply) == Answer::Accept => State::AppendIgnoreList,
            _ => State::Finished(Exit::Success),
        },
        State::AppendIgnoreList => State::Finished(Exit::Success),
        State::Finished(exit) => State::Finished(exit),
    }
}

/// What the user is told when a write to the file called `file` went wrong.
pub open spec fn write_trouble(file: Seq<char>, event: Occurrence) -> Seq<(Severity, Seq<char>)> {
    match event {
        Occurrence::OpenFailed(reason) => seq![
            (Severity::Error, failure("Failed to open "@ + file, reason)),
        ],
        Occurrence::WriteFailed(reason) => seq![
            (Severity::Error, failure("Failed to write to "@ + file, reason)),
        ],
        _ => seq![],
    }
}

/// What the user is told when the offer was declined.
pub open spec fn declined_notices() -> Seq<(Severity, Seq<char>)> {
    seq![
        (Severity::Warning, "Skipping .gitignore modification"@),
        (Severity::Info, "You can manually add '.cargorush.toml' to your .gitignore later"@),
    ]
}

/// What the user is told when the reply was not understood.
pub open spec fn invalid_notice() -> (Severity, Seq<char>) {
    (Severity::Error, "Invalid input"@)
}

/// What the user is told on `event` in `state`, for the project at `root`.
pub open spec fn notices(state: State, event: Occurrence, root: Seq<char>) -> Seq<
    (Severity, Seq<char>),
> {
    match state {
        State::ProbeDescriptor(_) => {
            if event is Present {
                seq![]
            } else {
                seq![
                    (Severity::Warning, "Cargo.toml not found in current directory"@),
                    (Severity::Info, "Make sure you're in the root directory of a Rust project"@),
                ]
            }
        },
        State::ProbeMarker(Mode::Initialize) => {
            if event is Present {
                seq![
                    (Severity::Warning, "cargo-rush is already active in this directory"@),
                    (Severity::Info, found_at(root)),
                    (Severity::Info, "Skipping initialization..."@),
                ]
            } else {
                seq![]
            }
        },
        State::ProbeMarker(Mode::CheckAndRun) => {
            if event is Present {
                seq![
                    (Severity::Warning, "cargo-rush already initialized"@),
                    (Severity::Info, found_at(root)),
                ]
            } else {
                seq![
                    (Severity::Warning, "cargo-rush not initialized in this project"@),
                    (Severity::Info, "Run `cargo rush --init` to initialize"@),
                ]
            }
        },
        State::CreateMarker => match event {
            Occurrence::Done => seq![
                (Severity::Success, "cargo-rush initialized successfully!"@),
                (Severity::Info, "It's recommended to add .cargorush.toml to your .gitignore"@),
            ],
            Occurrence::OpenFailed(reason) => seq![
                (Severity::Error, failure("Failed to create .cargorush.toml file"@, reason)),
            ],
            _ => seq![],
        },
        State::PopulateMarker => write_trouble(".cargorush.toml"@, event),
        State::ProbeIgnoreList => {
            if event is Present {
                seq![]
            } else {
                seq![(Severity::Warning, "No .gitignore file found"@)]
            }
        },
        State::AwaitResponse => match event {
            Occurrence::Line(reply) => match answer_of(reply) {
                Answer::Accept => seq![],
                Answer::Decline => declined_notices(),
                Answer::Invalid => seq![invalid_notice()] + declined_notices(),
            },
            _ => seq![],
        },
        State::AppendIgnoreList => match event {
            Occurrence::Done => seq![(Severity::Success, "Added .cargorush.toml to .gitignore"@)],
            _ => write_trouble(".gitignore"@, event),
        },
        State::Finished(_) => seq![],
    }
}

/// How many steps a run in `state` can still take at most.
pub open spec fn remaining(state: State) -> nat {
    match state {
        State::ProbeDescriptor(_) => 7,
        State::ProbeMarker(_) => 6,
        State::CreateMarker => 5,
        State::PopulateMarker => 4,
        State::ProbeIgnoreList => 3,
        State::AwaitResponse => 2,
        State::AppendIgnoreList => 1,
        State::Finished(_) => 0,
    }
}

impl Exit {
    /// The process status: 0 for success, 1 for failure.
    pub fn code(self) -> (status: i32)
        ensures
            status == (if self == Exit::Success { 0i32 } else { 1i32 }),
    {
        match self {
            Exit::Success => 0,
            Exit::Failure => 1,
        }
    }
}

/// The state in which a run for `mode` begins.
pub fn start(mode: Mode) -> (state: State)
    ensures
        state == State::ProbeDescriptor(mode),
{
    State::ProbeDescriptor(mode)
}

/// The message for a write to `file` that went wrong, if `event` is such a failure.
fn trouble(file: &str, event: &Event) -> (messages: Vec<Message>)
    ensures
        views(messages@) == write_trouble(file@, event@),
{
    let mut messages: Vec<Message> = Vec::new();
    match event {
        Event::OpenFailed(reason) => {
            let what = String::from_str("Failed to open ").concat(file);
            messages.push(Message::failed(what.as_str(), reason.as_str()));
        },
        Event::WriteFailed(reason) => {
            let what = String::from_str("Failed to write to ").concat(file);
            messages.push(Message::failed(what.as_str(), reason.as_str()));
        },
        _ => {},
    }
    assert(views(messages@) =~= write_trouble(file@, event@));
    messages
}

/// Takes the machine one step on: `event` is what came of the action that
/// `state` asked for, `root` the project directory as it is shown to the user.
///
/// Returns `None`, and decides nothing, exactly where `event` cannot come of
/// that action; a finished run takes no event.
pub fn step(state: State, event: &Event, root: &str) -> (outcome: Option<Step>)
    ensures
        outcome is Some <==> answers(state, event@),
        outcome matches Some(s) ==> {
            &&& s.next == next_state(state, event@)
            &&& views(s.messages@) == notices(state, event@, root@)
            &&& remaining(s.next) < remaining(state)
        },
{
    let mut messages: Vec<Message> = Vec::new();
    let next = match (state, event) {
        (State::ProbeDescriptor(mode), Event::Present) => State::ProbeMarker(mode),
        (State::ProbeDescriptor(_), Event::Absent) => {
            messages.push(
                Message::new(Severity::Warning, "Cargo.toml not found in current directory"),
            );
            messages.push(
                Message::new(
                    Severity::Info,
                    "Make sure you're in the root directory of a Rust project",
                ),
            );
            State::Finished(Exit::Failure)
        },
        (State::ProbeMarker(Mode::Initialize), Event::Present) => {
            messages.push(
                Message::new(Severity::Warning, "cargo-rush is already active in this directory"),
            );
            messages.push(Message::located(root));
            messages.push(Message::new(Severity::Info, "Skipping initialization..."));
            State::Finished(Exit::Success)
        },
        (State::ProbeMarker(Mode::Initialize), Event::Absent) => State::CreateMarker,
        (State::ProbeMarker(Mode::CheckAndRun), Event::Present) => {
            messages.push(Message::new(Severity::Warning, "cargo-rush already initialized"));
            messages.push(Message::located(root));
            State::Finished(Exit::Success)
        },
        (State::ProbeMarker(Mode::CheckAndRun), Event::Absent) => {
            messages.push(
                Message::new(Severity::Warning, "cargo-rush not initialized in this project"),
            );
            messages.push(Message::new(Severity::Info, "Run `cargo rush --init` to initialize"));
            State::Finished(Exit::Failure)
        },
        (State::CreateMarker, Event::Done) => {
            messages.push(Message::new(Severity::Success, "cargo-rush initialized successfully!"));
            messages.push(
                Message::new(
                    Severity::Info,
                    "It's recommended to add .cargorush.toml to your .gitignore",
                ),
            );
            State::PopulateMarker
        },
        (State::CreateMarker, Event::OpenFailed(reason)) => {
            messages.push(Message::failed("Failed to create .cargorush.toml file", reason.as_str()));
            State::Finished(Exit::Failure)
        },
        (State::PopulateMarker, Event::Done)
        | (State::PopulateMarker, Event::OpenFailed(_))
        | (State::PopulateMarker, Event::WriteFailed(_)) => {
            messages = trouble(".cargorush.toml", event);
            State::ProbeIgnoreList
        },
        (State::ProbeIgnoreList, Event::Present) => State::AwaitResponse,
        (State::ProbeIgnoreList, Event::Absent) => {
            messages.push(Message::new(Severity::Warning, "No .gitignore file found"));
            State::Finished(Exit::Success)
        },
        (State::AwaitResponse, Event::Line(reply)) => {
            let answer = classify(reply.as_str());
            match answer {
                Answer::Accept => State::AppendIgnoreList,
                Answer::Decline | Answer::Invalid => {
                    if answer == Answer::Invalid {
                        messages.push(Message::new(Severity::Error, "Invalid input"));
                    }
                    messages.push(
                        Message::new(Severity::Warning, "Skipping .gitignore modification"),
                    );
                    messages.push(
                        Message::new(
                            Severity::Info,
                            "You can manually add '.cargorush.toml' to your .gitignore later",
                        ),
                    );
                    State::Finished(Exit::Success)
                },
            }
        },
        (State::AppendIgnoreList, Event::Done) => {
            messages.push(Message::new(Severity::Success, "Added .cargorush.toml to .gitignore"));
            State::Finished(Exit::Success)
        },
        (State::AppendIgnoreList, Event::OpenFailed(_))
        | (State::AppendIgnoreList, Event::WriteFailed(_)) => {
            messages = trouble(".gitignore", event);
            State::Finished(Exit::Success)
        },
        _ => {
            return None;
        },
    };
    assert(views(messages@) =~= notices(state, event@, root@));
    Some(Step { next, messages })
}

} // verus!
