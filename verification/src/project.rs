//! A project directory held in memory, and whole runs of the workflow on it.
//!
//! The directory holds what the workflow looks at and nothing else: whether
//! the descriptor is there, and the texts of the marker file and of the ignore
//! file where they exist. It can be told to refuse each of the three writes,
//! as a disk may; a write that is refused leaves the file as it was. A file
//! that is not there cannot be appended to.

use vstd::prelude::*;
use vstd::pervasive::unreached;
use crate::message::{
    ignore_block, ignore_entry, marker_content, marker_section, views, Message, Severity,
};
use crate::response::{answer_of, Answer};
use crate::workflow::{
    next_state, notices, remaining, start, step, Event, Exit, Mode, Occurrence, State,
};

verus! {

/// Why a file could not be appended to.
#[derive(Debug, PartialEq, Eq)]
pub enum Fault {
    /// It could not be opened; the reason.
    Open(String),
    /// It was opened and could not be written; the reason.
    Write(String),
}

/// A [`Fault`] as contracts see it.
pub enum Trouble {
    Open(Seq<char>),
    Write(Seq<char>),
}

impl View for Fault {
    type V = Trouble;

    open spec fn view(&self) -> Trouble {
        match *self {
            Fault::Open(reason) => Trouble::Open(reason@),
            Fault::Write(reason) => Trouble::Write(reason@),
        }
    }
}

/// The writes that a directory refuses.
#[derive(Debug, PartialEq, Eq)]
pub struct Faults {
    /// Set where the marker file cannot be created; the reason.
    pub create: Option<String>,
    /// Set where the marker file cannot be appended to.
    pub populate: Option<Fault>,
    /// Set where the ignore file cannot be appended to.
    pub append: Option<Fault>,
}

/// [`Faults`] as contracts see them.
pub struct Troubles {
    pub create: Option<Seq<char>>,
    pub populate: Option<Trouble>,
    pub append: Option<Trouble>,
}

/// A fault that may not be set, as contracts see it.
pub open spec fn trouble_of(fault: Option<Fault>) -> Option<Trouble> {
    match fault {
        Some(f) => Some(f@),
        None => None,
    }
}

impl View for Faults {
    type V = Troubles;

    open spec fn view(&self) -> Troubles {
        Troubles {
            create: text_of(self.create),
            populate: trouble_of(self.populate),
            append: trouble_of(self.append),
        }
    }
}

/// The directory of a project.
#[derive(Debug, PartialEq, Eq)]
pub struct Project {
    /// The directory's path as it is shown to the user.
    pub root: String,
    /// Whether the project descriptor is there.
    pub descriptor: bool,
    /// The text of the marker file, if it exists.
    pub marker: Option<String>,
    /// The text of the ignore file, if it exists.
    pub ignore_list: Option<String>,
    /// The writes that the directory refuses.
    pub faults: Faults,
}

/// A [`Project`] as contracts see it.
pub struct Directory {
    pub root: Seq<char>,
    pub descriptor: bool,
    pub marker: Option<Seq<char>>,
    pub ignore_list: Option<Seq<char>>,
    pub faults: Troubles,
}

/// The text of a file that may not exist, as contracts see it.
pub open spec fn text_of(file: Option<String>) -> Option<Seq<char>> {
    match file {
        Some(text) => Some(text@),
        None => None,
    }
}

impl View for Project {
    type V = Directory;

    open spec fn view(&self) -> Directory {
        Directory {
            root: self.root@,
            descriptor: self.descriptor,
            marker: text_of(self.marker),
            ignore_list: text_of(self.ignore_list),
            faults: self.faults@,
        }
    }
}

/// How a whole run ended.
#[derive(Debug, PartialEq, Eq)]
pub struct Report {
    /// The status to leave with.
    pub exit: Exit,
    /// Everything the user was told, in order.
    pub messages: Vec<Message>,
}

/// A run's end as contracts see it, with the directory that it left behind.
pub struct Ending {
    pub exit: Exit,
    pub notices: Seq<(Severity, Seq<char>)>,
    pub directory: Directory,
}

/// The reason given when a file that is not there is to be appended to.
pub open spec fn not_found() -> Seq<char> {
    "No such file or directory"@
}

/// Whether a file is there.
pub open spec fn probe(there: bool) -> Occurrence {
    if there {
        Occurrence::Present
    } else {
        Occurrence::Absent
    }
}

/// What comes of creating a file, which is refused where `fault` is set.
pub open spec fn create_with(fault: Option<Seq<char>>) -> Occurrence {
    match fault {
        Some(reason) => Occurrence::OpenFailed(reason),
        None => Occurrence::Done,
    }
}

/// What comes of appending to a file that may not exist, and which is
/// refused where `fault` is set.
pub open spec fn append_to(file: Option<Seq<char>>, fault: Option<Trouble>) -> Occurrence {
    if file is None {
        Occurrence::OpenFailed(not_found())
    } else {
        match fault {
            Some(Trouble::Open(reason)) => Occurrence::OpenFailed(reason),
            Some(Trouble::Write(reason)) => Occurrence::WriteFailed(reason),
            None => Occurrence::Done,
        }
    }
}

/// What comes of the action that `state` asks for, done on `dir` by a user
/// who answers `reply` when asked.
pub open spec fn occurs(state: State, dir: Directory, reply: Seq<char>) -> Occurrence {
    match state {
        State::ProbeDescriptor(_) => probe(dir.descriptor),
        State::ProbeMarker(_) => probe(dir.marker is Some),
        State::CreateMarker => create_with(dir.faults.create),
        State::PopulateMarker => append_to(dir.marker, dir.faults.populate),
        State::ProbeIgnoreList => probe(dir.ignore_list is Some),
        State::AwaitResponse => Occurrence::Line(reply),
        State::AppendIgnoreList => append_to(dir.ignore_list, dir.faults.append),
        State::Finished(_) => Occurrence::Done,
    }
}

/// `file` with `text` appended, where it exists.
pub open spec fn appended(file: Option<Seq<char>>, text: Seq<char>) -> Option<Seq<char>> {
    match file {
        Some(old_text) => Some(old_text + text),
        None => None,
    }
}

/// `file` after an attempt to append `text`, which is refused where `fault` is set.
pub open spec fn appended_unless(
    file: Option<Seq<char>>,
    text: Seq<char>,
    fault: Option<Trouble>,
) -> Option<Seq<char>> {
    if fault is Some {
        file
    } else {
        appended(file, text)
    }
}

/// The directory after the action that `state` asks for was done on `dir`.
pub open spec fn effect(state: State, dir: Directory) -> Directory {
    match state {
        State::CreateMarker => {
            if dir.faults.create is Some {
                dir
            } else {
                Directory { marker: Some(Seq::empty()), ..dir }
            }
        },
        State::PopulateMarker => Directory {
            marker: appended_unless(dir.marker, marker_section(), dir.faults.populate),
            ..dir
        },
        State::AppendIgnoreList => Directory {
            ignore_list: appended_unless(dir.ignore_list, ignore_block(), dir.faults.append),
            ..dir
        },
        _ => dir,
    }
}

/// How a run that stands in `state` on `dir` ends, with a user who answers
/// `reply` when asked.
pub open spec fn finish(state: State, dir: Directory, reply: Seq<char>) -> Ending
    decreases remaining(state),
{
    match state {
        State::Finished(exit) => Ending { exit, notices: Seq::empty(), directory: dir },
        _ => {
            let event = occurs(state, dir, reply);
            let rest = finish(next_state(state, event), effect(state, dir), reply);
            Ending { notices: notices(state, event, dir.root) + rest.notices, ..rest }
        },
    }
}

/// How a run for `mode` on `dir` ends.
pub open spec fn outcome(mode: Mode, dir: Directory, reply: Seq<char>) -> Ending {
    finish(State::ProbeDescriptor(mode), dir, reply)
}

/// Whether a run for `mode` on `dir` tries to create the marker file.
pub open spec fn tries_to_create(mode: Mode, dir: Directory) -> bool {
    mode == Mode::Initialize && dir.descriptor && dir.marker is None
}

/// Whether a run for `mode` on `dir` creates the marker file.
pub open spec fn creates_marker(mode: Mode, dir: Directory) -> bool {
    tries_to_create(mode, dir) && dir.faults.create is None
}

/// The status with which a run for `mode` on `dir` ends. It fails where the
/// descriptor is missing, where a project that is to be checked has no
/// marker, and where the marker cannot be created.
pub open spec fn exit_of(mode: Mode, dir: Directory) -> Exit {
    if !dir.descriptor || (mode == Mode::CheckAndRun && dir.marker is None) || (tries_to_create(
        mode,
        dir,
    ) && dir.faults.create is Some) {
        Exit::Failure
    } else {
        Exit::Success
    }
}

/// The directory that a run for `mode` on `dir` leaves behind. A marker that
/// is created holds the fixed section, or nothing where that could not be
/// appended. The ignore file is written only by a run that created the
/// marker, where the user accepts. Nothing else changes.
pub open spec fn directory_after(mode: Mode, dir: Directory, reply: Seq<char>) -> Directory {
    if creates_marker(mode, dir) {
        Directory {
            marker: appended_unless(Some(Seq::empty()), marker_section(), dir.faults.populate),
            ignore_list: if answer_of(reply) == Answer::Accept {
                appended_unless(dir.ignore_list, ignore_block(), dir.faults.append)
            } else {
                dir.ignore_list
            },
            ..dir
        }
    } else {
        dir
    }
}

/// A run that is taken step by step ends as [`exit_of`] and
/// [`directory_after`] say.
pub proof fn lemma_outcome(mode: Mode, dir: Directory, reply: Seq<char>)
    ensures
        outcome(mode, dir, reply).exit == exit_of(mode, dir),
        outcome(mode, dir, reply).directory == directory_after(mode, dir, reply),
{
    reveal_with_fuel(finish, 8);
}

/// Appends `text` to `file` unless `fault` is set or the file does not exist.
fn append_text(file: &mut Option<String>, text: &str, fault: &Option<Fault>) -> (event: Event)
    ensures
        text_of(*final(file)) == appended_unless(text_of(*old(file)), text@, trouble_of(*fault)),
        event@ == append_to(text_of(*old(file)), trouble_of(*fault)),
{
    if file.is_none() {
        return Event::OpenFailed(String::from_str("No such file or directory"));
    }
    match fault {
        Some(Fault::Open(reason)) => Event::OpenFailed(reason.clone()),
        Some(Fault::Write(reason)) => Event::WriteFailed(reason.clone()),
        None => {
            if let Some(old_text) = file.take() {
                *file = Some(old_text.concat(text));
            }
            Event::Done
        },
    }
}

/// Whether a file is there, as an event.
fn probed(there: bool) -> (event: Event)
    ensures
        event@ == probe(there),
{
    if there {
        Event::Present
    } else {
        Event::Absent
    }
}

impl Project {
    /// A directory at `root` that holds none of the three files and refuses no write.
    pub fn new(root: &str) -> (project: Project)
        ensures
            project@ == (Directory {
                root: root@,
                descriptor: false,
                marker: None,
                ignore_list: None,
                faults: Troubles { create: None, populate: None, append: None },
            }),
    {
        Project {
            root: String::from_str(root),
            descriptor: false,
            marker: None,
            ignore_list: None,
            faults: Faults { create: None, populate: None, append: None },
        }
    }

    /// Does on this directory what `state` asks for and says what came of it;
    /// `reply` is what the user answers when asked. A finished run asks for
    /// nothing: the result is `None` and the directory stays as it is.
    pub fn perform(&mut self, state: State, reply: &str) -> (event: Option<Event>)
        ensures
            final(self)@ == effect(state, old(self)@),
            event is None <==> state is Finished,
            event matches Some(e) ==> e@ == occurs(state, old(self)@, reply@),
    {
        match state {
            State::ProbeDescriptor(_) => Some(probed(self.descriptor)),
            State::ProbeMarker(_) => Some(probed(self.marker.is_some())),
            State::CreateMarker => match &self.faults.create {
                Some(reason) => Some(Event::OpenFailed(reason.clone())),
                None => {
                    self.marker = Some(String::new());
                    Some(Event::Done)
                },
            },
            State::PopulateMarker => Some(
                append_text(&mut self.marker, marker_content(), &self.faults.populate),
            ),
            State::ProbeIgnoreList => Some(probed(self.ignore_list.is_some())),
            State::AwaitResponse => Some(Event::Line(String::from_str(reply))),
            State::AppendIgnoreList => Some(
                append_text(&mut self.ignore_list, ignore_entry(), &self.faults.append),
            ),
            State::Finished(_) => None,
        }
    }
}

/// The views of two lists of messages, one after the other.
proof fn lemma_views_concat(a: Seq<Message>, b: Seq<Message>)
    ensures
        views(a + b) == views(a) + views(b),
{
    assert(views(a + b) =~= views(a) + views(b));
}

/// Runs the workflow for `mode` on `project` from start to end, with a user
/// who answers `reply` if asked.
pub fn run(mode: Mode, project: &mut Project, reply: &str) -> (report: Report)
    ensures
        report.exit == exit_of(mode, old(project)@),
        final(project)@ == directory_after(mode, old(project)@, reply@),
        views(report.messages@) == outcome(mode, old(project)@, reply@).notices,
{
    let ghost goal = outcome(mode, project@, reply@);
    let mut state = start(mode);
    let mut messages: Vec<Message> = Vec::new();
    assert(views(messages@) + finish(state, project@, reply@).notices =~= goal.notices);
    loop
        invariant
            goal == outcome(mode, old(project)@, reply@),
            views(messages@) + finish(state, project@, reply@).notices == goal.notices,
            finish(state, project@, reply@).exit == goal.exit,
            finish(state, project@, reply@).directory == goal.directory,
        decreases remaining(state),
    {
        if let State::Finished(exit) = state {
            proof {
                lemma_outcome(mode, old(project)@, reply@);
                assert(views(messages@) =~= goal.notices);
            }
            return Report { exit, messages };
        }
        let ghost told = views(messages@);
        let event = match project.perform(state, reply) {
            Some(event) => event,
            None => unreached(),
        };
        let mut taken = match step(state, &event, project.root.as_str()) {
            Some(taken) => taken,
            None => unreached(),
        };
        proof {
            lemma_views_concat(messages@, taken.messages@);
            let rest = finish(taken.next, project@, reply@).notices;
            assert(told + (views(taken.messages@) + rest) =~= (told + views(taken.messages@))
                + rest);
        }
        messages.append(&mut taken.messages);
        state = taken.next;
    }
}

} // verus!
