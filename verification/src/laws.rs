//! What holds of every run of the workflow on a directory in memory,
//! whatever the directory refuses.

use vstd::prelude::*;
use crate::message::{ignore_block, marker_section};
use crate::project::{
    creates_marker, directory_after, effect, exit_of, finish, lemma_outcome, occurs, outcome,
    Directory,
};
use crate::response::{answer_of, Answer};
use crate::workflow::{
    answers, invalid_notice, next_state, notices, remaining, Exit, Mode, Occurrence, State,
};

verus! {

/// A step fails the run in three places and nowhere else: where the
/// descriptor is missing, where a project that is to be checked has no
/// marker, and where the marker cannot be created. Every step leads on to a
/// state that is nearer to the end.
pub proof fn lemma_fatal_steps(state: State, event: Occurrence)
    requires
        answers(state, event),
    ensures
        next_state(state, event) == State::Finished(Exit::Failure) <==> {
            ||| state is ProbeDescriptor && event is Absent
            ||| state == State::ProbeMarker(Mode::CheckAndRun) && event is Absent
            ||| state is CreateMarker && event is OpenFailed
        },
        remaining(next_state(state, event)) < remaining(state),
{
}

/// Without a descriptor a run of either mode fails, says why, and leaves the
/// directory as it found it.
pub proof fn lemma_missing_descriptor_is_fatal(mode: Mode, dir: Directory, reply: Seq<char>)
    requires
        !dir.descriptor,
    ensures
        exit_of(mode, dir) == Exit::Failure,
        directory_after(mode, dir, reply) == dir,
        outcome(mode, dir, reply).notices == notices(
            State::ProbeDescriptor(mode),
            Occurrence::Absent,
            dir.root,
        ),
{
    reveal_with_fuel(finish, 3);
    let told = notices(State::ProbeDescriptor(mode), Occurrence::Absent, dir.root);
    assert(told + Seq::empty() =~= told);
}

/// Where descriptor and marker are both there, a run of either mode ends in
/// success once it has found the marker, with nothing written.
pub proof fn lemma_present_marker_ends(mode: Mode, dir: Directory, reply: Seq<char>)
    requires
        dir.descriptor,
        dir.marker is Some,
    ensures
        exit_of(mode, dir) == Exit::Success,
        directory_after(mode, dir, reply) == dir,
        outcome(mode, dir, reply).notices == notices(
            State::ProbeMarker(mode),
            Occurrence::Present,
            dir.root,
        ),
{
    reveal_with_fuel(finish, 4);
    let told = notices(State::ProbeMarker(mode), Occurrence::Present, dir.root);
    assert(Seq::empty() + (told + Seq::empty()) =~= told);
}

/// Initializing a second time changes nothing: whatever the first run did,
/// a second leaves the directory as the first left it. After a first run
/// that succeeded, the second succeeds too and reports that the tool is
/// already active.
pub proof fn lemma_initialize_twice(dir: Directory, reply: Seq<char>, again: Seq<char>)
    ensures
        ({
            let first = directory_after(Mode::Initialize, dir, reply);
            &&& directory_after(Mode::Initialize, first, again) == first
            &&& exit_of(Mode::Initialize, dir) == Exit::Success ==> {
                &&& exit_of(Mode::Initialize, first) == Exit::Success
                &&& outcome(Mode::Initialize, first, again).notices == notices(
                    State::ProbeMarker(Mode::Initialize),
                    Occurrence::Present,
                    dir.root,
                )
            }
        }),
{
    let first = directory_after(Mode::Initialize, dir, reply);
    if exit_of(Mode::Initialize, dir) == Exit::Success {
        lemma_present_marker_ends(Mode::Initialize, first, again);
    }
}

/// After a run that initialized with success, a check finds the marker: it
/// succeeds, reports where the marker lies, and leaves the directory as it is.
pub proof fn lemma_check_after_initialize(dir: Directory, reply: Seq<char>, again: Seq<char>)
    requires
        exit_of(Mode::Initialize, dir) == Exit::Success,
    ensures
        ({
            let first = directory_after(Mode::Initialize, dir, reply);
            &&& exit_of(Mode::CheckAndRun, first) == Exit::Success
            &&& directory_after(Mode::CheckAndRun, first, again) == first
            &&& outcome(Mode::CheckAndRun, first, again).notices == notices(
                State::ProbeMarker(Mode::CheckAndRun),
                Occurrence::Present,
                dir.root,
            )
        }),
{
    let first = directory_after(Mode::Initialize, dir, reply);
    lemma_present_marker_ends(Mode::CheckAndRun, first, again);
}

/// Where the ignore file exists and can be written and the user accepts,
/// initializing a fresh project makes the ignore file longer by exactly the
/// fixed block, which stands at its end; where the user does not accept, the
/// file stays as it is.
pub proof fn lemma_offer(dir: Directory, reply: Seq<char>)
    requires
        creates_marker(Mode::Initialize, dir),
        dir.ignore_list is Some,
        dir.faults.append is None,
    ensures
        ({
            let before = dir.ignore_list->Some_0;
            let after = directory_after(Mode::Initialize, dir, reply).ignore_list;
            if answer_of(reply) == Answer::Accept {
                &&& after == Some(before + ignore_block())
                &&& after->Some_0.len() == before.len() + ignore_block().len()
                &&& ignore_block().len() > 0
            } else {
                after == Some(before)
            }
        }),
{
    reveal_strlit("\n# Added by cargo-rush\n.cargorush.toml\n");
}

/// Where there is no ignore file, initializing a fresh project still succeeds
/// and creates the marker, with the fixed section where that can be written,
/// and creates no ignore file.
pub proof fn lemma_no_ignore_list(dir: Directory, reply: Seq<char>)
    requires
        creates_marker(Mode::Initialize, dir),
        dir.ignore_list is None,
    ensures
        exit_of(Mode::Initialize, dir) == Exit::Success,
        directory_after(Mode::Initialize, dir, reply).marker is Some,
        dir.faults.populate is None ==> directory_after(Mode::Initialize, dir, reply).marker
            == Some(marker_section()),
        directory_after(Mode::Initialize, dir, reply).ignore_list is None,
{
    assert(Seq::<char>::empty() + marker_section() =~= marker_section());
}

/// A reply that is not understood does what a refusal does: from any state
/// the run ends with the same status and the same directory.
pub proof fn lemma_invalid_as_declined(
    state: State,
    dir: Directory,
    invalid: Seq<char>,
    declined: Seq<char>,
)
    requires
        answer_of(invalid) == Answer::Invalid,
        answer_of(declined) == Answer::Decline,
    ensures
        finish(state, dir, invalid).exit == finish(state, dir, declined).exit,
        finish(state, dir, invalid).directory == finish(state, dir, declined).directory,
    decreases remaining(state),
{
    match state {
        State::Finished(_) => {},
        State::AwaitResponse => {
            reveal_with_fuel(finish, 2);
        },
        _ => {
            let event = occurs(state, dir, invalid);
            lemma_invalid_as_declined(
                next_state(state, event),
                effect(state, dir),
                invalid,
                declined,
            );
        },
    }
}

/// Whether a run for `mode` on `dir` puts the question to the user.
pub open spec fn asks(mode: Mode, dir: Directory) -> bool {
    creates_marker(mode, dir) && dir.ignore_list is Some
}

/// A whole run on a reply that is not understood leaves the directory that
/// a refusal leaves, and tells the user the same but for one more notice,
/// which says that the reply was invalid and stands before the two that
/// close a refusal. Where the question is not put, the user is told the same.
pub proof fn lemma_invalid_adds_one_notice(
    mode: Mode,
    dir: Directory,
    invalid: Seq<char>,
    declined: Seq<char>,
)
    requires
        answer_of(invalid) == Answer::Invalid,
        answer_of(declined) == Answer::Decline,
    ensures
        directory_after(mode, dir, invalid) == directory_after(mode, dir, declined),
        ({
            let refused = outcome(mode, dir, declined).notices;
            let unclear = outcome(mode, dir, invalid).notices;
            if asks(mode, dir) {
                refused.len() >= 2 && unclear == refused.insert(
                    refused.len() - 2,
                    invalid_notice(),
                )
            } else {
                unclear == refused
            }
        }),
{
    reveal_with_fuel(finish, 8);
    let refused = outcome(mode, dir, declined).notices;
    let unclear = outcome(mode, dir, invalid).notices;
    if asks(mode, dir) {
        assert(refused.len() >= 2);
        assert(unclear =~= refused.insert(refused.len() - 2, invalid_notice()));
    } else {
        assert(unclear =~= refused);
    }
}

} // verus!
