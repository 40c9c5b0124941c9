//! What the workflow tells the user: a severity and a line of text.

use vstd::prelude::*;

verus! {

/// The four sinks that a front end offers for messages.
#[derive(Clone, Copy, Debug, PartialEq, Eq, Structural)]
pub enum Severity {
    Error,
    Warning,
    Success,
    Info,
}

/// One line for the user.
#[derive(Debug, PartialEq, Eq)]
pub struct Message {
    pub severity: Severity,
    pub text: String,
}

impl View for Message {
    type V = (Severity, Seq<char>);

    open spec fn view(&self) -> (Severity, Seq<char>) {
        (self.severity, self.text@)
    }
}

/// The views of a list of messages, in order.
pub open spec fn views(messages: Seq<Message>) -> Seq<(Severity, Seq<char>)> {
    Seq::new(messages.len(), |i: int| messages[i]@)
}

/// Name of the file whose presence marks a directory as a project root.
pub open spec fn descriptor_name() -> Seq<char> {
    "Cargo.toml"@
}

/// Name of the per-project marker file.
pub open spec fn marker_name() -> Seq<char> {
    ".cargorush.toml"@
}

/// Name of the ignore file that may be amended.
pub open spec fn ignore_name() -> Seq<char> {
    ".gitignore"@
}

/// What a fresh marker file is filled with: a section header and the tool's name.
pub open spec fn marker_section() -> Seq<char> {
    "[rush.info]\nname = \"cargo-rush\"\n"@
}

/// What is appended to the ignore file: a blank line, a comment, the marker's name.
pub open spec fn ignore_block() -> Seq<char> {
    "\n# Added by cargo-rush\n.cargorush.toml\n"@
}

/// The question put to the user before the ignore file is amended.
pub open spec fn prompt_text() -> Seq<char> {
    "Append .cargorush.toml to .gitignore?"@
}

/// Where the marker file of the project at `root` lies, as shown to the user.
pub open spec fn found_at(root: Seq<char>) -> Seq<char> {
    ".cargorush.toml found at '"@ + root + "/.cargorush.toml'"@
}

/// A failure report: what failed, then the reason that the system gave.
pub open spec fn failure(what: Seq<char>, reason: Seq<char>) -> Seq<char> {
    what + ": "@ + reason
}

pub fn descriptor_file() -> (name: &'static str)
    ensures
        name@ == descriptor_name(),
{
    "Cargo.toml"
}

pub fn marker_file() -> (name: &'static str)
    ensures
        name@ == marker_name(),
{
    ".cargorush.toml"
}

pub fn ignore_file() -> (name: &'static str)
    ensures
        name@ == ignore_name(),
{
    ".gitignore"
}

pub fn marker_content() -> (text: &'static str)
    ensures
        text@ == marker_section(),
{
    "[rush.info]\nname = \"cargo-rush\"\n"
}

pub fn ignore_entry() -> (text: &'static str)
    ensures
        text@ == ignore_block(),
{
    "\n# Added by cargo-rush\n.cargorush.toml\n"
}

pub fn prompt() -> (text: &'static str)
    ensures
        text@ == prompt_text(),
{
    "Append .cargorush.toml to .gitignore?"
}

impl Message {
    /// A message of the given severity with a fixed text.
    pub fn new(severity: Severity, text: &str) -> (m: Message)
        ensures
            m@ == (severity, text@),
    {
        Message { severity, text: String::from_str(text) }
    }

    /// Tells where the marker file of the project at `root` lies.
    pub fn located(root: &str) -> (m: Message)
        ensures
            m@ == (Severity::Info, found_at(root@)),
    {
        let text = String::from_str(".cargorush.toml found at '").concat(root).concat(
            "/.cargorush.toml'",
        );
        Message { severity: Severity::Info, text }
    }

    /// Reports that `what` failed for `reason`.
    pub fn failed(what: &str, reason: &str) -> (m: Message)
        ensures
            m@ == (Severity::Error, failure(what@, reason@)),
    {
        let text = String::from_str(what).concat(": ").concat(reason);
        Message { severity: Severity::Error, text }
    }
}

} // verus!
