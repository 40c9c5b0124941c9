use cargo_rush::message::{ignore_entry, marker_content, Message, Severity};
use cargo_rush::project::{run, Fault, Faults, Project, Report};
use cargo_rush::workflow::{Event, Exit, Mode, State};

fn directory(descriptor: bool, marker: Option<&str>, ignore_list: Option<&str>) -> Project {
    Project {
        root: "/work/demo".to_string(),
        descriptor,
        marker: marker.map(|text| text.to_string()),
        ignore_list: ignore_list.map(|text| text.to_string()),
        faults: Faults { create: None, populate: None, append: None },
    }
}

fn denied() -> String {
    "Permission denied (os error 13)".to_string()
}

fn msg(severity: Severity, text: &str) -> Message {
    Message { severity, text: text.to_string() }
}

fn texts(report: &Report) -> Vec<&str> {
    report.messages.iter().map(|m| m.text.as_str()).collect()
}

#[test]
fn new_directory_is_empty() {
    let p = Project::new("/tmp/x");
    assert_eq!(p.root, "/tmp/x");
    assert!(!p.descriptor);
    assert_eq!(p.marker, None);
    assert_eq!(p.ignore_list, None);
    assert_eq!(p.faults, Faults { create: None, populate: None, append: None });
}

#[test]
fn without_descriptor_both_modes_fail_and_write_nothing() {
    for mode in [Mode::Initialize, Mode::CheckAndRun] {
        for marker in [None, Some("kept")] {
            for ignore_list in [None, Some("target\n")] {
                let mut p = directory(false, marker, ignore_list);
                let report = run(mode, &mut p, "y\n");
                assert_eq!(report.exit, Exit::Failure);
                assert_eq!(report.exit.code(), 1);
                assert_eq!(p, directory(false, marker, ignore_list));
                assert_eq!(
                    report.messages,
                    vec![
                        msg(Severity::Warning, "Cargo.toml not found in current directory"),
                        msg(
                            Severity::Info,
                            "Make sure you're in the root directory of a Rust project"
                        ),
                    ]
                );
            }
        }
    }
}

#[test]
fn initialize_twice_keeps_the_marker() {
    let mut p = directory(true, None, None);
    let first = run(Mode::Initialize, &mut p, "");
    assert_eq!(first.exit, Exit::Success);
    let after_first = directory(true, Some(marker_content()), None);
    assert_eq!(p, after_first);

    let second = run(Mode::Initialize, &mut p, "");
    assert_eq!(second.exit, Exit::Success);
    assert_eq!(p, after_first);
    assert_eq!(
        second.messages,
        vec![
            msg(Severity::Warning, "cargo-rush is already active in this directory"),
            msg(Severity::Info, ".cargorush.toml found at '/work/demo/.cargorush.toml'"),
            msg(Severity::Info, "Skipping initialization..."),
        ]
    );
}

#[test]
fn already_active_touches_neither_file() {
    let mut p = directory(true, Some("mine"), Some("target\n"));
    let report = run(Mode::Initialize, &mut p, "y\n");
    assert_eq!(report.exit, Exit::Success);
    assert_eq!(p, directory(true, Some("mine"), Some("target\n")));
}

#[test]
fn check_after_initialize_finds_the_marker() {
    let mut p = directory(true, None, Some("target\n"));
    assert_eq!(run(Mode::Initialize, &mut p, "n\n").exit, Exit::Success);
    let after = directory(true, Some(marker_content()), Some("target\n"));
    assert_eq!(p, after);

    let report = run(Mode::CheckAndRun, &mut p, "");
    assert_eq!(report.exit, Exit::Success);
    assert_eq!(report.exit.code(), 0);
    assert_eq!(p, after);
    assert_eq!(
        report.messages,
        vec![
            msg(Severity::Warning, "cargo-rush already initialized"),
            msg(Severity::Info, ".cargorush.toml found at '/work/demo/.cargorush.toml'"),
        ]
    );
}

#[test]
fn check_before_initialize_fails() {
    let mut p = directory(true, None, Some("target\n"));
    let report = run(Mode::CheckAndRun, &mut p, "y\n");
    assert_eq!(report.exit, Exit::Failure);
    assert_eq!(p, directory(true, None, Some("target\n")));
    assert_eq!(
        texts(&report),
        vec!["cargo-rush not initialized in this project", "Run `cargo rush --init` to initialize"]
    );
}

#[test]
fn yes_appends_exactly_the_block() {
    for reply in ["y\n", "Y\n", "\n", "", "  y \r\n"] {
        let before = "target\n*.log";
        let mut p = directory(true, None, Some(before));
        let report = run(Mode::Initialize, &mut p, reply);
        assert_eq!(report.exit, Exit::Success);
        let after = p.ignore_list.clone().expect("the ignore file is still there");
        assert_eq!(after.len(), before.len() + ignore_entry().len());
        assert!(after.len() > before.len());
        assert_eq!(after, "target\n*.log\n# Added by cargo-rush\n.cargorush.toml\n");
        assert_eq!(p.marker, Some("[rush.info]\nname = \"cargo-rush\"\n".to_string()));
        assert_eq!(
            report.messages,
            vec![
                msg(Severity::Success, "cargo-rush initialized successfully!"),
                msg(Severity::Info, "It's recommended to add .cargorush.toml to your .gitignore"),
                msg(Severity::Success, "Added .cargorush.toml to .gitignore"),
            ]
        );
    }
}

#[test]
fn no_leaves_the_ignore_file_as_it_is() {
    let before = "target\n";
    let mut p = directory(true, None, Some(before));
    let report = run(Mode::Initialize, &mut p, "n\n");
    assert_eq!(report.exit, Exit::Success);
    assert_eq!(p, directory(true, Some(marker_content()), Some(before)));
    assert_eq!(
        texts(&report),
        vec![
            "cargo-rush initialized successfully!",
            "It's recommended to add .cargorush.toml to your .gitignore",
            "Skipping .gitignore modification",
            "You can manually add '.cargorush.toml' to your .gitignore later",
        ]
    );
}

#[test]
fn without_ignore_file_none_is_created() {
    let mut p = directory(true, None, None);
    let report = run(Mode::Initialize, &mut p, "y\n");
    assert_eq!(report.exit, Exit::Success);
    assert_eq!(p.marker, Some(marker_content().to_string()));
    assert_eq!(p.ignore_list, None);
    assert_eq!(
        report.messages,
        vec![
            msg(Severity::Success, "cargo-rush initialized successfully!"),
            msg(Severity::Info, "It's recommended to add .cargorush.toml to your .gitignore"),
            msg(Severity::Warning, "No .gitignore file found"),
        ]
    );
}

#[test]
fn maybe_does_what_no_does_with_one_more_notice() {
    let mut declined = directory(true, None, Some("target\n"));
    let no = run(Mode::Initialize, &mut declined, "n\n");
    let mut unclear = directory(true, None, Some("target\n"));
    let maybe = run(Mode::Initialize, &mut unclear, "maybe\n");

    assert_eq!(maybe.exit, no.exit);
    assert_eq!(unclear, declined);
    let mut expected: Vec<Message> = Vec::new();
    for m in no.messages.iter() {
        if m.text == "Skipping .gitignore modification" {
            expected.push(msg(Severity::Error, "Invalid input"));
        }
        expected.push(msg(m.severity, &m.text));
    }
    assert_eq!(expected.len(), no.messages.len() + 1);
    assert_eq!(maybe.messages, expected);
}

#[test]
fn perform_does_what_the_state_asks() {
    let mut p = directory(true, None, Some("a"));
    assert_eq!(p.perform(State::ProbeDescriptor(Mode::Initialize), ""), Some(Event::Present));
    assert_eq!(p.perform(State::ProbeMarker(Mode::Initialize), ""), Some(Event::Absent));
    assert_eq!(p.perform(State::ProbeIgnoreList, ""), Some(Event::Present));
    assert_eq!(p.perform(State::AwaitResponse, "n\n"), Some(Event::Line("n\n".to_string())));
    assert_eq!(p, directory(true, None, Some("a")));

    assert_eq!(
        p.perform(State::PopulateMarker, ""),
        Some(Event::OpenFailed("No such file or directory".to_string()))
    );
    assert_eq!(p.marker, None);

    assert_eq!(p.perform(State::CreateMarker, ""), Some(Event::Done));
    assert_eq!(p.marker, Some(String::new()));
    assert_eq!(p.perform(State::PopulateMarker, ""), Some(Event::Done));
    assert_eq!(p.marker, Some(marker_content().to_string()));
    assert_eq!(p.perform(State::AppendIgnoreList, ""), Some(Event::Done));
    assert_eq!(p.ignore_list, Some(format!("a{}", ignore_entry())));

    let kept = directory(true, Some(marker_content()), Some(&format!("a{}", ignore_entry())));
    assert_eq!(p.perform(State::Finished(Exit::Success), ""), None);
    assert_eq!(p, kept);
}

#[test]
fn append_to_a_missing_ignore_file_creates_none() {
    let mut p = directory(true, None, None);
    assert_eq!(
        p.perform(State::AppendIgnoreList, ""),
        Some(Event::OpenFailed("No such file or directory".to_string()))
    );
    assert_eq!(p.ignore_list, None);
}

#[test]
fn refused_creation_fails_the_run() {
    let mut p = directory(true, None, Some("target\n"));
    p.faults.create = Some(denied());
    let report = run(Mode::Initialize, &mut p, "y\n");
    assert_eq!(report.exit, Exit::Failure);
    assert_eq!(report.exit.code(), 1);
    assert_eq!(p.marker, None);
    assert_eq!(p.ignore_list, Some("target\n".to_string()));
    assert_eq!(
        report.messages,
        vec![msg(
            Severity::Error,
            "Failed to create .cargorush.toml file: Permission denied (os error 13)"
        )]
    );

    let again = run(Mode::Initialize, &mut p, "y\n");
    assert_eq!(again.exit, Exit::Failure);
    assert_eq!(p.marker, None);
    assert_eq!(p.ignore_list, Some("target\n".to_string()));
}

#[test]
fn refused_population_is_reported_and_the_run_goes_on() {
    let mut p = directory(true, None, Some("target\n"));
    p.faults.populate = Some(Fault::Write("No space left on device".to_string()));
    let report = run(Mode::Initialize, &mut p, "y\n");
    assert_eq!(report.exit, Exit::Success);
    assert_eq!(p.marker, Some(String::new()));
    assert_eq!(p.ignore_list, Some(format!("target\n{}", ignore_entry())));
    assert_eq!(
        texts(&report),
        vec![
            "cargo-rush initialized successfully!",
            "It's recommended to add .cargorush.toml to your .gitignore",
            "Failed to write to .cargorush.toml: No space left on device",
            "Added .cargorush.toml to .gitignore",
        ]
    );
    assert_eq!(report.messages[2].severity, Severity::Error);

    let check = run(Mode::CheckAndRun, &mut p, "");
    assert_eq!(check.exit, Exit::Success);
}

#[test]
fn refused_append_is_reported_and_the_run_succeeds() {
    for (fault, told) in [
        (Fault::Open(denied()), "Failed to open .gitignore: Permission denied (os error 13)"),
        (Fault::Write(denied()), "Failed to write to .gitignore: Permission denied (os error 13)"),
    ] {
        let mut p = directory(true, None, Some("target\n"));
        p.faults.append = Some(fault);
        let report = run(Mode::Initialize, &mut p, "\n");
        assert_eq!(report.exit, Exit::Success);
        assert_eq!(report.exit.code(), 0);
        assert_eq!(p.marker, Some(marker_content().to_string()));
        assert_eq!(p.ignore_list, Some("target\n".to_string()));
        assert_eq!(report.messages.len(), 3);
        assert_eq!(report.messages[2], msg(Severity::Error, told));
    }
}

#[test]
fn faults_do_not_matter_where_nothing_is_written() {
    let mut p = directory(true, Some("mine"), Some("target\n"));
    p.faults = Faults {
        create: Some(denied()),
        populate: Some(Fault::Open(denied())),
        append: Some(Fault::Write(denied())),
    };
    assert_eq!(run(Mode::Initialize, &mut p, "y").exit, Exit::Success);
    assert_eq!(run(Mode::CheckAndRun, &mut p, "y").exit, Exit::Success);
    assert_eq!(p.marker, Some("mine".to_string()));
    assert_eq!(p.ignore_list, Some("target\n".to_string()));

    let mut q = directory(true, None, Some("target\n"));
    q.faults.append = Some(Fault::Open(denied()));
    let report = run(Mode::Initialize, &mut q, "n\n");
    assert_eq!(report.exit, Exit::Success);
    assert_eq!(texts(&report).len(), 4);
    assert_eq!(q.ignore_list, Some("target\n".to_string()));
}

#[test]
fn perform_reports_what_the_directory_refuses() {
    let mut p = directory(true, None, Some("a"));
    p.faults = Faults {
        create: Some(denied()),
        populate: Some(Fault::Write("full".to_string())),
        append: Some(Fault::Open("locked".to_string())),
    };
    assert_eq!(p.perform(State::CreateMarker, ""), Some(Event::OpenFailed(denied())));
    assert_eq!(p.marker, None);
    assert_eq!(p.perform(State::AppendIgnoreList, ""), Some(Event::OpenFailed("locked".to_string())));
    assert_eq!(p.ignore_list, Some("a".to_string()));

    p.marker = Some("kept".to_string());
    assert_eq!(p.perform(State::PopulateMarker, ""), Some(Event::WriteFailed("full".to_string())));
    assert_eq!(p.marker, Some("kept".to_string()));
}

#[test]
fn creating_over_a_marker_empties_it() {
    let mut p = directory(true, Some("old"), None);
    assert_eq!(p.perform(State::CreateMarker, ""), Some(Event::Done));
    assert_eq!(p.marker, Some(String::new()));
}
