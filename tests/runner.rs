use file_stuff::{
    Action, Event, FileFailure, Request, Runner, Stage, LISTED_DIR, LOREM_IPSUM, NESTED_DIR,
    NESTED_PARENT,
};

fn started() -> Runner {
    let mut r = Runner::new();
    assert_eq!(r.stage(), Stage::Start);
    let a = r.step(Event::Started);
    assert!(a.output.is_empty());
    assert!(matches!(a.request, Request::ReadFile { ref path } if path == "hello.txt"));
    r
}

fn at_listing() -> Runner {
    let mut r = started();
    r.step(Event::InputRead(Ok("x".to_string())));
    r.step(Event::OutputWritten(Ok(())));
    assert_eq!(r.stage(), Stage::CheckListing);
    r
}

fn at_nested() -> Runner {
    let mut r = at_listing();
    r.step(Event::DirChecked(false));
    r.step(Event::DirChecked(true));
    let a = r.step(Event::ParentsCreated(Ok(())));
    assert!(a.output.is_empty());
    assert!(matches!(a.request, Request::CreateDir { ref path } if path == NESTED_DIR));
    r
}

fn is_exit(a: &Action) -> bool {
    matches!(a.request, Request::Exit)
}

#[test]
fn input_contents_are_printed() {
    let mut r = started();
    let a = r.step(Event::InputRead(Ok("Hello, world!\n".to_string())));
    assert_eq!(a.output, vec!["hello.txt contains:\nHello, world!\n".to_string()]);
    assert_eq!(r.stage(), Stage::WriteOutput);
}

#[test]
fn missing_input_aborts_with_path() {
    let mut r = started();
    let a = r.step(Event::InputRead(Err(FileFailure::Open(
        "No such file or directory (os error 2)".to_string(),
    ))));
    assert!(a.output.is_empty());
    match a.request {
        Request::Abort { message } => {
            assert!(message.contains("hello.txt"));
            assert_eq!(message, "couldn't open hello.txt: No such file or directory (os error 2)");
        }
        other => panic!("expected an abort, got {:?}", other),
    }
    assert!(r.is_finished());
    assert!(!r.expects(&Event::OutputWritten(Ok(()))));
}

#[test]
fn output_file_gets_fixed_text() {
    let mut r = started();
    let a = r.step(Event::InputRead(Ok(String::new())));
    match a.request {
        Request::WriteFile { path, contents } => {
            assert_eq!(path, "out/lorem_ipsum.txt");
            assert_eq!(contents, LOREM_IPSUM);
        }
        other => panic!("expected a write, got {:?}", other),
    }
    let a = r.step(Event::OutputWritten(Ok(())));
    assert_eq!(a.output, vec!["successfully wrote to out/lorem_ipsum.txt\n".to_string()]);
    assert!(matches!(a.request, Request::CheckDir { ref path } if path == LISTED_DIR));
}

#[test]
fn missing_output_directory_aborts() {
    let mut r = started();
    r.step(Event::InputRead(Ok(String::new())));
    let a = r.step(Event::OutputWritten(Err(FileFailure::Open(
        "No such file or directory (os error 2)".to_string(),
    ))));
    match a.request {
        Request::Abort { message } => assert_eq!(
            message,
            "couldn't create out/lorem_ipsum.txt: No such file or directory (os error 2)"
        ),
        other => panic!("expected an abort, got {:?}", other),
    }
    assert!(r.is_finished());
}

#[test]
fn directory_entries_each_printed_once() {
    let mut r = at_listing();
    let a = r.step(Event::DirChecked(true));
    assert!(matches!(a.request, Request::ReadDir { ref path } if path == "src"));
    let a = r.step(Event::EntriesRead {
        names: vec!["b".to_string(), "a".to_string(), "c".to_string()],
        failure: None,
    });
    assert_eq!(a.output, vec!["b\n", "a\n", "c\n", "Done\n"]);
    for name in ["a\n", "b\n", "c\n"] {
        assert_eq!(a.output.iter().filter(|l| l.as_str() == name).count(), 1);
    }
    assert_eq!(r.stage(), Stage::CheckSource);
}

#[test]
fn empty_directory_prints_done_only() {
    let mut r = at_listing();
    r.step(Event::DirChecked(true));
    let a = r.step(Event::EntriesRead { names: vec![], failure: None });
    assert_eq!(a.output, vec!["Done\n"]);
}

#[test]
fn listing_failure_midway_is_reported() {
    let mut r = at_listing();
    r.step(Event::DirChecked(true));
    let a = r.step(Event::EntriesRead {
        names: vec!["a".to_string()],
        failure: Some("Permission denied (os error 13)".to_string()),
    });
    assert_eq!(a.output, vec!["a\n", "Error: Permission denied (os error 13)\n"]);
    assert!(matches!(a.request, Request::CheckDir { .. }));
}

#[test]
fn not_a_directory_is_reported_and_run_continues() {
    let mut r = at_listing();
    let a = r.step(Event::DirChecked(false));
    assert_eq!(a.output, vec!["Error: Is not a directory!\n"]);
    assert!(matches!(a.request, Request::CheckDir { ref path } if path == "src"));
    assert!(!r.is_finished());
    assert_eq!(r.stage(), Stage::CheckSource);
}

#[test]
fn directory_check_result_is_printed() {
    for (flag, line) in [(true, "src exists: true\n"), (false, "src exists: false\n")] {
        let mut r = at_listing();
        r.step(Event::DirChecked(false));
        let a = r.step(Event::DirChecked(flag));
        assert_eq!(a.output, vec![line]);
        assert!(matches!(a.request, Request::CreateDirAll { ref path } if path == NESTED_PARENT));
    }
}

#[test]
fn nested_directory_created_then_exists() {
    let mut first = at_nested();
    let a = first.step(Event::NestedCreated(Ok(())));
    assert_eq!(a.output, vec!["Successfully created directory\n"]);
    assert!(is_exit(&a));
    assert!(first.is_finished());

    let mut second = at_nested();
    let a = second.step(Event::NestedCreated(Err("File exists (os error 17)".to_string())));
    assert_eq!(a.output, vec!["Error: File exists (os error 17)\n"]);
    assert!(is_exit(&a));
    assert!(second.is_finished());
}

#[test]
fn parent_creation_failure_ends_normally() {
    let mut r = at_listing();
    r.step(Event::DirChecked(false));
    r.step(Event::DirChecked(false));
    let a = r.step(Event::ParentsCreated(Err("Not a directory (os error 20)".to_string())));
    assert_eq!(a.output, vec!["Error: Not a directory (os error 20)\n"]);
    assert!(is_exit(&a));
}

#[test]
fn events_out_of_order_are_not_expected() {
    let r = Runner::new();
    assert!(r.expects(&Event::Started));
    assert!(!r.expects(&Event::DirChecked(true)));
    let r = at_listing();
    assert!(r.expects(&Event::DirChecked(true)));
    assert!(!r.expects(&Event::NestedCreated(Ok(()))));
}
