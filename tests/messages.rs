use file_stuff::{
    creation_report, directory_flag_report, entry_line, fatal_message, file_contents_report,
    listing_failure_report, write_report, FileFailure, LOREM_IPSUM,
};

#[test]
fn contents_report_prefixes_path() {
    assert_eq!(file_contents_report("hello.txt", "hi\nthere"), "hello.txt contains:\nhi\nthere");
}

#[test]
fn contents_report_of_empty_file() {
    assert_eq!(file_contents_report("hello.txt", ""), "hello.txt contains:\n");
}

#[test]
fn write_report_names_path() {
    assert_eq!(write_report("out/lorem_ipsum.txt"), "successfully wrote to out/lorem_ipsum.txt\n");
}

#[test]
fn fatal_messages_for_each_failure() {
    let open = FileFailure::Open("No such file or directory (os error 2)".to_string());
    let transfer = FileFailure::Transfer("stream did not contain valid UTF-8".to_string());
    assert_eq!(
        fatal_message(false, "hello.txt", &open),
        "couldn't open hello.txt: No such file or directory (os error 2)"
    );
    assert_eq!(
        fatal_message(false, "hello.txt", &transfer),
        "couldn't read hello.txt: stream did not contain valid UTF-8"
    );
    assert_eq!(
        fatal_message(true, "out/lorem_ipsum.txt", &open),
        "couldn't create out/lorem_ipsum.txt: No such file or directory (os error 2)"
    );
    assert_eq!(
        fatal_message(true, "out/lorem_ipsum.txt", &transfer),
        "couldn't write to out/lorem_ipsum.txt: stream did not contain valid UTF-8"
    );
}

#[test]
fn entry_and_failure_lines() {
    assert_eq!(entry_line("main.rs"), "main.rs\n");
    assert_eq!(entry_line(""), "\n");
    assert_eq!(listing_failure_report("Is not a directory!"), "Error: Is not a directory!\n");
}

#[test]
fn directory_flag_lines() {
    assert_eq!(directory_flag_report("src", true), "src exists: true\n");
    assert_eq!(directory_flag_report("src", false), "src exists: false\n");
}

#[test]
fn creation_reports() {
    assert_eq!(creation_report(&Ok(())), "Successfully created directory\n");
    assert_eq!(
        creation_report(&Err("File exists (os error 17)".to_string())),
        "Error: File exists (os error 17)\n"
    );
}

#[test]
fn fixed_text_is_verbatim() {
    assert!(LOREM_IPSUM.starts_with("Lorem ipsum dolor sit amet, consectetur adipisicing elit"));
    assert!(LOREM_IPSUM.ends_with("id est laborum.\n    "));
    assert_eq!(LOREM_IPSUM.lines().count(), 7);
}
