use launcher::archive::split_lines;
use launcher::archive::LocalArchiver;

#[test]
fn local_archive_path() {
    let archiver = LocalArchiver(String::from("/archive"));
    let job_id: u64 = 722543779847979008;
    let expected_path = String::from("/archive/0a/6b/ef/ac/722543779847979008.log");
    let actual_path = archiver.archive_path(job_id);
    assert_eq!(actual_path, expected_path);
}

#[test]
fn archive_path_small_id() {
    // Single-digit ids must still produce zero-padded directory names.
    let archiver = LocalArchiver(String::from("/logs"));
    let p = archiver.archive_path(7);
    assert!(p.starts_with("/logs/"));
    assert!(p.ends_with("/7.log"));
    // root + "/" + 4 levels of "xx/" + "7.log"
    assert_eq!(p.len(), "/logs/".len() + 4 * 3 + "7.log".len());
}

fn lines_as_strings(bytes: &[u8]) -> Vec<String> {
    split_lines(bytes)
        .into_iter()
        .map(|l| String::from_utf8(l).unwrap())
        .collect()
}

#[test]
fn split_lines_mixed_endings() {
    let got = lines_as_strings(b"one\ntwo\r\nthree");
    assert_eq!(got, vec!["one".to_string(), "two".to_string(), "three".to_string()]);
}

#[test]
fn split_lines_trailing_newline_adds_no_line() {
    let got = lines_as_strings(b"alpha\nbeta\n");
    assert_eq!(got, vec!["alpha".to_string(), "beta".to_string()]);
}

#[test]
fn split_lines_empty_input() {
    let got = lines_as_strings(b"");
    assert_eq!(got, Vec::<String>::new());
}

#[test]
fn split_lines_keeps_lone_carriage_return() {
    let got = lines_as_strings(b"tail\r");
    assert_eq!(got, vec!["tail\r".to_string()]);
}

#[test]
fn split_lines_empty_lines_between_newlines() {
    let got = lines_as_strings(b"a\n\nb");
    assert_eq!(got, vec!["a".to_string(), String::new(), "b".to_string()]);
}
