use r2pipe::atoi;
use r2pipe::session::env_fd;
use r2pipe::session::in_session_from;
use r2pipe::session::spawn_should_open;
use r2pipe::session::windows_pipe_path;

#[test]
fn atoi_reads_plain_numbers() {
    assert_eq!(atoi("0"), 0);
    assert_eq!(atoi("123"), 123);
    assert_eq!(atoi("7"), 7);
}

#[test]
fn atoi_reads_signed_numbers() {
    assert_eq!(atoi("-45"), -45);
    assert_eq!(atoi("+45"), 45);
    assert_eq!(atoi("-1"), -1);
}

#[test]
fn atoi_rejects_malformed_input() {
    assert_eq!(atoi(""), -1);
    assert_eq!(atoi("q"), -1);
    assert_eq!(atoi("12a"), -1);
    assert_eq!(atoi(" 1"), -1);
    assert_eq!(atoi("1 "), -1);
    assert_eq!(atoi("+"), -1);
    assert_eq!(atoi("-"), -1);
    assert_eq!(atoi("--1"), -1);
    assert_eq!(atoi("1.5"), -1);
}

#[test]
fn atoi_handles_the_32_bit_limits() {
    assert_eq!(atoi("2147483647"), 2147483647);
    assert_eq!(atoi("-2147483648"), -2147483648);
    assert_eq!(atoi("2147483648"), -1);
    assert_eq!(atoi("-2147483649"), -1);
    assert_eq!(atoi("99999999999999999999"), -1);
}

#[test]
fn env_fd_resolves_markers() {
    assert_eq!(env_fd(&None), -1);
    assert_eq!(env_fd(&Some("5".to_string())), 5);
    assert_eq!(env_fd(&Some("weird".to_string())), -1);
}

#[test]
fn session_needs_both_markers() {
    assert_eq!(
        in_session_from(&Some("3".to_string()), &Some("4".to_string())),
        Some((3, 4))
    );
    assert_eq!(in_session_from(&None, &Some("4".to_string())), None);
    assert_eq!(in_session_from(&Some("3".to_string()), &None), None);
    assert_eq!(in_session_from(&None, &None), None);
}

#[test]
fn session_rejects_non_numeric_markers() {
    assert_eq!(in_session_from(&Some("three".to_string()), &Some("4".to_string())), None);
    assert_eq!(in_session_from(&Some("3".to_string()), &Some("".to_string())), None);
}

#[test]
fn session_rejects_negative_descriptors() {
    assert_eq!(in_session_from(&Some("-2".to_string()), &Some("4".to_string())), None);
}

#[test]
fn pipe_path_marker_gets_the_named_pipe_root() {
    assert_eq!(windows_pipe_path("r2pipe.4242"), "\\\\.\\pipe\\r2pipe.4242");
}

#[test]
fn spawn_delegates_only_for_empty_name_with_session() {
    assert!(spawn_should_open("", true));
    assert!(!spawn_should_open("", false));
    assert!(!spawn_should_open("/bin/ls", true));
    assert!(!spawn_should_open("/bin/ls", false));
}
