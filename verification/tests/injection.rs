use stdout_dup::appender::StdoutAppender;
use stdout_dup::engine::injection_bytes;

#[test]
fn one_trailing_newline_is_appended() {
    assert_eq!(injection_bytes("note: retrying"), b"note: retrying\n".to_vec());
}

#[test]
fn empty_line_becomes_bare_newline() {
    assert_eq!(injection_bytes(""), b"\n".to_vec());
}

#[test]
fn inner_newlines_are_kept_and_one_is_added() {
    assert_eq!(injection_bytes("a\nb"), b"a\nb\n".to_vec());
}

#[test]
fn non_ascii_lines_are_framed_as_utf8() {
    assert_eq!(injection_bytes("caf\u{e9}"), "caf\u{e9}\n".as_bytes().to_vec());
}

#[test]
fn appended_lines_reach_the_queue() {
    let (tx, mut rx) = tokio::sync::mpsc::unbounded_channel::<String>();
    let appender = StdoutAppender::from_sender(tx);
    appender.append_line(String::from("note: retrying"));
    assert_eq!(rx.try_recv().ok().as_deref(), Some("note: retrying"));
}

#[test]
fn cloned_appender_feeds_the_same_queue() {
    let (tx, mut rx) = tokio::sync::mpsc::unbounded_channel::<String>();
    let appender = StdoutAppender::from_sender(tx);
    let second = appender.clone();
    second.append_line(String::from("from the clone"));
    appender.append_line(String::from("from the first"));
    assert_eq!(rx.try_recv().ok().as_deref(), Some("from the clone"));
    assert_eq!(rx.try_recv().ok().as_deref(), Some("from the first"));
}

#[test]
fn appending_after_shutdown_is_a_silent_no_op() {
    let (tx, rx) = tokio::sync::mpsc::unbounded_channel::<String>();
    let appender = StdoutAppender::from_sender(tx);
    drop(rx);
    appender.append_line(String::from("dropped"));
}
