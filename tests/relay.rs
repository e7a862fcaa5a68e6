use tttt::relay::{framed_line, write_reply};

#[test]
fn line_is_framed_with_a_line_feed() {
    assert_eq!(framed_line("hello"), "hello\n");
    assert_eq!(framed_line(""), "\n");
}

#[test]
fn reply_reports_bytes_written() {
    assert_eq!(write_reply(6), "Wrote 6 bytes.");
    assert_eq!(write_reply(0), "Wrote 0 bytes.");
    assert_eq!(write_reply(1024), "Wrote 1024 bytes.");
}
