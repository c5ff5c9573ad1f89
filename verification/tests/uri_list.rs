use druid_core::uri_list::decode_uri_list;

#[test]
fn one_file_per_line() {
    let paths = decode_uri_list(b"file:///home/a.txt\nfile:///home/b.txt\n");
    assert_eq!(paths, vec!["/home/a.txt".to_string(), "/home/b.txt".to_string()]);
}

#[test]
fn the_last_line_needs_no_line_feed() {
    let paths = decode_uri_list(b"file:///a\nfile:///b");
    assert_eq!(paths, vec!["/a".to_string(), "/b".to_string()]);
}

#[test]
fn carriage_return_before_line_feed_is_part_of_the_line_ending() {
    let paths = decode_uri_list(b"file:///a\r\nfile:///b\r\n");
    assert_eq!(paths, vec!["/a".to_string(), "/b".to_string()]);
}

#[test]
fn carriage_return_without_line_feed_is_part_of_the_line() {
    let paths = decode_uri_list(b"file:///a\rb\nfile:///c\r");
    assert_eq!(paths, vec!["/a\rb".to_string(), "/c\r".to_string()]);
}

#[test]
fn a_line_that_names_no_file_is_passed_over() {
    let paths = decode_uri_list(b"file:///a\nnot a uri\nfile:///b\n");
    assert_eq!(paths, vec!["/a".to_string(), "/b".to_string()]);
}

#[test]
fn comments_empty_lines_and_other_schemes_are_passed_over() {
    let paths = decode_uri_list(b"# a comment\n\nhttp://example.org/x\nfile://\nfile:/short\nfile:///kept\n");
    assert_eq!(paths, vec!["".to_string(), "/kept".to_string()]);
}

#[test]
fn an_empty_payload_names_no_file() {
    assert_eq!(decode_uri_list(b""), Vec::<String>::new());
    assert_eq!(decode_uri_list(b"\n\n"), Vec::<String>::new());
}

#[test]
fn a_line_whose_path_is_not_text_is_passed_over() {
    let mut payload = b"file:///a\nfile:///".to_vec();
    payload.push(0xff);
    payload.extend_from_slice(b"\nfile:///b\n");
    assert_eq!(decode_uri_list(&payload), vec!["/a".to_string(), "/b".to_string()]);
}

#[test]
fn paths_keep_their_characters() {
    let paths = decode_uri_list("file:///home/jörg/ä b.txt\n".as_bytes());
    assert_eq!(paths, vec!["/home/jörg/ä b.txt".to_string()]);
}
