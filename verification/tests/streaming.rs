use confessional_engine::stream::StreamParser;

fn frame(content: &str) -> String {
    format!("data: {{\"choices\":[{{\"delta\":{{\"content\":\"{}\"}}}}]}}\n", content)
}

/// Feed `body` split at the given cut points and collect every increment,
/// the final ones from `finish` included, plus the accumulated text.
fn run_split(body: &[u8], cuts: &[usize]) -> (Vec<String>, String) {
    let mut parser = StreamParser::new();
    let mut increments = Vec::new();
    let mut start = 0;
    for &cut in cuts {
        increments.extend(parser.feed(&body[start..cut]));
        start = cut;
    }
    increments.extend(parser.feed(&body[start..]));
    let (last, full) = parser.finish();
    increments.extend(last);
    (increments, full)
}

#[test]
fn increments_arrive_in_order_and_accumulate() {
    let body = format!("{}{}{}", frame("Hel"), frame("lo "), frame("world"));
    let (incs, full) = run_split(body.as_bytes(), &[]);
    assert_eq!(incs, vec!["Hel", "lo ", "world"]);
    assert_eq!(full, "Hello world");
}

#[test]
fn arbitrary_chunk_boundaries_change_nothing() {
    let body = format!("{}{}{}", frame("one"), frame(" two"), frame(" three"));
    let bytes = body.as_bytes();
    let whole = run_split(bytes, &[]);
    assert_eq!(whole.1, "one two three");
    // split mid-prefix, mid-json, and right on a newline
    for cuts in [vec![3], vec![10, 20, 21], vec![body.find('\n').unwrap() + 1]] {
        assert_eq!(run_split(bytes, &cuts), whole);
    }
    // every single-byte chunk
    let every: Vec<usize> = (1..bytes.len()).collect();
    assert_eq!(run_split(bytes, &every), whole);
}

#[test]
fn split_inside_a_multibyte_character_changes_nothing() {
    let body = frame("caf\\u00e9 ☕");
    let bytes = body.as_bytes();
    let whole = run_split(bytes, &[]);
    assert_eq!(whole.1, "café ☕");
    let cup_start = body.find('☕').unwrap();
    assert_eq!(run_split(bytes, &[cup_start + 1]), whole);
    assert_eq!(run_split(bytes, &[cup_start + 2]), whole);
}

#[test]
fn done_sentinel_is_advisory_not_terminal() {
    let body = format!("{}data: [DONE]\n{}", frame("before"), frame("after"));
    let (incs, full) = run_split(body.as_bytes(), &[]);
    assert_eq!(incs, vec!["before", "after"]);
    assert_eq!(full, "beforeafter");
}

#[test]
fn malformed_frames_are_skipped_silently() {
    let body = format!(
        "{}data: {{broken json\ndata: 42\n{}",
        frame("a"),
        frame("b")
    );
    let (incs, full) = run_split(body.as_bytes(), &[]);
    assert_eq!(incs, vec!["a", "b"]);
    assert_eq!(full, "ab");
}

#[test]
fn lines_without_data_prefix_yield_nothing() {
    let body = format!(
        ": comment\nevent: message\n\n{}id: 7\n",
        frame("only")
    );
    let (incs, full) = run_split(body.as_bytes(), &[]);
    assert_eq!(incs, vec!["only"]);
    assert_eq!(full, "only");
}

#[test]
fn frames_of_other_shapes_yield_no_increment() {
    let body = "data: {\"choices\":[{\"message\":{\"content\":\"x\"}}]}\n\
                data: {\"choices\":[]}\n\
                data: {\"done\":true}\n";
    let (incs, full) = run_split(body.as_bytes(), &[]);
    assert!(incs.is_empty());
    assert_eq!(full, "");
}

#[test]
fn trailing_unterminated_line_is_processed_at_close() {
    let terminated = frame("tail");
    let body = terminated.trim_end_matches('\n');
    let mut parser = StreamParser::new();
    assert!(parser.feed(body.as_bytes()).is_empty());
    let (last, full) = parser.finish();
    assert_eq!(last, vec!["tail"]);
    assert_eq!(full, "tail");
}

#[test]
fn carriage_returns_are_stripped_from_line_ends() {
    let body = "data: {\"choices\":[{\"delta\":{\"content\":\"crlf\"}}]}\r\n";
    let (incs, full) = run_split(body.as_bytes(), &[]);
    assert_eq!(incs, vec!["crlf"]);
    assert_eq!(full, "crlf");
}

#[test]
fn accumulated_text_tracks_completed_lines() {
    let mut parser = StreamParser::new();
    parser.feed(frame("left").as_bytes());
    assert_eq!(parser.accumulated().as_str(), "left");
    parser.feed(b"data: ");
    assert_eq!(parser.accumulated().as_str(), "left");
    parser.feed(b"{\"choices\":[{\"delta\":{\"content\":\"-right\"}}]}\n");
    assert_eq!(parser.accumulated().as_str(), "left-right");
    let (last, full) = parser.finish();
    assert!(last.is_empty());
    assert_eq!(full, "left-right");
}

#[test]
fn empty_body_yields_nothing() {
    let mut parser = StreamParser::new();
    assert!(parser.feed(b"").is_empty());
    let (last, full) = parser.finish();
    assert!(last.is_empty());
    assert_eq!(full, "");
}
