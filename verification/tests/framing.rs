use operator_cockpit::framing::{
    read_frame, FrameError, HARNESS_CAPABILITIES, MAX_FRAME_BYTES,
};

fn read_all(input: &str) -> Vec<Result<String, FrameError>> {
    let bytes = input.as_bytes().to_vec();
    let mut out = Vec::new();
    let mut at = 0;
    loop {
        let mut line = Vec::new();
        match read_frame(&bytes, at, &mut line) {
            Ok(0) => return out,
            Ok(read) => {
                at += read;
                out.push(Ok(String::from_utf8(line).expect("text")));
            }
            Err(error) => {
                out.push(Err(error));
                return out;
            }
        }
    }
}

#[test]
fn frames_are_split_on_newlines() {
    let frames = read_all("{\"a\":1}\n{\"b\":2}\n");
    assert_eq!(frames.len(), 2);
    assert_eq!(frames[0].as_ref().unwrap(), "{\"a\":1}\n");
    assert_eq!(frames[1].as_ref().unwrap(), "{\"b\":2}\n");
}

#[test]
fn a_final_frame_without_a_newline_is_still_returned() {
    let frames = read_all("{\"a\":1}");
    assert_eq!(frames.len(), 1);
    assert_eq!(frames[0].as_ref().unwrap(), "{\"a\":1}");
}

#[test]
fn an_unterminated_frame_is_refused_rather_than_buffered_forever() {
    let endless = vec![b'A'; MAX_FRAME_BYTES as usize + 4096];
    let mut line = Vec::new();
    let error =
        read_frame(&endless, 0, &mut line).expect_err("an endless frame must fail, not buffer");
    assert_eq!(error, FrameError::TooLong);
    assert!(
        error.message().contains("exceeds"),
        "error should say why: {}",
        error.message()
    );
    assert!(
        line.len() as u64 <= MAX_FRAME_BYTES,
        "buffered {} bytes, above the {MAX_FRAME_BYTES} cap",
        line.len()
    );
}

#[test]
fn a_large_but_terminated_frame_is_accepted() {
    let payload = "B".repeat(1024 * 1024);
    let input = format!("{payload}\n").into_bytes();
    let mut line = Vec::new();
    let read = read_frame(&input, 0, &mut line).expect("a 1 MiB frame is legitimate");
    assert_eq!(read, payload.len() + 1);
    assert_eq!(
        String::from_utf8(line).expect("text").trim_end(),
        payload
    );
}

#[test]
fn each_frame_starts_from_a_clean_buffer() {
    let input = b"first\nsecond\n".to_vec();
    let mut line = b"stale contents".to_vec();
    let read = read_frame(&input, 0, &mut line).unwrap();
    assert_eq!(line, b"first\n");
    read_frame(&input, read, &mut line).unwrap();
    assert_eq!(line, b"second\n");
}

#[test]
fn a_frame_of_exactly_the_bound_needs_its_newline() {
    let mut input = vec![b'A'; MAX_FRAME_BYTES as usize];
    let mut line = Vec::new();
    assert_eq!(
        read_frame(&input, 0, &mut line),
        Err(FrameError::TooLong)
    );
    input[MAX_FRAME_BYTES as usize - 1] = b'\n';
    assert_eq!(
        read_frame(&input, 0, &mut line),
        Ok(MAX_FRAME_BYTES as usize)
    );
}

#[test]
fn frames_put_together_are_the_input() {
    let input = "one\n\ntwo\nthree";
    let frames = read_all(input);
    assert_eq!(frames.len(), 4);
    let mut whole = String::new();
    for frame in frames {
        whole.push_str(&frame.unwrap());
    }
    assert_eq!(whole, input);
}

#[test]
fn advertised_capabilities_cover_managed_execution_controls() {
    for required in [
        "sessions",
        "streaming",
        "cancellation",
        "soft_interrupt",
        "stdin_requests",
        "history",
        "model_catalog",
        "usage",
    ] {
        assert!(
            HARNESS_CAPABILITIES.contains(&required),
            "managed hosts require {required} capability discovery"
        );
    }
}
