//! Newline-delimited frames, with a bound on what one frame may cost.

use vstd::prelude::*;

verus! {

/// The longest frame that is read, its newline included.
pub const MAX_FRAME_BYTES: u64 = 16777216;

pub const NEWLINE: u8 = 10;

/// What a managed host can discover of this harness.
pub const HARNESS_CAPABILITIES: [&'static str; 8] = [
    "sessions",
    "streaming",
    "cancellation",
    "soft_interrupt",
    "stdin_requests",
    "history",
    "model_catalog",
    "usage",
];

/// Why no frame was read.
#[derive(Clone, Copy, Debug, PartialEq, Eq, Structural)]
pub enum FrameError {
    /// No newline came within the bound.
    TooLong,
}

impl FrameError {
    /// The words in which the error is shown.
    pub open spec fn words(self) -> Seq<char> {
        "frame exceeds the size limit"@
    }

    /// The words in which the error is shown.
    pub fn message(self) -> (message: &'static str)
        ensures
            message@ == self.words(),
    {
        "frame exceeds the size limit"
    }
}

/// The length of the frame at the start of some bytes: up to and with the first newline, or
/// everything where there is none.
pub open spec fn frame_length(bytes: Seq<u8>) -> nat
    decreases bytes.len(),
{
    if bytes.len() == 0 {
        0
    } else if bytes[0] == NEWLINE {
        1
    } else {
        1 + frame_length(bytes.skip(1))
    }
}

/// Whether the frame at the start of some bytes is read: it ends with a newline within the bound,
/// or the bytes end before the bound.
pub open spec fn accepts(bytes: Seq<u8>) -> bool {
    let length = frame_length(bytes);
    length < MAX_FRAME_BYTES || length == MAX_FRAME_BYTES && bytes[length - 1] == NEWLINE
}

/// Reads the frame that starts at a place of the input into `line`, whatever `line` held, and
/// gives its length; zero means that the input is at its end. A frame that is too long is
/// refused, and no more of it than the bound is kept.
pub fn read_frame(input: &Vec<u8>, from: usize, line: &mut Vec<u8>) -> (read: Result<
    usize,
    FrameError,
>)
    requires
        from <= input@.len(),
    ensures
        match read {
            Ok(length) => {
                &&& accepts(input@.skip(from as int))
                &&& length == frame_length(input@.skip(from as int))
                &&& final(line)@ == input@.subrange(from as int, from + length)
            },
            Err(error) => {
                &&& !accepts(input@.skip(from as int))
                &&& error == FrameError::TooLong
                &&& final(line)@ == input@.subrange(from as int, from + MAX_FRAME_BYTES)
            },
        },
{
    line.clear();
    let ghost bytes = input@.skip(from as int);
    let mut at: usize = from;
    proof {
        assert(bytes.skip(0) =~= bytes);
    }
    while at < input.len()
        invariant
            from <= at <= input@.len(),
            bytes == input@.skip(from as int),
            line@ == input@.subrange(from as int, at as int),
            frame_length(bytes) == (at - from) + frame_length(bytes.skip(at - from)),
            at - from < MAX_FRAME_BYTES,
        decreases input@.len() - at,
    {
        let byte = input[at];
        proof {
            let rest = bytes.skip(at - from);
            assert(rest[0] == byte);
            assert(rest.skip(1) =~= bytes.skip(at + 1 - from));
            assert(input@.subrange(from as int, at + 1) =~= input@.subrange(
                from as int,
                at as int,
            ).push(byte));
        }
        line.push(byte);
        at += 1;
        if byte == NEWLINE {
            return Ok(at - from);
        }
        if (at - from) as u64 == MAX_FRAME_BYTES {
            return Err(FrameError::TooLong);
        }
    }
    Ok(at - from)
}

/// A frame is never longer than what is left, and is empty only where nothing is left.
pub proof fn frames_make_progress(bytes: Seq<u8>)
    ensures
        frame_length(bytes) <= bytes.len(),
        bytes.len() > 0 ==> frame_length(bytes) > 0,
    decreases bytes.len(),
{
    if bytes.len() > 0 && bytes[0] != NEWLINE {
        frames_make_progress(bytes.skip(1));
    }
}

/// Frames are split on newlines: a newline stands in a frame at its end only, and every frame but
/// the last of the input ends with one.
pub proof fn frames_end_at_newlines(bytes: Seq<u8>)
    ensures
        forall|i: int|
            0 <= i < frame_length(bytes) - 1 ==> (#[trigger] bytes[i]) != NEWLINE,
        0 < frame_length(bytes) < bytes.len() ==> bytes[frame_length(bytes) - 1] == NEWLINE,
    decreases bytes.len(),
{
    if bytes.len() > 0 && bytes[0] != NEWLINE {
        let rest = bytes.skip(1);
        frames_end_at_newlines(rest);
        frames_make_progress(rest);
        assert forall|i: int| 0 <= i < frame_length(bytes) - 1 implies (#[trigger] bytes[i])
            != NEWLINE by {
            if i > 0 {
                assert(rest[i - 1] == bytes[i]);
            }
        }
        if frame_length(bytes) < bytes.len() {
            assert(rest[frame_length(rest) - 1] == bytes[frame_length(bytes) - 1]);
        }
    }
}

/// The frames of some bytes, in order.
pub open spec fn frames(bytes: Seq<u8>) -> Seq<Seq<u8>>
    decreases bytes.len(),
    via frames_end
{
    if bytes.len() == 0 {
        Seq::empty()
    } else {
        let length = frame_length(bytes) as int;
        seq![bytes.take(length)] + frames(bytes.skip(length))
    }
}

#[via_fn]
proof fn frames_end(bytes: Seq<u8>) {
    frames_make_progress(bytes);
}

/// No byte is lost or invented: the frames put together are the input.
pub proof fn frames_make_up_the_input(bytes: Seq<u8>)
    ensures
        frames(bytes).flatten() == bytes,
    decreases bytes.len(),
{
    if bytes.len() == 0 {
        assert(frames(bytes).flatten() =~= bytes);
    } else {
        let length = frame_length(bytes) as int;
        frames_make_progress(bytes);
        let first = bytes.take(length);
        let rest = bytes.skip(length);
        frames_make_up_the_input(rest);
        let all = frames(bytes);
        assert(all.first() == first);
        assert(all.drop_first() =~= frames(rest));
        assert(first + rest =~= bytes);
    }
}

/// A frame reaches up to and with the first newline, and to the end of the input where there is
/// none.
pub proof fn frame_reaches_to_the_first_newline(bytes: Seq<u8>, place: int)
    ensures
        0 <= place < bytes.len() && bytes[place] == 10 && (forall|i: int|
            0 <= i < place ==> #[trigger] bytes[i] != 10) ==> frame_length(bytes) == place + 1,
        (forall|i: int| 0 <= i < bytes.len() ==> #[trigger] bytes[i] != 10) ==> frame_length(bytes)
            == bytes.len(),
    decreases bytes.len(),
{
    if bytes.len() > 0 && bytes[0] != 10 {
        let rest = bytes.skip(1);
        frame_reaches_to_the_first_newline(rest, place - 1);
        if 0 <= place < bytes.len() && bytes[place] == 10 && (forall|i: int|
            0 <= i < place ==> #[trigger] bytes[i] != 10) {
            assert(rest[place - 1] == 10);
            assert forall|i: int| 0 <= i < place - 1 implies #[trigger] rest[i] != 10 by {
                assert(bytes[i + 1] != 10);
            }
        }
        if forall|i: int| 0 <= i < bytes.len() ==> #[trigger] bytes[i] != 10 {
            assert forall|i: int| 0 <= i < rest.len() implies #[trigger] rest[i] != 10 by {
                assert(bytes[i + 1] != 10);
            }
        }
    }
}

/// A frame is read where its newline stands within the first 16777216 bytes, or where the input
/// ends before that many; anything longer is refused.
pub proof fn frames_are_bounded(bytes: Seq<u8>, place: int)
    ensures
        0 <= place < bytes.len() && bytes[place] == 10 && (forall|i: int|
            0 <= i < place ==> #[trigger] bytes[i] != 10) ==> (accepts(bytes) <==> place
            < 16777216),
        (forall|i: int| 0 <= i < bytes.len() ==> #[trigger] bytes[i] != 10) ==> (accepts(bytes)
            <==> bytes.len() < 16777216),
{
    frame_reaches_to_the_first_newline(bytes, place);
}

} // verus!
