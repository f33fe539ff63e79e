use filter_reload::clipboard::{
    set_clipboard_text, ClipboardCall, ClipboardError, ClipboardWrite, CF_TEXT,
};
use filter_reload::cstring::null_terminated_bytes;

/// Runs a write of `text`, answering the n-th call with the n-th reply, and
/// collects the calls up to the `Return`.
fn run(text: &str, replies: &[bool]) -> Vec<ClipboardCall> {
    let (mut write, mut call) = set_clipboard_text(text);
    let mut calls = Vec::new();
    let mut answered = 0;
    loop {
        let ended = matches!(call, ClipboardCall::Return { .. });
        calls.push(call);
        if ended {
            return calls;
        }
        let reply = replies[answered];
        answered += 1;
        let next = write.step(reply);
        write = next.0;
        call = next.1;
    }
}

#[test]
fn terminated_bytes_are_the_text_and_one_zero() {
    assert_eq!(null_terminated_bytes("abc"), vec![b'a', b'b', b'c', 0]);
    assert_eq!(null_terminated_bytes(""), vec![0]);
    assert_eq!(null_terminated_bytes("/reloaditemfilter").len(), 18);
}

#[test]
fn terminated_bytes_keep_multibyte_text_byte_for_byte() {
    assert_eq!(null_terminated_bytes("é"), vec![0xC3, 0xA9, 0]);
    assert_eq!(null_terminated_bytes("a\0b"), vec![b'a', 0, b'b', 0]);
}

#[test]
fn write_begins_by_acquiring_the_clipboard() {
    let (write, call) = set_clipboard_text("hello");
    assert_eq!(call, ClipboardCall::Open);
    assert_eq!(write, ClipboardWrite::Opening { payload: vec![b'h', b'e', b'l', b'l', b'o', 0] });
}

#[test]
fn successful_write_clears_stores_and_releases() {
    assert_eq!(CF_TEXT, 1);
    assert_eq!(
        run("hello", &[true, true, true, true]),
        vec![
            ClipboardCall::Open,
            ClipboardCall::Clear,
            ClipboardCall::Store { format: 1, payload: vec![b'h', b'e', b'l', b'l', b'o', 0] },
            ClipboardCall::Close,
            ClipboardCall::Return { result: Ok(()) },
        ]
    );
}

#[test]
fn busy_clipboard_ends_the_write_without_touching_it() {
    assert_eq!(
        run("hello", &[false]),
        vec![
            ClipboardCall::Open,
            ClipboardCall::Return { result: Err(ClipboardError::Unavailable) },
        ]
    );
}

#[test]
fn failed_store_still_releases_the_clipboard() {
    assert_eq!(
        run("hello", &[true, true, false, true]),
        vec![
            ClipboardCall::Open,
            ClipboardCall::Clear,
            ClipboardCall::Store { format: 1, payload: vec![b'h', b'e', b'l', b'l', b'o', 0] },
            ClipboardCall::Close,
            ClipboardCall::Return { result: Err(ClipboardError::AllocationFailed) },
        ]
    );
}

#[test]
fn outcomes_of_clear_and_close_decide_nothing() {
    for clear in [false, true] {
        for close in [false, true] {
            let calls = run("x", &[true, clear, true, close]);
            assert_eq!(calls.len(), 5);
            assert_eq!(calls[4], ClipboardCall::Return { result: Ok(()) });
            let calls = run("x", &[true, clear, false, close]);
            assert_eq!(
                calls[4],
                ClipboardCall::Return { result: Err(ClipboardError::AllocationFailed) }
            );
        }
    }
}

#[test]
fn release_comes_exactly_when_the_clipboard_was_acquired() {
    for bits in 0..16u32 {
        let replies: Vec<bool> = (0..4).map(|i| bits & (1 << i) != 0).collect();
        let calls = run("text", &replies);
        let opens = calls.iter().filter(|c| **c == ClipboardCall::Open).count();
        let closes = calls.iter().filter(|c| **c == ClipboardCall::Close).count();
        assert_eq!(opens, 1);
        assert_eq!(closes, if replies[0] { 1 } else { 0 });
        assert!(matches!(calls.last(), Some(ClipboardCall::Return { .. })));
    }
}

#[test]
fn empty_text_is_stored_as_a_lone_terminator() {
    let calls = run("", &[true, true, true, true]);
    assert_eq!(calls[2], ClipboardCall::Store { format: 1, payload: vec![0] });
}

#[test]
fn finished_write_keeps_returning_its_result() {
    let (write, _) = set_clipboard_text("x");
    let (write, call) = write.step(false);
    assert_eq!(call, ClipboardCall::Return { result: Err(ClipboardError::Unavailable) });
    assert_eq!(write, ClipboardWrite::Finished { result: Err(ClipboardError::Unavailable) });
    let (write, call) = write.step(true);
    assert_eq!(call, ClipboardCall::Return { result: Err(ClipboardError::Unavailable) });
    assert_eq!(write, ClipboardWrite::Finished { result: Err(ClipboardError::Unavailable) });
}
