//! The clipboard writer: which clipboard call comes next while a text is
//! installed as the clipboard's plain-text contents, and how the write ends.
//!
//! The writer makes no call itself. It names the next call, the caller makes
//! it and reports whether it succeeded, and the writer names the one after.

use crate::cstring::{null_terminated, null_terminated_bytes};
use vstd::prelude::*;
use vstd::string::StringSliceAdditionalSpecFns;

verus! {

/// Clipboard format tag of plain text.
pub const CF_TEXT: u32 = 1;

/// Why a clipboard write failed.
#[derive(Clone, Copy, Debug, PartialEq, Eq, Structural)]
pub enum ClipboardError {
    /// The clipboard could not be acquired; nothing was touched.
    Unavailable,
    /// The clipboard was acquired, but the payload could not be installed.
    AllocationFailed,
}

/// The next thing for the caller to do.
#[derive(Debug, PartialEq, Eq)]
pub enum ClipboardCall {
    /// Acquire the clipboard for this process.
    Open,
    /// Empty the clipboard.
    Clear,
    /// Allocate a block of `payload`'s length, copy `payload` into it and
    /// install it as the clipboard's contents in `format`.
    Store { format: u32, payload: Vec<u8> },
    /// Release the clipboard.
    Close,
    /// Make no further call: the write has ended with `result`.
    Return { result: Result<(), ClipboardError> },
}

/// A `ClipboardCall` with its payload as a sequence of bytes.
pub enum ClipboardCallView {
    Open,
    Clear,
    Store { format: u32, payload: Seq<u8> },
    Close,
    Return { result: Result<(), ClipboardError> },
}

impl View for ClipboardCall {
    type V = ClipboardCallView;

    open spec fn view(&self) -> ClipboardCallView {
        match *self {
            ClipboardCall::Open => ClipboardCallView::Open,
            ClipboardCall::Clear => ClipboardCallView::Clear,
            ClipboardCall::Store { format, payload } => ClipboardCallView::Store {
                format,
                payload: payload@,
            },
            ClipboardCall::Close => ClipboardCallView::Close,
            ClipboardCall::Return { result } => ClipboardCallView::Return { result },
        }
    }
}

/// A clipboard write in progress, named by the call whose outcome it waits
/// for.
#[derive(Debug, PartialEq, Eq)]
pub enum ClipboardWrite {
    /// `Open` was issued; `payload` is still to be stored.
    Opening { payload: Vec<u8> },
    /// `Clear` was issued; `payload` is still to be stored.
    Clearing { payload: Vec<u8> },
    /// `Store` was issued.
    Storing,
    /// `Close` was issued; the write will end with `result`.
    Closing { result: Result<(), ClipboardError> },
    /// The write has ended with `result`.
    Finished { result: Result<(), ClipboardError> },
}

/// A `ClipboardWrite` with its payload as a sequence of bytes.
pub enum ClipboardWriteView {
    Opening { payload: Seq<u8> },
    Clearing { payload: Seq<u8> },
    Storing,
    Closing { result: Result<(), ClipboardError> },
    Finished { result: Result<(), ClipboardError> },
}

impl View for ClipboardWrite {
    type V = ClipboardWriteView;

    open spec fn view(&self) -> ClipboardWriteView {
        match *self {
            ClipboardWrite::Opening { payload } => ClipboardWriteView::Opening { payload: payload@ },
            ClipboardWrite::Clearing { payload } => ClipboardWriteView::Clearing {
                payload: payload@,
            },
            ClipboardWrite::Storing => ClipboardWriteView::Storing,
            ClipboardWrite::Closing { result } => ClipboardWriteView::Closing { result },
            ClipboardWrite::Finished { result } => ClipboardWriteView::Finished { result },
        }
    }
}

/// How a write of the text with bytes `text` begins: the payload is the text
/// with its terminating zero byte, and the first call acquires the clipboard.
pub open spec fn clipboard_begin(text: Seq<u8>) -> (ClipboardWriteView, ClipboardCallView) {
    (ClipboardWriteView::Opening { payload: null_terminated(text) }, ClipboardCallView::Open)
}

/// How a write goes on once the pending call has `succeeded` or not.
///
/// Only two outcomes decide anything. A failed `Open` ends the write at once
/// with `Unavailable`, and no further call is made. A failed `Store` makes
/// the write end with `AllocationFailed`, after the clipboard is released.
/// The outcomes of `Clear` and `Close` are not looked at.
pub open spec fn clipboard_step(state: ClipboardWriteView, succeeded: bool) -> (
    ClipboardWriteView,
    ClipboardCallView,
) {
    match state {
        ClipboardWriteView::Opening { payload } => if succeeded {
            (ClipboardWriteView::Clearing { payload }, ClipboardCallView::Clear)
        } else {
            (
                ClipboardWriteView::Finished { result: Err(ClipboardError::Unavailable) },
                ClipboardCallView::Return { result: Err(ClipboardError::Unavailable) },
            )
        },
        ClipboardWriteView::Clearing { payload } => (
            ClipboardWriteView::Storing,
            ClipboardCallView::Store { format: CF_TEXT, payload },
        ),
        ClipboardWriteView::Storing => {
            let result = if succeeded {
                Ok(())
            } else {
                Err(ClipboardError::AllocationFailed)
            };
            (ClipboardWriteView::Closing { result }, ClipboardCallView::Close)
        },
        ClipboardWriteView::Closing { result } => (
            ClipboardWriteView::Finished { result },
            ClipboardCallView::Return { result },
        ),
        ClipboardWriteView::Finished { result } => (
            ClipboardWriteView::Finished { result },
            ClipboardCallView::Return { result },
        ),
    }
}

/// Begins the write of `text` to the clipboard: prepares the payload, the
/// bytes of `text` followed by a zero byte, and asks for the clipboard to be
/// acquired.
pub fn set_clipboard_text(text: &str) -> (begun: (ClipboardWrite, ClipboardCall))
    ensures
        (begun.0@, begun.1@) == clipboard_begin(text.spec_bytes()),
{
    (ClipboardWrite::Opening { payload: null_terminated_bytes(text) }, ClipboardCall::Open)
}

impl ClipboardWrite {
    /// Takes the outcome of the pending call and names the next one, as
    /// `clipboard_step` says.
    pub fn step(self, succeeded: bool) -> (next: (ClipboardWrite, ClipboardCall))
        ensures
            (next.0@, next.1@) == clipboard_step(self@, succeeded),
    {
        match self {
            ClipboardWrite::Opening { payload } => {
                if succeeded {
                    (ClipboardWrite::Clearing { payload }, ClipboardCall::Clear)
                } else {
                    (
                        ClipboardWrite::Finished { result: Err(ClipboardError::Unavailable) },
                        ClipboardCall::Return { result: Err(ClipboardError::Unavailable) },
                    )
                }
            },
            ClipboardWrite::Clearing { payload } => (
                ClipboardWrite::Storing,
                ClipboardCall::Store { format: CF_TEXT, payload },
            ),
            ClipboardWrite::Storing => {
                let result = if succeeded {
                    Ok(())
                } else {
                    Err(ClipboardError::AllocationFailed)
                };
                (ClipboardWrite::Closing { result }, ClipboardCall::Close)
            },
            ClipboardWrite::Closing { result } => (
                ClipboardWrite::Finished { result },
                ClipboardCall::Return { result },
            ),
            ClipboardWrite::Finished { result } => (
                ClipboardWrite::Finished { result },
                ClipboardCall::Return { result },
            ),
        }
    }
}

/// The calls of a write from `pending` on, where the caller answers them with
/// `replies`, one reply for each call in turn: `pending` first, then what
/// `clipboard_step` names after each reply, up to the `Return` or the call
/// that the replies leave unanswered.
pub open spec fn clipboard_calls(
    state: ClipboardWriteView,
    pending: ClipboardCallView,
    replies: Seq<bool>,
) -> Seq<ClipboardCallView>
    decreases replies.len(),
{
    if pending is Return || replies.len() == 0 {
        seq![pending]
    } else {
        let (next, call) = clipboard_step(state, replies[0]);
        seq![pending] + clipboard_calls(next, call, replies.drop_first())
    }
}

/// The calls of the write of `text`, from its beginning, under `replies`.
pub open spec fn clipboard_run(text: Seq<u8>, replies: Seq<bool>) -> Seq<ClipboardCallView> {
    clipboard_calls(clipboard_begin(text).0, clipboard_begin(text).1, replies)
}

/// The clipboard as the laws below read it: whether this process holds it,
/// and its plain-text contents, if it has any.
pub struct Clipboard {
    pub held: bool,
    pub text: Option<Seq<u8>>,
}

/// What one call does to the clipboard. A successful `Open` acquires it; a
/// successful `Clear` or `Store` of plain text, made while it is held,
/// replaces its text; `Close` releases it. A call that failed leaves it as it
/// was.
pub open spec fn clipboard_effect(
    before: Clipboard,
    call: ClipboardCallView,
    succeeded: bool,
) -> Clipboard {
    match call {
        ClipboardCallView::Open => if succeeded {
            Clipboard { held: true, text: before.text }
        } else {
            before
        },
        ClipboardCallView::Clear => if before.held && succeeded {
            Clipboard { held: true, text: None }
        } else {
            before
        },
        ClipboardCallView::Store { format, payload } => if before.held && succeeded && format
            == CF_TEXT {
            Clipboard { held: true, text: Some(payload) }
        } else {
            before
        },
        ClipboardCallView::Close => Clipboard { held: false, text: before.text },
        ClipboardCallView::Return { result } => before,
    }
}

/// The clipboard after `calls` were made in order, the n-th answered by the
/// n-th of `replies`. A call without a reply has not been made yet.
pub open spec fn clipboard_after(
    before: Clipboard,
    calls: Seq<ClipboardCallView>,
    replies: Seq<bool>,
) -> Clipboard
    decreases calls.len(),
{
    if calls.len() == 0 || replies.len() == 0 {
        before
    } else {
        clipboard_after(
            clipboard_effect(before, calls[0], replies[0]),
            calls.drop_first(),
            replies.drop_first(),
        )
    }
}

/// Whether `replies` holds an answer to the call at position `n` of a run, and
/// that answer is that the call succeeded.
pub open spec fn succeeded_at(replies: Seq<bool>, n: int) -> bool {
    0 <= n < replies.len() && replies[n]
}

/// The three courses that a write of `text` can take, by whether the
/// clipboard was acquired and whether the payload was stored. Where the
/// clipboard cannot be acquired, nothing else is called. Where it can, it is
/// cleared, the text with its terminating zero is stored as plain text, and
/// the clipboard is released, whether the store succeeded or not.
pub open spec fn clipboard_course(text: Seq<u8>, acquired: bool, stored: bool) -> Seq<
    ClipboardCallView,
> {
    if !acquired {
        seq![
            ClipboardCallView::Open,
            ClipboardCallView::Return { result: Err(ClipboardError::Unavailable) },
        ]
    } else {
        seq![
            ClipboardCallView::Open,
            ClipboardCallView::Clear,
            ClipboardCallView::Store { format: CF_TEXT, payload: null_terminated(text) },
            ClipboardCallView::Close,
            ClipboardCallView::Return {
                result: if stored {
                    Ok(())
                } else {
                    Err(ClipboardError::AllocationFailed)
                },
            },
        ]
    }
}

/// Whatever the replies, a write follows the course that the outcomes of
/// `Open`, the first call, and of `Store`, the third, decide, as far as the
/// replies reach: the run holds one call more than was answered, and no call
/// after the `Return`.
pub proof fn law_clipboard_write_courses(text: Seq<u8>, replies: Seq<bool>)
    ensures
        ({
            let course = clipboard_course(
                text,
                succeeded_at(replies, 0),
                succeeded_at(replies, 2),
            );
            clipboard_run(text, replies) == if replies.len() + 1 < course.len() {
                course.take(replies.len() + 1 as int)
            } else {
                course
            }
        }),
{
    reveal_with_fuel(clipboard_calls, 6);
    let run = clipboard_run(text, replies);
    let course = clipboard_course(text, succeeded_at(replies, 0), succeeded_at(replies, 2));
    if replies.len() == 0 {
        assert(run =~= course.take(1));
    } else if !replies[0] {
        assert(run =~= course);
    } else {
        let r1 = replies.drop_first();
        if r1.len() == 0 {
            assert(run =~= course.take(2));
        } else {
            let r2 = r1.drop_first();
            if r2.len() == 0 {
                assert(run =~= course.take(3));
            } else {
                assert(r2[0] == replies[2]);
                let r3 = r2.drop_first();
                if r3.len() == 0 {
                    assert(run =~= course.take(4));
                } else {
                    assert(run =~= course);
                }
            }
        }
    }
}

/// A write leaves the clipboard's text in one of three states and never in
/// any other, not even midway: holding exactly the text with its terminating
/// zero; empty; or what it held before. Once the write has ended, the
/// clipboard holds the text when and only when the write ended well. A write
/// that ended with `Unavailable` has left the clipboard's text untouched, and
/// one that ended with `AllocationFailed` has left it empty, or untouched
/// where the clearing failed too.
pub proof fn law_clipboard_write_is_all_or_nothing(
    before: Clipboard,
    text: Seq<u8>,
    replies: Seq<bool>,
)
    requires
        !before.held,
    ensures
        ({
            let run = clipboard_run(text, replies);
            let after = clipboard_after(before, run, replies);
            &&& forall|n: int|
                0 <= n <= run.len() ==> {
                    let midway = #[trigger] clipboard_after(before, run.take(n), replies);
                    ||| midway.text == before.text
                    ||| midway.text == None::<Seq<u8>>
                    ||| midway.text == Some(null_terminated(text))
                }
            &&& run.last() matches ClipboardCallView::Return { result } ==> match result {
                Ok(()) => after.text == Some(null_terminated(text)),
                Err(ClipboardError::Unavailable) => after.text == before.text,
                Err(ClipboardError::AllocationFailed) => after.text == if replies[1] {
                    None
                } else {
                    before.text
                },
            }
        }),
{
    law_clipboard_write_courses(text, replies);
    reveal_with_fuel(clipboard_after, 6);
    let run = clipboard_run(text, replies);
    assert forall|n: int| 0 <= n <= run.len() implies {
        let midway = #[trigger] clipboard_after(before, run.take(n), replies);
        ||| midway.text == before.text
        ||| midway.text == None::<Seq<u8>>
        ||| midway.text == Some(null_terminated(text))
    } by {
        lemma_clipboard_text_is_never_partial(before, text, run.take(n), replies);
    }
    if run.last() is Return && replies.len() >= 1 && replies[0] {
        let r1 = replies.drop_first();
        let r2 = r1.drop_first();
        assert(r1[0] == replies[1]);
        assert(r2[0] == replies[2]);
    }
}

/// Calls that only ever store the terminated `text` leave the clipboard's
/// text as it was, empty, or holding exactly that.
proof fn lemma_clipboard_text_is_never_partial(
    before: Clipboard,
    text: Seq<u8>,
    calls: Seq<ClipboardCallView>,
    replies: Seq<bool>,
)
    requires
        forall|i: int|
            0 <= i < calls.len() ==> ((#[trigger] calls[i]) matches ClipboardCallView::Store {
                format,
                payload,
            } ==> payload == null_terminated(text)),
    ensures
        ({
            let after = clipboard_after(before, calls, replies);
            ||| after.text == before.text
            ||| after.text == None::<Seq<u8>>
            ||| after.text == Some(null_terminated(text))
        }),
    decreases calls.len(),
{
    if calls.len() == 0 || replies.len() == 0 {
    } else {
        let next = clipboard_effect(before, calls[0], replies[0]);
        assert forall|i: int| 0 <= i < calls.drop_first().len() implies ((
        #[trigger] calls.drop_first()[i]) matches ClipboardCallView::Store { format, payload }
            ==> payload == null_terminated(text)) by {
            assert(calls.drop_first()[i] == calls[i + 1]);
        }
        lemma_clipboard_text_is_never_partial(next, text, calls.drop_first(), replies.drop_first());
        lemma_clipboard_text_is_never_partial(
            Clipboard { held: next.held, text: None },
            text,
            calls.drop_first(),
            replies.drop_first(),
        );
        lemma_clipboard_text_is_never_partial(
            Clipboard { held: next.held, text: Some(null_terminated(text)) },
            text,
            calls.drop_first(),
            replies.drop_first(),
        );
    }
}

/// When a write has run to its end, however it ended, the clipboard is
/// released, so that the next caller can acquire it. It is held after the
/// first three calls of a write that acquired it, and at no other time.
pub proof fn law_clipboard_is_released(before: Clipboard, text: Seq<u8>, replies: Seq<bool>)
    requires
        !before.held,
        clipboard_run(text, replies).last() is Return,
    ensures
        !clipboard_after(before, clipboard_run(text, replies), replies).held,
        forall|n: int|
            0 <= n <= clipboard_run(text, replies).len() ==> (#[trigger] clipboard_after(
                before,
                clipboard_run(text, replies).take(n),
                replies,
            )).held == (replies[0] && 1 <= n <= 3),
{
    law_clipboard_write_courses(text, replies);
    reveal_with_fuel(clipboard_after, 6);
    let run = clipboard_run(text, replies);
    assert forall|n: int| 0 <= n <= run.len() implies (#[trigger] clipboard_after(
        before,
        run.take(n),
        replies,
    )).held == (replies[0] && 1 <= n <= 3) by {
        let calls = run.take(n);
        if n >= 1 {
            assert(calls[0] == run[0]);
            let c1 = calls.drop_first();
            if n >= 2 {
                assert(c1[0] == run[1]);
                let c2 = c1.drop_first();
                if n >= 3 {
                    assert(c2[0] == run[2]);
                    let c3 = c2.drop_first();
                    if n >= 4 {
                        assert(c3[0] == run[3]);
                        let c4 = c3.drop_first();
                        if n >= 5 {
                            assert(c4[0] == run[4]);
                        }
                    }
                }
            }
        }
    }
    assert(run.take(run.len() as int) =~= run);
}

} // verus!
