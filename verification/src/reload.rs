//! The entry point: one invocation of the reload operation, from the lookup
//! of the target window to the dispatch of the key events.
//!
//! Like the clipboard writer it drives, an invocation makes no call itself.
//! It names the next action, the caller performs it and reports whether it
//! succeeded, and the invocation names the one after, until it returns.

use crate::clipboard::{
    clipboard_begin, clipboard_effect, clipboard_step, set_clipboard_text, succeeded_at, Clipboard,
    ClipboardCall, ClipboardCallView, ClipboardError, ClipboardWrite, ClipboardWriteView, CF_TEXT,
};
use crate::cstring::{null_terminated, null_terminated_bytes};
use crate::keys::KeyboardInput;
use crate::sequence::{chat_command_inputs, send_chat_command};
use vstd::prelude::*;
use vstd::string::StringSliceAdditionalSpecFns;
use vstd::utf8::encode_utf8;

verus! {

/// What an invocation works with: the window it looks for, the command it
/// sends, and how long it lets the focus change settle.
#[derive(Debug, PartialEq, Eq)]
pub struct Config {
    /// Title of the target window, matched exactly.
    pub target_window_title: String,
    /// The command typed into the target's chat line.
    pub reload_command: String,
    /// Pause between focusing the window and dispatching input, in
    /// milliseconds.
    pub settle_delay_ms: u32,
}

impl Default for Config {
    /// The fixed identity of the target and of its reload command.
    fn default() -> (config: Config)
        ensures
            config.target_window_title@ == "Path of Exile 2"@,
            config.reload_command@ == "/reloaditemfilter"@,
            config.settle_delay_ms == 100,
    {
        Config {
            target_window_title: "Path of Exile 2".to_owned(),
            reload_command: "/reloaditemfilter".to_owned(),
            settle_delay_ms: 100,
        }
    }
}

/// How an invocation ended.
#[derive(Clone, Copy, Debug, PartialEq, Eq, Structural)]
pub enum Outcome {
    /// The command was put on the clipboard and the key events were
    /// dispatched.
    Completed,
    /// The clipboard could not be acquired; no input was dispatched.
    ClipboardUnavailable,
    /// No window carries the target title; nothing was done.
    WindowNotFound,
    /// The command could not be installed on the clipboard; no input was
    /// dispatched.
    AllocationFailed,
}

impl Outcome {
    /// What the invocation hands back to its host: the empty string,
    /// whatever the outcome.
    pub fn response(&self) -> (text: String)
        ensures
            text@ == Seq::<char>::empty(),
    {
        String::new()
    }
}

/// The next thing for the caller to do.
#[derive(Debug, PartialEq, Eq)]
pub enum Action {
    /// Look for the window whose title is `title`, a zero-terminated buffer.
    FindWindow { title: Vec<u8> },
    /// Bring the window that was found to the foreground.
    SetForeground,
    /// Pause for `millis` milliseconds.
    Settle { millis: u32 },
    /// Make the clipboard call `call`.
    Clipboard { call: ClipboardCall },
    /// Dispatch `inputs` to the input subsystem as one batch.
    Dispatch { inputs: Vec<KeyboardInput> },
    /// Make no further call: the invocation has ended with `outcome`.
    Return { outcome: Outcome },
}

/// An `Action` with its buffers as sequences.
pub enum ActionView {
    FindWindow { title: Seq<u8> },
    SetForeground,
    Settle { millis: u32 },
    Clipboard { call: ClipboardCallView },
    Dispatch { inputs: Seq<KeyboardInput> },
    Return { outcome: Outcome },
}

impl View for Action {
    type V = ActionView;

    open spec fn view(&self) -> ActionView {
        match *self {
            Action::FindWindow { title } => ActionView::FindWindow { title: title@ },
            Action::SetForeground => ActionView::SetForeground,
            Action::Settle { millis } => ActionView::Settle { millis },
            Action::Clipboard { call } => ActionView::Clipboard { call: call@ },
            Action::Dispatch { inputs } => ActionView::Dispatch { inputs: inputs@ },
            Action::Return { outcome } => ActionView::Return { outcome },
        }
    }
}

/// An invocation in progress, named by the action whose outcome it waits for.
#[derive(Debug, PartialEq, Eq)]
pub enum Reload {
    /// `FindWindow` was issued.
    WindowLookup { settle_delay_ms: u32, command: String },
    /// `SetForeground` was issued.
    Focused { settle_delay_ms: u32, command: String },
    /// `Settle` was issued.
    Settling { command: String },
    /// A clipboard call was issued on behalf of `write`.
    ClipboardWrite { write: ClipboardWrite },
    /// `Dispatch` was issued.
    Injecting,
    /// The invocation has ended with `outcome`.
    Finished { outcome: Outcome },
}

/// A `Reload` with its command as a sequence of characters.
pub enum ReloadView {
    WindowLookup { settle_delay_ms: u32, command: Seq<char> },
    Focused { settle_delay_ms: u32, command: Seq<char> },
    Settling { command: Seq<char> },
    ClipboardWrite { write: ClipboardWriteView },
    Injecting,
    Finished { outcome: Outcome },
}

impl View for Reload {
    type V = ReloadView;

    open spec fn view(&self) -> ReloadView {
        match *self {
            Reload::WindowLookup { settle_delay_ms, command } => ReloadView::WindowLookup {
                settle_delay_ms,
                command: command@,
            },
            Reload::Focused { settle_delay_ms, command } => ReloadView::Focused {
                settle_delay_ms,
                command: command@,
            },
            Reload::Settling { command } => ReloadView::Settling { command: command@ },
            Reload::ClipboardWrite { write } => ReloadView::ClipboardWrite { write: write@ },
            Reload::Injecting => ReloadView::Injecting,
            Reload::Finished { outcome } => ReloadView::Finished { outcome },
        }
    }
}

/// The outcome of an invocation whose clipboard write failed with `error`.
pub open spec fn clipboard_failure(error: ClipboardError) -> Outcome {
    match error {
        ClipboardError::Unavailable => Outcome::ClipboardUnavailable,
        ClipboardError::AllocationFailed => Outcome::AllocationFailed,
    }
}

/// How an invocation begins: with the lookup of the window titled `title`.
pub open spec fn reload_begin(title: Seq<char>, command: Seq<char>, settle_delay_ms: u32) -> (
    ReloadView,
    ActionView,
) {
    (
        ReloadView::WindowLookup { settle_delay_ms, command },
        ActionView::FindWindow { title: null_terminated(encode_utf8(title)) },
    )
}

/// How an invocation goes on once the pending action has `succeeded` or not.
///
/// A window that is not found ends the invocation at once. One that is found
/// is brought to the foreground, the settle delay is waited out, and the
/// command is written to the clipboard. Only when that write has ended well
/// is the key-event batch dispatched, without the focus-cycling gesture.
/// The outcomes of focusing, settling and dispatching are not looked at.
pub open spec fn reload_step(state: ReloadView, succeeded: bool) -> (ReloadView, ActionView) {
    match state {
        ReloadView::WindowLookup { settle_delay_ms, command } => if succeeded {
            (ReloadView::Focused { settle_delay_ms, command }, ActionView::SetForeground)
        } else {
            (
                ReloadView::Finished { outcome: Outcome::WindowNotFound },
                ActionView::Return { outcome: Outcome::WindowNotFound },
            )
        },
        ReloadView::Focused { settle_delay_ms, command } => (
            ReloadView::Settling { command },
            ActionView::Settle { millis: settle_delay_ms },
        ),
        ReloadView::Settling { command } => (
            ReloadView::ClipboardWrite { write: clipboard_begin(encode_utf8(command)).0 },
            ActionView::Clipboard { call: clipboard_begin(encode_utf8(command)).1 },
        ),
        ReloadView::ClipboardWrite { write } => match clipboard_step(write, succeeded).1 {
            ClipboardCallView::Return { result: Ok(()) } => (
                ReloadView::Injecting,
                ActionView::Dispatch { inputs: chat_command_inputs(false) },
            ),
            ClipboardCallView::Return { result: Err(error) } => (
                ReloadView::Finished { outcome: clipboard_failure(error) },
                ActionView::Return { outcome: clipboard_failure(error) },
            ),
            call => (
                ReloadView::ClipboardWrite { write: clipboard_step(write, succeeded).0 },
                ActionView::Clipboard { call },
            ),
        },
        ReloadView::Injecting => (
            ReloadView::Finished { outcome: Outcome::Completed },
            ActionView::Return { outcome: Outcome::Completed },
        ),
        ReloadView::Finished { outcome } => (
            ReloadView::Finished { outcome },
            ActionView::Return { outcome },
        ),
    }
}

/// Begins an invocation with the given configuration. `version` is accepted
/// and plays no part.
pub fn reload_with(version: &str, config: Config) -> (begun: (Reload, Action))
    ensures
        (begun.0@, begun.1@) == reload_begin(
            config.target_window_title@,
            config.reload_command@,
            config.settle_delay_ms,
        ),
{
    let title = null_terminated_bytes(config.target_window_title.as_str());
    (
        Reload::WindowLookup {
            settle_delay_ms: config.settle_delay_ms,
            command: config.reload_command,
        },
        Action::FindWindow { title },
    )
}

/// Begins an invocation for the fixed target: the window titled
/// "Path of Exile 2", the command "/reloaditemfilter", and a settle delay of
/// 100 milliseconds. `version` is accepted and plays no part.
pub fn reload(version: &str) -> (begun: (Reload, Action))
    ensures
        (begun.0@, begun.1@) == reload_begin("Path of Exile 2"@, "/reloaditemfilter"@, 100),
{
    reload_with(version, Config::default())
}

impl Reload {
    /// Takes the outcome of the pending action and names the next one, as
    /// `reload_step` says.
    pub fn step(self, succeeded: bool) -> (next: (Reload, Action))
        ensures
            (next.0@, next.1@) == reload_step(self@, succeeded),
    {
        match self {
            Reload::WindowLookup { settle_delay_ms, command } => {
                if succeeded {
                    (Reload::Focused { settle_delay_ms, command }, Action::SetForeground)
                } else {
                    (
                        Reload::Finished { outcome: Outcome::WindowNotFound },
                        Action::Return { outcome: Outcome::WindowNotFound },
                    )
                }
            },
            Reload::Focused { settle_delay_ms, command } => (
                Reload::Settling { command },
                Action::Settle { millis: settle_delay_ms },
            ),
            Reload::Settling { command } => {
                let (write, call) = set_clipboard_text(command.as_str());
                (Reload::ClipboardWrite { write }, Action::Clipboard { call })
            },
            Reload::ClipboardWrite { write } => {
                let (write, call) = write.step(succeeded);
                match call {
                    ClipboardCall::Return { result: Ok(()) } => (
                        Reload::Injecting,
                        Action::Dispatch { inputs: send_chat_command(false) },
                    ),
                    ClipboardCall::Return { result: Err(error) } => {
                        let outcome = match error {
                            ClipboardError::Unavailable => Outcome::ClipboardUnavailable,
                            ClipboardError::AllocationFailed => Outcome::AllocationFailed,
                        };
                        (Reload::Finished { outcome }, Action::Return { outcome })
                    },
                    call => (Reload::ClipboardWrite { write }, Action::Clipboard { call }),
                }
            },
            Reload::Injecting => (
                Reload::Finished { outcome: Outcome::Completed },
                Action::Return { outcome: Outcome::Completed },
            ),
            Reload::Finished { outcome } => (
                Reload::Finished { outcome },
                Action::Return { outcome },
            ),
        }
    }
}

/// The actions of an invocation from `pending` on, where the caller answers
/// them with `replies`, one reply for each action in turn: `pending` first,
/// then what `reload_step` names after each reply, up to the `Return` or the
/// action that the replies leave unanswered.
pub open spec fn reload_actions(state: ReloadView, pending: ActionView, replies: Seq<bool>) -> Seq<
    ActionView,
>
    decreases replies.len(),
{
    if pending is Return || replies.len() == 0 {
        seq![pending]
    } else {
        let (next, action) = reload_step(state, replies[0]);
        seq![pending] + reload_actions(next, action, replies.drop_first())
    }
}

/// The actions of an invocation, from its beginning, under `replies`.
pub open spec fn reload_run(
    title: Seq<char>,
    command: Seq<char>,
    settle_delay_ms: u32,
    replies: Seq<bool>,
) -> Seq<ActionView> {
    reload_actions(
        reload_begin(title, command, settle_delay_ms).0,
        reload_begin(title, command, settle_delay_ms).1,
        replies,
    )
}

/// The actions that every invocation with a live target window starts with:
/// the lookup, the focus change, the settle delay, and the acquisition of the
/// clipboard.
pub open spec fn approach(title: Seq<char>, settle_delay_ms: u32) -> Seq<ActionView> {
    seq![
        ActionView::FindWindow { title: null_terminated(encode_utf8(title)) },
        ActionView::SetForeground,
        ActionView::Settle { millis: settle_delay_ms },
        ActionView::Clipboard { call: ClipboardCallView::Open },
    ]
}

/// The clipboard calls that follow a successful acquisition: clear, store the
/// command with its terminating zero as plain text, release.
pub open spec fn installation(command: Seq<char>) -> Seq<ActionView> {
    seq![
        ActionView::Clipboard { call: ClipboardCallView::Clear },
        ActionView::Clipboard {
            call: ClipboardCallView::Store {
                format: CF_TEXT,
                payload: null_terminated(encode_utf8(command)),
            },
        },
        ActionView::Clipboard { call: ClipboardCallView::Close },
    ]
}

/// The four courses that an invocation can take, by whether the window was
/// found, the clipboard acquired and the command stored.
///
/// Without a window, the lookup is the only action. With one, every course
/// holds one lookup, one focus change and one settle delay, in that order.
/// Where the clipboard cannot be acquired, nothing follows. Where the command
/// cannot be stored, the clipboard is released and nothing is dispatched.
/// Otherwise the command is written to the clipboard once, and the batch
/// without the focus-cycling gesture is dispatched once, after the clipboard
/// is released.
pub open spec fn reload_course(
    title: Seq<char>,
    command: Seq<char>,
    settle_delay_ms: u32,
    found: bool,
    acquired: bool,
    stored: bool,
) -> Seq<ActionView> {
    if !found {
        seq![
            ActionView::FindWindow { title: null_terminated(encode_utf8(title)) },
            ActionView::Return { outcome: Outcome::WindowNotFound },
        ]
    } else if !acquired {
        approach(title, settle_delay_ms) + seq![
            ActionView::Return { outcome: Outcome::ClipboardUnavailable },
        ]
    } else if !stored {
        approach(title, settle_delay_ms) + installation(command) + seq![
            ActionView::Return { outcome: Outcome::AllocationFailed },
        ]
    } else {
        approach(title, settle_delay_ms) + installation(command) + seq![
            ActionView::Dispatch { inputs: chat_command_inputs(false) },
            ActionView::Return { outcome: Outcome::Completed },
        ]
    }
}

/// Whatever the replies, an invocation follows the course that three
/// outcomes decide: that of the lookup, the first action, that of acquiring
/// the clipboard, the fourth, and that of storing the command, the sixth. It
/// follows it as far as the replies reach: the run holds one action more than
/// was answered, and no action after the `Return`.
pub proof fn law_reload_courses(
    title: Seq<char>,
    command: Seq<char>,
    settle_delay_ms: u32,
    replies: Seq<bool>,
)
    ensures
        ({
            let course = reload_course(
                title,
                command,
                settle_delay_ms,
                succeeded_at(replies, 0),
                succeeded_at(replies, 3),
                succeeded_at(replies, 5),
            );
            reload_run(title, command, settle_delay_ms, replies) == if replies.len() + 1
                < course.len() {
                course.take(replies.len() + 1 as int)
            } else {
                course
            }
        }),
{
    reveal_with_fuel(reload_actions, 10);
    let run = reload_run(title, command, settle_delay_ms, replies);
    let course = reload_course(
        title,
        command,
        settle_delay_ms,
        succeeded_at(replies, 0),
        succeeded_at(replies, 3),
        succeeded_at(replies, 5),
    );
    if replies.len() == 0 {
        assert(run =~= course.take(1));
    } else if !replies[0] {
        assert(run =~= course);
    } else {
        let r1 = replies.drop_first();
        if r1.len() == 0 {
            assert(run =~= course.take(2));
        } else {
            let r2 = r1.drop_first();
            if r2.len() == 0 {
                assert(run =~= course.take(3));
            } else {
                let r3 = r2.drop_first();
                if r3.len() == 0 {
                    assert(run =~= course.take(4));
                } else {
                    assert(r3[0] == replies[3]);
                    lemma_courses_after_acquisition(title, command, settle_delay_ms, replies);
                }
            }
        }
    }
}

/// `law_reload_courses` for replies that reach the acquisition of the
/// clipboard.
proof fn lemma_courses_after_acquisition(
    title: Seq<char>,
    command: Seq<char>,
    settle_delay_ms: u32,
    replies: Seq<bool>,
)
    requires
        replies.len() >= 4,
        replies[0],
    ensures
        ({
            let course = reload_course(
                title,
                command,
                settle_delay_ms,
                true,
                replies[3],
                succeeded_at(replies, 5),
            );
            reload_run(title, command, settle_delay_ms, replies) == if replies.len() + 1
                < course.len() {
                course.take(replies.len() + 1 as int)
            } else {
                course
            }
        }),
{
    reveal_with_fuel(reload_actions, 10);
    let run = reload_run(title, command, settle_delay_ms, replies);
    let course = reload_course(
        title,
        command,
        settle_delay_ms,
        true,
        replies[3],
        succeeded_at(replies, 5),
    );
    let r1 = replies.drop_first();
    let r2 = r1.drop_first();
    let r3 = r2.drop_first();
    let r4 = r3.drop_first();
    assert(r3[0] == replies[3]);
    if !replies[3] {
        assert(run =~= course);
    } else if r4.len() == 0 {
        assert(run =~= course.take(5));
    } else {
        let r5 = r4.drop_first();
        if r5.len() == 0 {
            assert(run =~= course.take(6));
        } else {
            assert(r5[0] == replies[5]);
            let r6 = r5.drop_first();
            if r6.len() == 0 {
                assert(run =~= course.take(7));
            } else if !replies[5] {
                assert(run =~= course);
            } else {
                let r7 = r6.drop_first();
                if r7.len() == 0 {
                    assert(run =~= course.take(8));
                } else {
                    assert(run =~= course);
                }
            }
        }
    }
}

/// Where no window carries the target title, the invocation is a no-op: the
/// lookup is its only action. It writes nothing to the clipboard, changes no
/// focus and dispatches no input, and ends with `WindowNotFound`.
pub proof fn law_missing_window_is_a_no_op(
    title: Seq<char>,
    command: Seq<char>,
    settle_delay_ms: u32,
    replies: Seq<bool>,
)
    requires
        replies.len() >= 1,
        !replies[0],
    ensures
        reload_run(title, command, settle_delay_ms, replies) == seq![
            ActionView::FindWindow { title: null_terminated(encode_utf8(title)) },
            ActionView::Return { outcome: Outcome::WindowNotFound },
        ],
{
    law_reload_courses(title, command, settle_delay_ms, replies);
}

/// The clipboard after `actions` were performed in order, the n-th answered
/// by the n-th of `replies`. Only clipboard calls touch it.
pub open spec fn clipboard_during(
    before: Clipboard,
    actions: Seq<ActionView>,
    replies: Seq<bool>,
) -> Clipboard
    decreases actions.len(),
{
    if actions.len() == 0 || replies.len() == 0 {
        before
    } else {
        let next = match actions[0] {
            ActionView::Clipboard { call } => clipboard_effect(before, call, replies[0]),
            _ => before,
        };
        clipboard_during(next, actions.drop_first(), replies.drop_first())
    }
}

/// Input is dispatched only to a found window, after the command was stored,
/// and then it is the batch without the focus-cycling gesture. At that
/// moment the clipboard is released and holds exactly the command with its
/// terminating zero, so that the paste stroke of the batch types the command.
pub proof fn law_dispatch_finds_the_command_on_the_clipboard(
    before: Clipboard,
    title: Seq<char>,
    command: Seq<char>,
    settle_delay_ms: u32,
    replies: Seq<bool>,
    k: int,
)
    requires
        !before.held,
        0 <= k < reload_run(title, command, settle_delay_ms, replies).len(),
        reload_run(title, command, settle_delay_ms, replies)[k] is Dispatch,
    ensures
        succeeded_at(replies, 0) && succeeded_at(replies, 3) && succeeded_at(replies, 5),
        reload_run(title, command, settle_delay_ms, replies)[k] == (ActionView::Dispatch {
            inputs: chat_command_inputs(false),
        }),
        clipboard_during(
            before,
            reload_run(title, command, settle_delay_ms, replies).take(k),
            replies,
        ) == (Clipboard { held: false, text: Some(null_terminated(encode_utf8(command))) }),
{
    law_reload_courses(title, command, settle_delay_ms, replies);
    let run = reload_run(title, command, settle_delay_ms, replies);
    assert(k == 7);
    assert(replies.len() >= 7);
    reveal_with_fuel(clipboard_during, 8);
    let a0 = run.take(7);
    let a1 = a0.drop_first();
    let a2 = a1.drop_first();
    let a3 = a2.drop_first();
    let a4 = a3.drop_first();
    let a5 = a4.drop_first();
    let a6 = a5.drop_first();
    let r1 = replies.drop_first();
    let r2 = r1.drop_first();
    let r3 = r2.drop_first();
    let r4 = r3.drop_first();
    let r5 = r4.drop_first();
    let r6 = r5.drop_first();
    assert(a0[0] == run[0] && a1[0] == run[1] && a2[0] == run[2] && a3[0] == run[3]);
    assert(a4[0] == run[4] && a5[0] == run[5] && a6[0] == run[6]);
    assert(r3[0] == replies[3] && r5[0] == replies[5]);
}

} // verus!
