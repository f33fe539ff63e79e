//! The batch of key events that types the clipboard's contents into the chat
//! line of the target application.

use crate::keys::{
    create_keyboard_input, key_down, key_up, lemma_key_phases, KeyboardInput, KEYEVENTF_KEYUP,
    VK_A, VK_CONTROL, VK_ESCAPE, VK_MENU, VK_RETURN, VK_TAB, VK_UP, VK_V,
};
use vstd::prelude::*;

verus! {

/// One stroke of `key`: its press, then its release.
pub open spec fn tap(key: u16) -> Seq<KeyboardInput> {
    seq![key_down(key), key_up(key)]
}

/// `body` typed while `modifier` is held: the modifier's press, the body, the
/// modifier's release.
pub open spec fn chord(modifier: u16, body: Seq<KeyboardInput>) -> Seq<KeyboardInput> {
    seq![key_down(modifier)] + body + seq![key_up(modifier)]
}

/// Enter, which opens the chat line and later submits it.
pub open spec fn submit() -> Seq<KeyboardInput> {
    tap(VK_RETURN)
}

/// Stroke of A, which under Ctrl selects what the chat line already holds.
pub open spec fn select_all() -> Seq<KeyboardInput> {
    tap(VK_A)
}

/// Stroke of V, which under Ctrl pastes the clipboard over the selection.
pub open spec fn paste() -> Seq<KeyboardInput> {
    tap(VK_V)
}

/// Enter, Up, Up, Escape: brings the chat back to the state it had before the
/// command was typed.
pub open spec fn restore_chat_state() -> Seq<KeyboardInput> {
    tap(VK_RETURN) + tap(VK_UP) + tap(VK_UP) + tap(VK_ESCAPE)
}

/// Alt+Tab: hands the focus to the window that had it before.
pub open spec fn cycle_focus() -> Seq<KeyboardInput> {
    chord(VK_MENU, tap(VK_TAB))
}

/// The whole batch, in dispatch order: open the chat line, replace its
/// contents by the clipboard's under one Ctrl chord, submit, restore the chat
/// state, and, where asked, cycle the focus away.
pub open spec fn chat_command_inputs(restore_focus_elsewhere: bool) -> Seq<KeyboardInput> {
    let typed = submit() + chord(VK_CONTROL, select_all() + paste()) + submit()
        + restore_chat_state();
    if restore_focus_elsewhere {
        typed + cycle_focus()
    } else {
        typed
    }
}

/// Builds the batch of key events that sends the command held by the
/// clipboard: it is `chat_command_inputs(restore_focus_elsewhere)`, event for
/// event. The batch is complete before anything is dispatched; dispatching it
/// in one call is the caller's part.
pub fn send_chat_command(restore_focus_elsewhere: bool) -> (inputs: Vec<KeyboardInput>)
    ensures
        inputs@ == chat_command_inputs(restore_focus_elsewhere),
{
    let mut inputs: Vec<KeyboardInput> = Vec::new();

    // enter (open chat)
    inputs.push(create_keyboard_input(VK_RETURN, 0));
    inputs.push(create_keyboard_input(VK_RETURN, KEYEVENTF_KEYUP));

    // press ctrl
    inputs.push(create_keyboard_input(VK_CONTROL, 0));

    // a (highlight existing text)
    inputs.push(create_keyboard_input(VK_A, 0));
    inputs.push(create_keyboard_input(VK_A, KEYEVENTF_KEYUP));

    // v (paste)
    inputs.push(create_keyboard_input(VK_V, 0));
    inputs.push(create_keyboard_input(VK_V, KEYEVENTF_KEYUP));

    // release ctrl
    inputs.push(create_keyboard_input(VK_CONTROL, KEYEVENTF_KEYUP));

    // enter (send command)
    inputs.push(create_keyboard_input(VK_RETURN, 0));
    inputs.push(create_keyboard_input(VK_RETURN, KEYEVENTF_KEYUP));

    // restore the last chat state (enter, up, up, esc)
    inputs.push(create_keyboard_input(VK_RETURN, 0));
    inputs.push(create_keyboard_input(VK_RETURN, KEYEVENTF_KEYUP));
    inputs.push(create_keyboard_input(VK_UP, 0));
    inputs.push(create_keyboard_input(VK_UP, KEYEVENTF_KEYUP));
    inputs.push(create_keyboard_input(VK_UP, 0));
    inputs.push(create_keyboard_input(VK_UP, KEYEVENTF_KEYUP));
    inputs.push(create_keyboard_input(VK_ESCAPE, 0));
    inputs.push(create_keyboard_input(VK_ESCAPE, KEYEVENTF_KEYUP));

    // tab back to the last pane
    if restore_focus_elsewhere {
        inputs.push(create_keyboard_input(VK_MENU, 0));
        inputs.push(create_keyboard_input(VK_TAB, 0));
        inputs.push(create_keyboard_input(VK_TAB, KEYEVENTF_KEYUP));
        inputs.push(create_keyboard_input(VK_MENU, KEYEVENTF_KEYUP));
    }
    assert(inputs@ =~= chat_command_inputs(restore_focus_elsewhere));
    inputs
}

/// Whether the events at `press` and `release` are the two ends of one stroke:
/// a press, later a release of the same key, and no event of that key between
/// them.
pub open spec fn is_stroke(inputs: Seq<KeyboardInput>, press: int, release: int) -> bool {
    &&& 0 <= press < release < inputs.len()
    &&& inputs[press].is_press()
    &&& inputs[release].is_release()
    &&& inputs[press].virtual_key == inputs[release].virtual_key
    &&& forall|k: int|
        press < k < release ==> (#[trigger] inputs[k]).virtual_key != inputs[press].virtual_key
}

/// Whether every event of `key` lies strictly inside some stroke of
/// `modifier`, that is, `key` is only touched while `modifier` is held.
pub open spec fn only_under(inputs: Seq<KeyboardInput>, key: u16, modifier: u16) -> bool {
    forall|k: int|
        0 <= k < inputs.len() && (#[trigger] inputs[k]).virtual_key == key ==> exists|
            d: int,
            u: int,
        |
            #[trigger] is_stroke(inputs, d, u) && inputs[d].virtual_key == modifier && d < k < u
}

/// The batch spelled out event by event.
proof fn lemma_batch_events(restore_focus_elsewhere: bool)
    ensures
        ({
            let s = chat_command_inputs(restore_focus_elsewhere);
            &&& s.len() == if restore_focus_elsewhere { 22int } else { 18int }
            &&& s[0] == key_down(VK_RETURN) && s[1] == key_up(VK_RETURN)
            &&& s[2] == key_down(VK_CONTROL) && s[7] == key_up(VK_CONTROL)
            &&& s[3] == key_down(VK_A) && s[4] == key_up(VK_A)
            &&& s[5] == key_down(VK_V) && s[6] == key_up(VK_V)
            &&& s[8] == key_down(VK_RETURN) && s[9] == key_up(VK_RETURN)
            &&& s[10] == key_down(VK_RETURN) && s[11] == key_up(VK_RETURN)
            &&& s[12] == key_down(VK_UP) && s[13] == key_up(VK_UP)
            &&& s[14] == key_down(VK_UP) && s[15] == key_up(VK_UP)
            &&& s[16] == key_down(VK_ESCAPE) && s[17] == key_up(VK_ESCAPE)
            &&& restore_focus_elsewhere ==> {
                &&& s[18] == key_down(VK_MENU) && s[21] == key_up(VK_MENU)
                &&& s[19] == key_down(VK_TAB) && s[20] == key_up(VK_TAB)
            }
        }),
{
    lemma_key_phases(VK_RETURN);
}

/// The batch holds 18 events, two for each of its nine strokes, and 22 where
/// the focus is cycled away afterwards, which adds two strokes.
pub proof fn law_batch_length()
    ensures
        chat_command_inputs(false).len() == 2 * 9,
        chat_command_inputs(true).len() == 2 * 11,
        chat_command_inputs(true).subrange(0, 18) == chat_command_inputs(false),
{
    lemma_batch_events(false);
    lemma_batch_events(true);
    assert(chat_command_inputs(true).subrange(0, 18) =~= chat_command_inputs(false));
}

/// The strokes of the batch, by the positions of their two ends.
proof fn lemma_batch_strokes(restore_focus_elsewhere: bool)
    ensures
        ({
            let s = chat_command_inputs(restore_focus_elsewhere);
            &&& is_stroke(s, 0, 1) && is_stroke(s, 2, 7) && is_stroke(s, 3, 4)
            &&& is_stroke(s, 5, 6) && is_stroke(s, 8, 9) && is_stroke(s, 10, 11)
            &&& is_stroke(s, 12, 13) && is_stroke(s, 14, 15) && is_stroke(s, 16, 17)
            &&& restore_focus_elsewhere ==> is_stroke(s, 18, 21) && is_stroke(s, 19, 20)
        }),
{
    lemma_batch_events(restore_focus_elsewhere);
    lemma_key_phases(VK_RETURN);
    lemma_key_phases(VK_CONTROL);
    lemma_key_phases(VK_A);
    lemma_key_phases(VK_V);
    lemma_key_phases(VK_UP);
    lemma_key_phases(VK_ESCAPE);
    lemma_key_phases(VK_MENU);
    lemma_key_phases(VK_TAB);
}

/// No key stays stuck: every press in the batch is ended by a release of the
/// same key later in the batch, with no other event of that key in between.
pub proof fn law_every_press_is_released(restore_focus_elsewhere: bool)
    ensures
        forall|i: int|
            #![trigger chat_command_inputs(restore_focus_elsewhere)[i]]
            0 <= i < chat_command_inputs(restore_focus_elsewhere).len() && chat_command_inputs(
                restore_focus_elsewhere,
            )[i].is_press() ==> exists|j: int|
                is_stroke(chat_command_inputs(restore_focus_elsewhere), i, j),
{
    let s = chat_command_inputs(restore_focus_elsewhere);
    lemma_batch_events(restore_focus_elsewhere);
    lemma_batch_strokes(restore_focus_elsewhere);
    assert forall|i: int| 0 <= i < s.len() && (#[trigger] s[i]).is_press() implies exists|j: int|
        is_stroke(s, i, j) by {
        if i == 2 {
            assert(is_stroke(s, i, 7));
        } else if i == 18 {
            assert(is_stroke(s, i, 21));
        } else {
            assert(is_stroke(s, i, i + 1));
        }
    }
}

/// No release comes out of nowhere: every release in the batch ends a press
/// of the same key earlier in the batch, with no other event of that key in
/// between.
pub proof fn law_every_release_ends_a_press(restore_focus_elsewhere: bool)
    ensures
        forall|j: int|
            #![trigger chat_command_inputs(restore_focus_elsewhere)[j]]
            0 <= j < chat_command_inputs(restore_focus_elsewhere).len() && chat_command_inputs(
                restore_focus_elsewhere,
            )[j].is_release() ==> exists|i: int|
                is_stroke(chat_command_inputs(restore_focus_elsewhere), i, j),
{
    let s = chat_command_inputs(restore_focus_elsewhere);
    lemma_batch_events(restore_focus_elsewhere);
    lemma_batch_strokes(restore_focus_elsewhere);
    assert forall|j: int| 0 <= j < s.len() && (#[trigger] s[j]).is_release() implies exists|
        i: int,
    | is_stroke(s, i, j) by {
        if j == 7 {
            assert(is_stroke(s, 2, j));
        } else if j == 21 {
            assert(is_stroke(s, 18, j));
        } else {
            assert(is_stroke(s, j - 1, j));
        }
    }
}

/// Ctrl scopes the selection and the paste: the batch holds exactly one
/// stroke of Ctrl, what lies between its press and its release is the
/// select-all stroke followed by the paste stroke, and neither A nor V is
/// touched anywhere outside it.
pub proof fn law_control_scopes_select_and_paste(restore_focus_elsewhere: bool)
    ensures
        ({
            let s = chat_command_inputs(restore_focus_elsewhere);
            exists|d: int, u: int|
                {
                    &&& #[trigger] is_stroke(s, d, u)
                    &&& s[d].virtual_key == VK_CONTROL
                    &&& s.subrange(d + 1, u) == select_all() + paste()
                    &&& forall|k: int|
                        0 <= k < s.len() && (#[trigger] s[k]).virtual_key == VK_CONTROL ==> k == d
                            || k == u
                }
        }),
        only_under(chat_command_inputs(restore_focus_elsewhere), VK_A, VK_CONTROL),
        only_under(chat_command_inputs(restore_focus_elsewhere), VK_V, VK_CONTROL),
{
    let s = chat_command_inputs(restore_focus_elsewhere);
    lemma_batch_events(restore_focus_elsewhere);
    lemma_batch_strokes(restore_focus_elsewhere);
    assert(s.subrange(3, 7) =~= select_all() + paste());
    assert(is_stroke(s, 2, 7));
    assert forall|k: int| 0 <= k < s.len() && (#[trigger] s[k]).virtual_key == VK_A implies exists|
        d: int,
        u: int,
    |
        #[trigger] is_stroke(s, d, u) && s[d].virtual_key == VK_CONTROL && d < k < u by {
        assert(is_stroke(s, 2, 7) && s[2].virtual_key == VK_CONTROL && 2 < k < 7);
    }
    assert forall|k: int| 0 <= k < s.len() && (#[trigger] s[k]).virtual_key == VK_V implies exists|
        d: int,
        u: int,
    |
        #[trigger] is_stroke(s, d, u) && s[d].virtual_key == VK_CONTROL && d < k < u by {
        assert(is_stroke(s, 2, 7) && s[2].virtual_key == VK_CONTROL && 2 < k < 7);
    }
}

/// Where the focus is cycled away, Tab is only touched while Alt is held, and
/// the whole gesture comes after everything that types the command.
pub proof fn law_focus_cycle_comes_last()
    ensures
        only_under(chat_command_inputs(true), VK_TAB, VK_MENU),
        chat_command_inputs(true) == chat_command_inputs(false) + cycle_focus(),
        forall|k: int|
            0 <= k < chat_command_inputs(false).len() ==> {
                &&& (#[trigger] chat_command_inputs(false)[k]).virtual_key != VK_TAB
                &&& chat_command_inputs(false)[k].virtual_key != VK_MENU
            },
{
    let s = chat_command_inputs(true);
    lemma_batch_events(true);
    lemma_batch_events(false);
    lemma_batch_strokes(true);
    assert forall|k: int| 0 <= k < s.len() && (#[trigger] s[k]).virtual_key == VK_TAB implies exists|
        d: int,
        u: int,
    |
        #[trigger] is_stroke(s, d, u) && s[d].virtual_key == VK_MENU && d < k < u by {
        assert(is_stroke(s, 18, 21) && s[18].virtual_key == VK_MENU && 18 < k < 21);
    }
}

} // verus!
