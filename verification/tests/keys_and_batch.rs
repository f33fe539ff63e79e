use filter_reload::keys::{
    create_keyboard_input, KeyboardInput, INPUT_KEYBOARD, KEYEVENTF_KEYUP, VK_A, VK_CONTROL,
    VK_ESCAPE, VK_MENU, VK_RETURN, VK_TAB, VK_UP, VK_V,
};
use filter_reload::sequence::send_chat_command;

fn down(key: u16) -> KeyboardInput {
    KeyboardInput { kind: 1, virtual_key: key, scan_code: 0, flags: 0, time: 0, extra_info: 0 }
}

fn up(key: u16) -> KeyboardInput {
    KeyboardInput { kind: 1, virtual_key: key, scan_code: 0, flags: 2, time: 0, extra_info: 0 }
}

fn typed() -> Vec<KeyboardInput> {
    vec![
        down(0x0D), up(0x0D),
        down(0x11),
        down(0x41), up(0x41),
        down(0x56), up(0x56),
        up(0x11),
        down(0x0D), up(0x0D),
        down(0x0D), up(0x0D),
        down(0x26), up(0x26),
        down(0x26), up(0x26),
        down(0x1B), up(0x1B),
    ]
}

#[test]
fn virtual_key_codes_are_the_standard_ones() {
    assert_eq!(VK_TAB, 0x09);
    assert_eq!(VK_RETURN, 0x0D);
    assert_eq!(VK_CONTROL, 0x11);
    assert_eq!(VK_MENU, 0x12);
    assert_eq!(VK_ESCAPE, 0x1B);
    assert_eq!(VK_UP, 0x26);
    assert_eq!(VK_A, 0x41);
    assert_eq!(VK_V, 0x56);
    assert_eq!(KEYEVENTF_KEYUP, 2);
    assert_eq!(INPUT_KEYBOARD, 1);
}

#[test]
fn keyboard_input_carries_key_and_flags_and_zeroes_the_rest() {
    let input = create_keyboard_input(0x41, 0x0002);
    assert_eq!(input.kind, 1);
    assert_eq!(input.virtual_key, 0x41);
    assert_eq!(input.scan_code, 0);
    assert_eq!(input.flags, 2);
    assert_eq!(input.time, 0);
    assert_eq!(input.extra_info, 0);
    assert_eq!(create_keyboard_input(0x0D, 0), down(0x0D));
    assert_ne!(create_keyboard_input(0x0D, 0), create_keyboard_input(0x0D, 2));
}

#[test]
fn keyboard_input_keeps_unusual_flags_as_given() {
    let input = create_keyboard_input(u16::MAX, u32::MAX);
    assert_eq!(input.virtual_key, u16::MAX);
    assert_eq!(input.flags, u32::MAX);
    assert_eq!(input.kind, 1);
}

#[test]
fn batch_without_focus_cycle_is_the_eighteen_events_in_order() {
    assert_eq!(send_chat_command(false), typed());
    assert_eq!(send_chat_command(false).len(), 18);
}

#[test]
fn batch_with_focus_cycle_appends_alt_tab() {
    let mut expected = typed();
    expected.extend(vec![down(0x12), down(0x09), up(0x09), up(0x12)]);
    assert_eq!(send_chat_command(true), expected);
    assert_eq!(send_chat_command(true).len(), 22);
}

#[test]
fn select_all_releases_the_key_it_pressed() {
    let batch = send_chat_command(false);
    assert_eq!(batch[3], down(VK_A));
    assert_eq!(batch[4], up(VK_A));
    assert_eq!(batch[5], down(VK_V));
    assert_eq!(batch[6], up(VK_V));
}

fn first_release_after(batch: &[KeyboardInput], press: usize) -> Option<usize> {
    let key = batch[press].virtual_key;
    for later in press + 1..batch.len() {
        if batch[later].virtual_key == key {
            return if batch[later].flags & 2 == 2 { Some(later) } else { None };
        }
    }
    None
}

#[test]
fn every_press_is_released_before_the_batch_ends() {
    for restore in [false, true] {
        let batch = send_chat_command(restore);
        let mut presses = 0;
        let mut releases = 0;
        for i in 0..batch.len() {
            if batch[i].flags & 2 == 2 {
                releases += 1;
            } else {
                presses += 1;
                assert!(first_release_after(&batch, i).is_some(), "key stuck at {}", i);
            }
        }
        assert_eq!(presses, releases);
        assert_eq!(presses * 2, batch.len());
    }
}

#[test]
fn control_is_held_exactly_around_select_all_and_paste() {
    for restore in [false, true] {
        let batch = send_chat_command(restore);
        let control: Vec<usize> =
            (0..batch.len()).filter(|&i| batch[i].virtual_key == VK_CONTROL).collect();
        assert_eq!(control, vec![2, 7]);
        assert_eq!(batch[2].flags, 0);
        assert_eq!(batch[7].flags, 2);
        for i in 0..batch.len() {
            let key = batch[i].virtual_key;
            if key == VK_A || key == VK_V {
                assert!(2 < i && i < 7);
            }
        }
        assert_eq!(&batch[3..7], &[down(VK_A), up(VK_A), down(VK_V), up(VK_V)][..]);
    }
}

#[test]
fn focus_cycle_holds_alt_around_tab() {
    let batch = send_chat_command(true);
    assert_eq!(&batch[18..], &[down(VK_MENU), down(VK_TAB), up(VK_TAB), up(VK_MENU)][..]);
    let plain = send_chat_command(false);
    assert!(plain.iter().all(|e| e.virtual_key != VK_TAB && e.virtual_key != VK_MENU));
    assert_eq!(&batch[..18], &plain[..]);
}
