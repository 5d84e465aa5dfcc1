use erect::controls::{read_frame, Keys, PadState, Pads};
use erect::input::PlayerIntent;
use erect::settings::SchemeInfo;

const SCHEMES: [SchemeInfo; 4] = [
    SchemeInfo { label: "W A S D + SPACE", is_gamepad: false, pad_index: 0 },
    SchemeInfo { label: "ARROWS + ENTER", is_gamepad: false, pad_index: 0 },
    SchemeInfo { label: "GAMEPAD 1", is_gamepad: true, pad_index: 0 },
    SchemeInfo { label: "GAMEPAD 2", is_gamepad: true, pad_index: 1 },
];

fn no_keys() -> Keys {
    Keys {
        a_held: false,
        d_held: false,
        left_held: false,
        right_held: false,
        space_held: false,
        enter_held: false,
        w: false,
        a: false,
        s: false,
        d: false,
        up: false,
        down: false,
        left: false,
        right: false,
        space: false,
        enter: false,
        escape: false,
        eight: false,
        left_shift: false,
        right_shift: false,
    }
}

fn still() -> PadState {
    PadState { left: false, right: false, up: false, down: false, jump: false, attack: false, back: false, pause: false, dash: false }
}

fn no_pads() -> Pads {
    Pads { prev: [still(); 2], cur: [still(); 2], connected: [false; 2] }
}

#[test]
fn each_keyboard_scheme_reads_its_own_keys() {
    let keys = Keys { a_held: true, w: true, right_held: true, enter: true, enter_held: true, right_shift: true, ..no_keys() };
    let frame = read_frame(&keys, &no_pads(), &SCHEMES, &[0, 1]);
    assert_eq!(frame.players[0], PlayerIntent { left: true, jump: true, ..Default::default() });
    assert_eq!(
        frame.players[1],
        PlayerIntent { right: true, attack: true, attack_held: true, dash: true, ..Default::default() }
    );
}

#[test]
fn menus_take_any_keyboard_and_any_pad() {
    let keys = Keys { w: true, ..no_keys() };
    let mut pads = no_pads();
    pads.connected = [false, true];
    pads.cur[1].jump = true;
    let frame = read_frame(&keys, &pads, &SCHEMES, &[0]);
    assert!(frame.menu.up, "W moves the cursor too");
    assert!(frame.menu.confirm, "a pad's jump confirms");
    assert!(!frame.menu.back);
    assert_eq!(frame.pads_connected, [false, true]);
}

#[test]
fn a_pad_button_counts_once_however_long_it_is_held() {
    let mut pads = no_pads();
    pads.connected = [true, false];
    pads.cur[0].jump = true;
    pads.cur[0].left = true;
    let frame = read_frame(&no_keys(), &pads, &SCHEMES, &[2]);
    assert!(frame.players[0].jump, "the first frame is a press");
    assert!(frame.players[0].left, "steering is held, not pressed");

    pads.prev = pads.cur;
    let frame = read_frame(&no_keys(), &pads, &SCHEMES, &[2]);
    assert!(!frame.players[0].jump, "held is not pressed again");
    assert!(frame.players[0].left);
}

#[test]
fn a_pad_scheme_without_its_pad_asks_for_nothing() {
    let mut pads = no_pads();
    pads.cur[1].jump = true;
    let frame = read_frame(&no_keys(), &pads, &SCHEMES, &[0, 3]);
    assert_eq!(frame.players[1], PlayerIntent::default());
    // A scheme past the end of the list reads as the last one.
    pads.connected = [false, true];
    let frame = read_frame(&no_keys(), &pads, &SCHEMES, &[9, 9]);
    assert!(frame.players[0].jump && frame.players[1].jump);
}

#[test]
fn escape_pauses_and_backs_out_and_eight_is_the_chord() {
    let keys = Keys { escape: true, eight: true, ..no_keys() };
    let frame = read_frame(&keys, &no_pads(), &SCHEMES, &[]);
    assert!(frame.pause && frame.menu.back && frame.dev_menu);
    assert_eq!(frame.players[0], PlayerIntent::default());
}

#[test]
fn b_or_down_slams_on_a_pad() {
    let mut pads = no_pads();
    pads.connected = [true, true];
    pads.cur[0].back = true;
    pads.cur[1].down = true;
    let frame = read_frame(&no_keys(), &pads, &SCHEMES, &[2, 3]);
    assert!(frame.players[0].slam && frame.players[1].slam);
}
