//! Keyboards and gamepads, collapsed into one frame of intents.
//!
//! Devices are polled by the frontend, which hands over what each key and pad
//! button is doing this frame: held, or pressed since the last. Which key does
//! what, and which scheme a player is on, is decided here.
use vstd::prelude::*;

use crate::config::MAX_PLAYERS;
use crate::input::{idle_intent, InputFrame, MenuIntent, PlayerIntent};
use crate::settings::SchemeInfo;

verus! {

/// The scheme a player is on when they steer with W A S D.
pub const SCHEME_KB_WASD: usize = 0;

/// Level state of one gamepad, so edges can be told apart frame to frame.
#[derive(Clone, Copy, Debug, PartialEq, Eq, Structural)]
pub struct PadState {
    pub left: bool,
    pub right: bool,
    pub up: bool,
    pub down: bool,
    pub jump: bool,
    pub attack: bool,
    pub back: bool,
    pub pause: bool,
    /// A shoulder button: the one pad input not already spoken for.
    pub dash: bool,
}

/// Two frames of every pad slot, and which slots hold a pad.
#[derive(Clone, Copy, Debug, PartialEq, Eq)]
pub struct Pads {
    pub prev: [PadState; MAX_PLAYERS],
    pub cur: [PadState; MAX_PLAYERS],
    pub connected: [bool; MAX_PLAYERS],
}

/// The keys the game reads: which are held, and which went down this frame.
#[derive(Clone, Copy, Debug, PartialEq, Eq, Structural)]
pub struct Keys {
    pub a_held: bool,
    pub d_held: bool,
    pub left_held: bool,
    pub right_held: bool,
    pub space_held: bool,
    pub enter_held: bool,
    pub w: bool,
    pub a: bool,
    pub s: bool,
    pub d: bool,
    pub up: bool,
    pub down: bool,
    pub left: bool,
    pub right: bool,
    pub space: bool,
    pub enter: bool,
    pub escape: bool,
    /// The developer chord: a key no player reaches for.
    pub eight: bool,
    pub left_shift: bool,
    pub right_shift: bool,
}

/// A pad button, by what the game reads it as.
#[derive(Clone, Copy, Debug, PartialEq, Eq, Structural)]
pub enum PadButton {
    Left,
    Right,
    Up,
    Down,
    Jump,
    Attack,
    Back,
    Pause,
    Dash,
}

pub open spec fn button_of(s: PadState, b: PadButton) -> bool {
    match b {
        PadButton::Left => s.left,
        PadButton::Right => s.right,
        PadButton::Up => s.up,
        PadButton::Down => s.down,
        PadButton::Jump => s.jump,
        PadButton::Attack => s.attack,
        PadButton::Back => s.back,
        PadButton::Pause => s.pause,
        PadButton::Dash => s.dash,
    }
}

fn button(s: PadState, b: PadButton) -> (v: bool)
    ensures
        v == button_of(s, b),
{
    match b {
        PadButton::Left => s.left,
        PadButton::Right => s.right,
        PadButton::Up => s.up,
        PadButton::Down => s.down,
        PadButton::Jump => s.jump,
        PadButton::Attack => s.attack,
        PadButton::Back => s.back,
        PadButton::Pause => s.pause,
        PadButton::Dash => s.dash,
    }
}

/// True on the frame a button went down in `slot`, and only then.
pub open spec fn pressed(pads: Pads, slot: int, b: PadButton) -> bool {
    button_of(pads.cur[slot], b) && !button_of(pads.prev[slot], b)
}

/// Whether any connected pad pressed `b` this frame.
pub open spec fn any_pad_pressed(pads: Pads, b: PadButton) -> bool {
    ||| pads.connected[0] && pressed(pads, 0, b)
    ||| pads.connected[1] && pressed(pads, 1, b)
}

/// Menus accept every keyboard and every pad, so a player can always find
/// their way whatever they picked in settings.
pub open spec fn spec_menu(keys: Keys, pads: Pads) -> MenuIntent {
    MenuIntent {
        up: keys.up || keys.w || any_pad_pressed(pads, PadButton::Up),
        down: keys.down || keys.s || any_pad_pressed(pads, PadButton::Down),
        left: keys.left || keys.a || any_pad_pressed(pads, PadButton::Left),
        right: keys.right || keys.d || any_pad_pressed(pads, PadButton::Right),
        confirm: keys.enter || keys.space || any_pad_pressed(pads, PadButton::Jump)
            || any_pad_pressed(pads, PadButton::Attack),
        back: keys.escape || any_pad_pressed(pads, PadButton::Back),
    }
}

/// What one player asks for on the scheme at `scheme_index`.
pub open spec fn spec_player(keys: Keys, pads: Pads, schemes: Seq<SchemeInfo>, scheme_index: usize) -> PlayerIntent {
    let last = schemes.len() - 1;
    let scheme = schemes[if scheme_index < last { scheme_index as int } else { last }];
    if !scheme.is_gamepad {
        if scheme_index == SCHEME_KB_WASD {
            PlayerIntent {
                left: keys.a_held,
                right: keys.d_held,
                jump: keys.w,
                slam: keys.s,
                attack: keys.space,
                attack_held: keys.space_held,
                dash: keys.left_shift,
            }
        } else {
            PlayerIntent {
                left: keys.left_held,
                right: keys.right_held,
                jump: keys.up,
                slam: keys.down,
                attack: keys.enter,
                attack_held: keys.enter_held,
                dash: keys.right_shift,
            }
        }
    } else {
        let slot = scheme.pad_index as int;
        if scheme.pad_index >= MAX_PLAYERS || !pads.connected[slot] {
            idle_intent()
        } else {
            PlayerIntent {
                left: pads.cur[slot].left,
                right: pads.cur[slot].right,
                jump: pressed(pads, slot, PadButton::Jump),
                attack: pressed(pads, slot, PadButton::Attack),
                attack_held: pads.cur[slot].attack,
                // Slam is B or down, whichever the player reaches for.
                slam: pressed(pads, slot, PadButton::Back) || pressed(pads, slot, PadButton::Down),
                dash: pressed(pads, slot, PadButton::Dash),
            }
        }
    }
}

fn edge(cur: bool, prev: bool) -> (b: bool)
    ensures
        b == (cur && !prev),
{
    cur && !prev
}

fn player_intent(keys: &Keys, pads: &Pads, schemes: &[SchemeInfo], scheme_index: usize) -> (p: PlayerIntent)
    requires
        schemes@.len() >= 1,
    ensures
        p == spec_player(*keys, *pads, schemes@, scheme_index),
{
    let last = schemes.len() - 1;
    let scheme = schemes[if scheme_index < last { scheme_index } else { last }];
    if !scheme.is_gamepad {
        if scheme_index == SCHEME_KB_WASD {
            PlayerIntent {
                left: keys.a_held,
                right: keys.d_held,
                jump: keys.w,
                slam: keys.s,
                attack: keys.space,
                attack_held: keys.space_held,
                dash: keys.left_shift,
            }
        } else {
            // The second keyboard player gets the other Shift, the one key on
            // that side that pairs with the arrows as the left one does with
            // W A S D.
            PlayerIntent {
                left: keys.left_held,
                right: keys.right_held,
                jump: keys.up,
                slam: keys.down,
                attack: keys.enter,
                attack_held: keys.enter_held,
                dash: keys.right_shift,
            }
        }
    } else {
        let slot = scheme.pad_index;
        if slot >= MAX_PLAYERS || !pads.connected[slot] {
            PlayerIntent::default()
        } else {
            let (c, p) = (pads.cur[slot], pads.prev[slot]);
            PlayerIntent {
                left: c.left,
                right: c.right,
                jump: edge(c.jump, p.jump),
                attack: edge(c.attack, p.attack),
                attack_held: c.attack,
                slam: edge(c.back, p.back) || edge(c.down, p.down),
                dash: edge(c.dash, p.dash),
            }
        }
    }
}

fn any_pressed(pads: &Pads, b: PadButton) -> (hit: bool)
    ensures
        hit == any_pad_pressed(*pads, b),
{
    let first = pads.connected[0] && edge(button(pads.cur[0], b), button(pads.prev[0], b));
    let second = pads.connected[1] && edge(button(pads.cur[1], b), button(pads.prev[1], b));
    first || second
}

/// One frame of intents from the keys and pads. `player_schemes` gives each
/// seated player's scheme; a scheme past the list reads as the last one, and a
/// pad scheme whose pad is missing asks for nothing.
pub fn read_frame(keys: &Keys, pads: &Pads, schemes: &[SchemeInfo], player_schemes: &[usize]) -> (frame: InputFrame)
    requires
        schemes@.len() >= 1,
    ensures
        frame.menu == spec_menu(*keys, *pads),
        frame.pause == (keys.escape || any_pad_pressed(*pads, PadButton::Pause)),
        frame.dev_menu == keys.eight,
        frame.pads_connected == pads.connected,
        forall|i: int|
            0 <= i < MAX_PLAYERS ==> #[trigger] frame.players[i] == (if i < player_schemes@.len() {
                spec_player(*keys, *pads, schemes@, player_schemes@[i])
            } else {
                idle_intent()
            }),
{
    let menu = MenuIntent {
        up: keys.up || keys.w || any_pressed(pads, PadButton::Up),
        down: keys.down || keys.s || any_pressed(pads, PadButton::Down),
        left: keys.left || keys.a || any_pressed(pads, PadButton::Left),
        right: keys.right || keys.d || any_pressed(pads, PadButton::Right),
        confirm: keys.enter || keys.space || any_pressed(pads, PadButton::Jump) || any_pressed(
            pads,
            PadButton::Attack,
        ),
        back: keys.escape || any_pressed(pads, PadButton::Back),
    };
    let pause = keys.escape || any_pressed(pads, PadButton::Pause);
    let p0 = if player_schemes.len() > 0 {
        player_intent(keys, pads, schemes, player_schemes[0])
    } else {
        PlayerIntent::default()
    };
    let p1 = if player_schemes.len() > 1 {
        player_intent(keys, pads, schemes, player_schemes[1])
    } else {
        PlayerIntent::default()
    };
    InputFrame { players: [p0, p1], menu, pause, dev_menu: keys.eight, pads_connected: pads.connected }
}

/// Each keyboard player answers to its own keys and to no one else's. On the
/// W A S D scheme: A and D walk, W jumps, S slams, Space swings and the left
/// Shift dashes; on the arrow scheme: the arrows walk, jump and slam, Enter
/// swings and the right Shift dashes. Whatever the other player's keys are
/// doing changes nothing.
pub proof fn lemma_keyboard_players_keep_to_their_keys(
    keys: Keys,
    other: Keys,
    pads: Pads,
    schemes: Seq<SchemeInfo>,
    scheme_index: usize,
)
    requires
        schemes.len() >= 1,
        scheme_index < schemes.len(),
        !schemes[scheme_index as int].is_gamepad,
    ensures
        scheme_index == SCHEME_KB_WASD ==> {
            let p = spec_player(keys, pads, schemes, scheme_index);
            &&& p.left == keys.a_held
            &&& p.right == keys.d_held
            &&& p.jump == keys.w
            &&& p.slam == keys.s
            &&& p.attack == keys.space
            &&& p.attack_held == keys.space_held
            &&& p.dash == keys.left_shift
        },
        scheme_index != SCHEME_KB_WASD ==> {
            let p = spec_player(keys, pads, schemes, scheme_index);
            &&& p.left == keys.left_held
            &&& p.right == keys.right_held
            &&& p.jump == keys.up
            &&& p.slam == keys.down
            &&& p.attack == keys.enter
            &&& p.attack_held == keys.enter_held
            &&& p.dash == keys.right_shift
        },
        // The arrow side's keys do not reach the W A S D player.
        scheme_index == SCHEME_KB_WASD && other == (Keys {
            left_held: other.left_held,
            right_held: other.right_held,
            up: other.up,
            down: other.down,
            left: other.left,
            right: other.right,
            enter: other.enter,
            enter_held: other.enter_held,
            right_shift: other.right_shift,
            ..keys
        }) ==> spec_player(other, pads, schemes, scheme_index) == spec_player(keys, pads, schemes, scheme_index),
        // Nor do the W A S D side's reach the arrow player.
        scheme_index != SCHEME_KB_WASD && other == (Keys {
            a_held: other.a_held,
            d_held: other.d_held,
            w: other.w,
            a: other.a,
            s: other.s,
            d: other.d,
            space: other.space,
            space_held: other.space_held,
            left_shift: other.left_shift,
            ..keys
        }) ==> spec_player(other, pads, schemes, scheme_index) == spec_player(keys, pads, schemes, scheme_index),
{
}

} // verus!
