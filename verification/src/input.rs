//! What the player is asking for this tick, as plain data.
//!
//! Frontends fill this in from whatever they have - key polling and gamepads
//! on a desktop, a pad on a handheld. The core never touches a device.
use vstd::prelude::*;

use crate::config::MAX_PLAYERS;

verus! {

/// Held state for movement, edge-triggered for one-shot actions.
#[derive(Clone, Copy, Debug, PartialEq, Eq, Structural)]
pub struct PlayerIntent {
    pub left: bool,
    pub right: bool,
    pub jump: bool,
    pub slam: bool,
    pub attack: bool,
    /// The attack button held down, as opposed to the edge above.
    ///
    /// Only the thrown attack reads it, and only to keep firing. Every other
    /// kind wants exactly one swing per press.
    pub attack_held: bool,
    pub dash: bool,
}

#[derive(Clone, Copy, Debug, PartialEq, Eq, Structural)]
pub struct MenuIntent {
    pub up: bool,
    pub down: bool,
    pub left: bool,
    pub right: bool,
    pub confirm: bool,
    pub back: bool,
}

#[derive(Clone, Copy, Debug, PartialEq, Eq)]
pub struct InputFrame {
    pub players: [PlayerIntent; MAX_PLAYERS],
    pub menu: MenuIntent,
    pub pause: bool,
    /// Opens the developer menu from the title screen. A deliberately awkward
    /// chord on every platform: nothing behind it should be reachable by a
    /// player who was not looking for it.
    pub dev_menu: bool,
    /// Drives the "(OFF)" marker on the settings screen.
    pub pads_connected: [bool; MAX_PLAYERS],
}

pub open spec fn idle_intent() -> PlayerIntent {
    PlayerIntent {
        left: false,
        right: false,
        jump: false,
        slam: false,
        attack: false,
        attack_held: false,
        dash: false,
    }
}

pub open spec fn idle_menu() -> MenuIntent {
    MenuIntent { up: false, down: false, left: false, right: false, confirm: false, back: false }
}

/// A player's intent with every one-shot edge dropped and the held state kept.
pub open spec fn held_only(p: PlayerIntent) -> PlayerIntent {
    PlayerIntent { jump: false, slam: false, attack: false, dash: false, ..p }
}

impl Default for PlayerIntent {
    fn default() -> (p: Self)
        ensures
            p == idle_intent(),
    {
        PlayerIntent {
            left: false,
            right: false,
            jump: false,
            slam: false,
            attack: false,
            attack_held: false,
            dash: false,
        }
    }
}

impl Default for MenuIntent {
    fn default() -> (m: Self)
        ensures
            m == idle_menu(),
    {
        MenuIntent { up: false, down: false, left: false, right: false, confirm: false, back: false }
    }
}

impl Default for InputFrame {
    fn default() -> (f: Self)
        ensures
            forall|i: int| 0 <= i < MAX_PLAYERS ==> #[trigger] f.players[i] == idle_intent(),
            forall|i: int| 0 <= i < MAX_PLAYERS ==> !#[trigger] f.pads_connected[i],
            f.menu == idle_menu(),
            !f.pause,
            !f.dev_menu,
    {
        InputFrame {
            players: [PlayerIntent::default(), PlayerIntent::default()],
            menu: MenuIntent::default(),
            pause: false,
            dev_menu: false,
            pads_connected: [false, false],
        }
    }
}

impl InputFrame {
    /// One-shot intents must fire on exactly one simulation tick, even when a
    /// rendered frame ran several of them.
    ///
    /// Every edge is dropped; what is held, and which pads are connected, stay.
    pub fn clear_edges(&mut self)
        ensures
            forall|i: int|
                0 <= i < MAX_PLAYERS ==> #[trigger] final(self).players[i] == held_only(
                    old(self).players[i],
                ),
            final(self).menu == idle_menu(),
            !final(self).pause,
            !final(self).dev_menu,
            final(self).pads_connected == old(self).pads_connected,
    {
        let mut i: usize = 0;
        while i < MAX_PLAYERS
            invariant
                i <= MAX_PLAYERS,
                forall|j: int|
                    0 <= j < i ==> #[trigger] self.players[j] == held_only(old(self).players[j]),
                forall|j: int| i <= j < MAX_PLAYERS ==> #[trigger] self.players[j] == old(self).players[j],
                self.menu == old(self).menu,
                self.pause == old(self).pause,
                self.dev_menu == old(self).dev_menu,
                self.pads_connected == old(self).pads_connected,
            decreases MAX_PLAYERS - i,
        {
            let mut p = self.players[i];
            p.jump = false;
            p.slam = false;
            p.attack = false;
            p.dash = false;
            self.players[i] = p;
            i += 1;
        }
        self.menu = MenuIntent::default();
        self.pause = false;
        self.dev_menu = false;
    }
}

/// Two players' intents folded together: anything either asks for is asked.
pub open spec fn merged_intent(a: PlayerIntent, b: PlayerIntent) -> PlayerIntent {
    PlayerIntent {
        left: a.left || b.left,
        right: a.right || b.right,
        jump: a.jump || b.jump,
        slam: a.slam || b.slam,
        attack: a.attack || b.attack,
        attack_held: a.attack_held || b.attack_held,
        dash: a.dash || b.dash,
    }
}

pub open spec fn merged_menu(a: MenuIntent, b: MenuIntent) -> MenuIntent {
    MenuIntent {
        up: a.up || b.up,
        down: a.down || b.down,
        left: a.left || b.left,
        right: a.right || b.right,
        confirm: a.confirm || b.confirm,
        back: a.back || b.back,
    }
}

/// A player's intent with the held state dropped and the one-shot edges kept.
pub open spec fn edges_of(p: PlayerIntent) -> PlayerIntent {
    PlayerIntent { left: false, right: false, attack_held: false, ..p }
}

fn merge_intent(a: PlayerIntent, b: PlayerIntent) -> (m: PlayerIntent)
    ensures
        m == merged_intent(a, b),
{
    PlayerIntent {
        left: a.left || b.left,
        right: a.right || b.right,
        jump: a.jump || b.jump,
        slam: a.slam || b.slam,
        attack: a.attack || b.attack,
        attack_held: a.attack_held || b.attack_held,
        dash: a.dash || b.dash,
    }
}

impl InputFrame {
    /// Folds a second source of intents into this one. Nothing is exclusive:
    /// a keyboard and a drawn pad can be used at once, and neither has to know
    /// about the other. Which pads are connected is this frame's own business.
    pub fn merge(&mut self, from: &InputFrame)
        ensures
            forall|i: int|
                0 <= i < MAX_PLAYERS ==> #[trigger] final(self).players[i] == merged_intent(
                    old(self).players[i],
                    from.players[i],
                ),
            final(self).menu == merged_menu(old(self).menu, from.menu),
            final(self).pause == (old(self).pause || from.pause),
            final(self).dev_menu == (old(self).dev_menu || from.dev_menu),
            final(self).pads_connected == old(self).pads_connected,
    {
        let p0 = merge_intent(self.players[0], from.players[0]);
        let p1 = merge_intent(self.players[1], from.players[1]);
        self.players = [p0, p1];
        let (a, b) = (self.menu, from.menu);
        self.menu = MenuIntent {
            up: a.up || b.up,
            down: a.down || b.down,
            left: a.left || b.left,
            right: a.right || b.right,
            confirm: a.confirm || b.confirm,
            back: a.back || b.back,
        };
        self.pause = self.pause || from.pause;
        self.dev_menu = self.dev_menu || from.dev_menu;
    }

    /// The one-shot half of a frame, with the held half dropped. Held state is
    /// read afresh every frame and must not be carried; edges are the opposite
    /// - they happen once and have to survive until a tick can take them.
    pub fn edges_only(&self) -> (kept: InputFrame)
        ensures
            forall|i: int| 0 <= i < MAX_PLAYERS ==> #[trigger] kept.players[i] == edges_of(self.players[i]),
            kept.menu == self.menu,
            kept.pause == self.pause,
            kept.dev_menu == self.dev_menu,
            kept.pads_connected == self.pads_connected,
    {
        let mut kept = *self;
        let mut i: usize = 0;
        while i < MAX_PLAYERS
            invariant
                i <= MAX_PLAYERS,
                forall|j: int| 0 <= j < i ==> #[trigger] kept.players[j] == edges_of(self.players[j]),
                forall|j: int| i <= j < MAX_PLAYERS ==> #[trigger] kept.players[j] == self.players[j],
                kept.menu == self.menu,
                kept.pause == self.pause,
                kept.dev_menu == self.dev_menu,
                kept.pads_connected == self.pads_connected,
            decreases MAX_PLAYERS - i,
        {
            let mut p = kept.players[i];
            p.left = false;
            p.right = false;
            p.attack_held = false;
            kept.players[i] = p;
            i += 1;
        }
        kept
    }
}

/// Carrying a frame's edges over and reading the held state afresh loses
/// nothing: merging the edges of a frame back into its held half gives the
/// frame itself.
pub proof fn lemma_edges_and_held_make_the_frame(p: PlayerIntent)
    ensures
        merged_intent(held_only(p), edges_of(p)) == p,
{
}

} // verus!
