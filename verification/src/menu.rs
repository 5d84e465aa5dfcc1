//! Title and settings menus.
//!
//! Rows are laid out from `top_pct` deterministically so the renderer and the
//! game agree on geometry without passing anything between them. Every menu
//! sits on a whole percentage of the screen height and rows are a whole
//! percentage apart, so positions are kept as integer percentages.
use vstd::prelude::*;

use crate::settings::VolumeChannel;

verus! {

/// Height of one menu row, as a percentage of the screen height.
pub const MENU_ROW_H_PCT: u32 = 9;

/// What activating a row should do. Rows that carry a value are adjusted with
/// left/right instead of being confirmed.
#[derive(Clone, Copy, Debug, PartialEq, Eq, Structural)]
pub enum MenuAction {
    StartRun(usize),
    OpenSettings,
    Back,
    AdjustScheme(usize),
    AdjustColor(usize),
    AdjustVolume(VolumeChannel),
    /// Close the pause menu and carry on.
    Resume,
    /// Cut the lull short and bring the next wave on now.
    StartWave,
    /// Leaving a run throws away its progress, so it asks first.
    AskAbandon,
    AbandonRun,
    KeepPlaying,
    /// Leaving the game is the platform's business, so the core only records
    /// that it was asked for.
    Quit,
    /* developer menu */
    AdjustDevWave,
    AdjustDevScore,
    AdjustDevKind,
    AdjustDevRule,
    AdjustDevPlayers,
    /// Begin a run on the parameters set above.
    StartDevRun,
}

pub open spec fn spec_is_adjustable(action: MenuAction) -> bool {
    match action {
        MenuAction::AdjustScheme(_) | MenuAction::AdjustColor(_) | MenuAction::AdjustVolume(_)
        | MenuAction::AdjustDevWave | MenuAction::AdjustDevScore | MenuAction::AdjustDevKind
        | MenuAction::AdjustDevRule | MenuAction::AdjustDevPlayers => true,
        _ => false,
    }
}

pub struct MenuRow {
    pub label: String,
    pub action: MenuAction,
    /// Colour swatch drawn to the left of the label, for the colour rows.
    pub swatch: Option<usize>,
}

impl View for MenuRow {
    type V = (Seq<char>, MenuAction, Option<usize>);

    open spec fn view(&self) -> (Seq<char>, MenuAction, Option<usize>) {
        (self.label@, self.action, self.swatch)
    }
}

impl MenuRow {
    pub fn is_adjustable(&self) -> (b: bool)
        ensures
            b == spec_is_adjustable(self.action),
    {
        match self.action {
            MenuAction::AdjustScheme(_) | MenuAction::AdjustColor(_) | MenuAction::AdjustVolume(_)
            | MenuAction::AdjustDevWave | MenuAction::AdjustDevScore | MenuAction::AdjustDevKind
            | MenuAction::AdjustDevRule | MenuAction::AdjustDevPlayers => true,
            _ => false,
        }
    }
}

/// One menu's position on screen and which row is selected.
#[derive(Clone, Copy, Debug, PartialEq, Eq, Structural)]
pub struct Menu {
    pub top_pct: u32,
    pub index: usize,
}

/// Where a cursor at `index` lands after moving `delta` rows through
/// `row_count` rows, wrapping at both ends.
pub open spec fn wrapped_index(index: int, delta: int, row_count: int) -> int {
    (index + delta) % row_count
}

/// A menu after its cursor moved `delta` rows through `row_count` rows.
pub open spec fn spec_move_by(m: Menu, delta: int, row_count: usize) -> Menu {
    if row_count == 0 {
        m
    } else {
        Menu { index: wrapped_index(m.index as int, delta, row_count as int) as usize, ..m }
    }
}

impl Menu {
    pub fn new(top_pct: u32) -> (m: Self)
        ensures
            m.top_pct == top_pct,
            m.index == 0,
    {
        Self { top_pct, index: 0 }
    }

    /// The top of row `index`, as a percentage of the screen height.
    pub fn row_y_pct(&self, index: usize) -> (y: u128)
        ensures
            y == self.top_pct + index * MENU_ROW_H_PCT,
    {
        self.top_pct as u128 + index as u128 * 9
    }

    /// Moves the cursor `delta` rows and wraps. A menu with no rows has nowhere
    /// to go, so the cursor stays put.
    pub fn move_by(&mut self, delta: i32, row_count: usize)
        ensures
            *final(self) == spec_move_by(*old(self), delta as int, row_count),
            row_count == 0 ==> *final(self) == *old(self),
            row_count > 0 ==> final(self).index == wrapped_index(
                old(self).index as int,
                delta as int,
                row_count as int,
            ),
            row_count > 0 ==> final(self).index < row_count,
            final(self).top_pct == old(self).top_pct,
    {
        if row_count == 0 {
            return;
        }
        self.index = wrap(self.index, delta, row_count);
    }
}

/// `index + delta`, wrapped into `0..len`.
pub fn wrap(index: usize, delta: i32, len: usize) -> (r: usize)
    requires
        len > 0,
    ensures
        r == wrapped_index(index as int, delta as int, len as int),
        r < len,
{
    let moved: i128 = index as i128 + delta as i128;
    let n: i128 = len as i128;
    if moved >= 0 {
        (moved % n) as usize
    } else {
        let back: i128 = (-moved) % n;
        proof {
            lemma_wrap_negative(moved as int, n as int);
        }
        if back == 0 {
            0
        } else {
            (n - back) as usize
        }
    }
}

proof fn lemma_wrap_negative(moved: int, n: int)
    requires
        moved < 0,
        n > 0,
    ensures
        ((-moved) % n == 0 ==> moved % n == 0),
        ((-moved) % n != 0 ==> moved % n == n - (-moved) % n),
{
    let q = (-moved) / n;
    let r = (-moved) % n;
    vstd::arithmetic::div_mod::lemma_fundamental_div_mod(-moved, n);
    if r == 0 {
        assert(moved == (-q) * n + 0) by (nonlinear_arith)
            requires
                -moved == n * q + r,
                r == 0,
        ;
        vstd::arithmetic::div_mod::lemma_fundamental_div_mod_converse(moved, n, -q, 0);
    } else {
        assert(moved == (-q - 1) * n + (n - r)) by (nonlinear_arith)
            requires
                -moved == n * q + r,
        ;
        vstd::arithmetic::div_mod::lemma_fundamental_div_mod_converse(moved, n, -q - 1, n - r);
    }
}

} // verus!
