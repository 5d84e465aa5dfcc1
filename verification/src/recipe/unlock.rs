//! The wave each trait of a rolled enemy becomes available, taken from where
//! the fixed roster introduces the enemy it belongs to.
//!
//! A rolled enemy is read against the roster: the player recognises a hop or a
//! blink because they have met the enemy that does it. A trait handed out
//! before its owner has ever appeared is not a combination of known parts, it
//! is a surprise.
use vstd::prelude::*;

use crate::config::SHEDDER_MIN_WAVE;

verus! {

/// The base enemy.
pub const RUN: i64 = 1;
/// The base flyer.
pub const FLY: i64 = 1;
/// The jumper.
pub const HOP: i64 = 3;
/// The leaper.
pub const LEAP: i64 = 4;

pub const NORMAL: i64 = 1;
pub const FLYER_SIZED: i64 = 1;
/// The runt.
pub const SMALL: i64 = 2;
/// The first boss wave.
pub const LARGE: i64 = 5;

/// The splitter, the first enemy that makes more.
pub const BROOD: i64 = 7;
/// The blinker.
pub const BLINK: i64 = 8;
/// The shooter.
pub const SHOOT: i64 = 9;
/// The shedder, whose wave lives in the config rather than in the spawn table.
pub const SHED: i64 = SHEDDER_MIN_WAVE;

} // verus!
