//! Platform-free rules of E-Rect: wave pacing, spawn tables, rolled enemies,
//! upgrades, settings and menus, all as plain integer data.
use vstd::prelude::*;

pub mod attack;
pub mod audio;
pub mod config;
pub mod rng;
pub mod boon;
pub mod input;
pub mod menu;
pub mod settings;
pub mod waves;
pub mod dev;
pub mod recipe;
pub mod offer;
pub mod mixer;
pub mod packs;
pub mod entities;
pub mod game;
pub mod text;
pub mod flow;
pub mod charge;
pub mod controls;
pub mod stance;
pub mod rounding;
pub mod notice;
