//! Decision engine of a breath-controlled wind instrument: it turns a key
//! bitmask and a breath pressure, sampled once per tick, into note and control
//! events for a tone generator.

pub mod action;
pub mod audio;
pub mod commands;
pub mod engine;
pub mod fingerings;
pub mod keyscan;
pub mod midinotes;
pub mod notemap;
pub mod pressure;
pub mod transpose;
pub mod trigger;
