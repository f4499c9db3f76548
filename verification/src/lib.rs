//! Event model and text rendering for a collector that follows network
//! packets through the kernel.
//!
//! An [`event::Event`] is made of typed sections. Each section renders
//! itself into an indenting [`display::Formatter`]; the sinks of [`sink`]
//! turn whole events, and series of events, into the text or the JSON that
//! is written out. Raw packets are shown by a disassembler, which [`pcap`]
//! knows how to talk to. [`probe`], [`inspect`] and [`usdt`] decide where
//! events are collected; [`clock`], [`time`], [`net`] and [`text`] are
//! helpers.

pub mod clock;
pub mod common;
pub mod display;
pub mod event;
pub mod inspect;
pub mod json;
pub mod net;
pub mod pcap;
pub mod probe;
pub mod sink;
pub mod skb;
pub mod text;
pub mod time;
pub mod usdt;
