//! Decisions of a streaming overlay: countdown clocks, expiring effects,
//! selection markers, toggle buttons and the reactions to stream events.
//!
//! Every function here works on plain values and carries a contract; the
//! engine that draws the overlay and the network clients live with the caller.

pub mod clock;
pub mod countdown;
pub mod draggable_interface;
pub mod enable_disable_button;
pub mod events;
pub mod expire;
pub mod particles;
pub mod twitcheventsub;
