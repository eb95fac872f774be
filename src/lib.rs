//! Match events of a mahjong log and their wire form.
//!
//! `pai` holds tiles and their text forms, `consumed` the melds that calls
//! form (kept in canonical order), `event` the events and the facts derived
//! from them, `wire` the keyed records events are written as, and `codec`
//! writing and reading events, with the laws that tie the two together.

pub mod pai;
pub mod consumed;
pub mod event;
pub mod wire;
pub mod codec;
