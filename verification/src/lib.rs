//! Verified core of a WhatsApp automation binding: event payloads, event
//! dispatch, media framing, the audio player's control logic, poll tallying,
//! store protocol decoding and request validation.
use vstd::prelude::*;

pub mod dispatch;
pub mod download;
pub mod events;
pub mod helpers;
pub mod jid;
pub mod media;
pub mod outgoing;
pub mod player;
pub mod store;
pub mod polls;
pub mod requests;
pub mod runner;
pub mod text;
pub mod types;

verus! {
} // verus!
