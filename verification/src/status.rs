//! The transient status message with lazy expiry.
//!
//! A message carries the timestamp it was set at (milliseconds on the
//! caller's monotonic clock) and becomes invisible once older than the
//! fixed time-to-live; the next read clears it.

use vstd::prelude::*;

verus! {

/// How long a status message stays visible, in milliseconds.
pub const MESSAGE_TTL_MS: u64 = 5000;

/// Whether a message set at `set_at` is no longer visible at `now`.
pub open spec fn message_stale(set_at: u64, now: u64) -> bool {
    now > set_at && now - set_at > MESSAGE_TTL_MS
}

/// A transient one-line message and the moment it was set.
pub struct StatusMessage {
    pub text: Option<String>,
    pub set_at: u64,
}

/// The state of a message after lazy expiry at `now`.
pub open spec fn expire_spec(m: StatusMessage, now: u64) -> StatusMessage {
    if m.text is Some && message_stale(m.set_at, now) {
        StatusMessage { text: None, set_at: m.set_at }
    } else {
        m
    }
}

impl StatusMessage {
    /// No message.
    pub fn new() -> (m: StatusMessage)
        ensures
            m.text is None,
            m.set_at == 0,
    {
        StatusMessage { text: None, set_at: 0 }
    }

    /// Shows `text` from `now` on.
    pub fn set(&mut self, text: String, now: u64)
        ensures
            final(self).text == Some(text),
            final(self).set_at == now,
    {
        self.text = Some(text);
        self.set_at = now;
    }

    /// Clears the message if it has outlived its time-to-live.
    pub fn expire(&mut self, now: u64)
        ensures
            *final(self) == expire_spec(*old(self), now),
    {
        if self.text.is_some() && now > self.set_at && now - self.set_at > MESSAGE_TTL_MS {
            self.text = None;
        }
    }
}

} // verus!
