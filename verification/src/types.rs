//! Small value types shared by every part of the protocol.

use vstd::prelude::*;
use vstd::string::*;
use crate::text::{decimal_text, push_decimal_text};
use crate::util::{parse_u64, spec_parse_u64};

verus! {

/// Discord's unique identifier for users, lobbies, channels and messages.
#[derive(Debug, Copy, Clone, PartialEq, Eq, Structural, PartialOrd, Ord, Hash)]
pub struct Snowflake(pub u64);

/// Milliseconds between the Unix epoch and the first second of 2015, the
/// origin of the time that a [`Snowflake`] carries.
pub const DISCORD_EPOCH_MS: u64 = 1420070400000;

impl Snowflake {
    /// The creation time in milliseconds since the Unix epoch.
    pub open spec fn spec_timestamp_millis(self) -> int {
        self.0 as int / 4194304 + DISCORD_EPOCH_MS as int
    }

    /// The time at which the identifier was made, in milliseconds since the
    /// Unix epoch: the upper 42 bits, counted from the first second of 2015.
    pub fn timestamp_millis(self) -> (ms: u64)
        ensures
            ms == self.spec_timestamp_millis(),
    {
        let upper: u64 = self.0 / 4194304;
        upper + DISCORD_EPOCH_MS
    }

    /// Reads an identifier from its decimal text, as JSON strings carry it:
    /// digits after an optional plus sign, and a value of 64 bits.
    pub fn from_text(text: &str) -> (r: Option<Snowflake>)
        ensures
            match spec_parse_u64(text.spec_bytes()) {
                Some(id) => r == Some(Snowflake(id)),
                None => r is None,
            },
    {
        match parse_u64(text.as_bytes()) {
            Some(id) => Some(Snowflake(id)),
            None => None,
        }
    }

    /// Reads an identifier from a signed number, as JSON numbers may carry
    /// it: a negative number is none.
    pub fn from_signed(value: i64) -> (r: Option<Snowflake>)
        ensures
            r == if value >= 0 {
                Some(Snowflake(value as u64))
            } else {
                None
            },
    {
        if value >= 0 {
            Some(Snowflake(value as u64))
        } else {
            None
        }
    }

    /// The identifier in decimal, as it is written on the wire and shown
    /// to people.
    pub fn to_text(self) -> (text: String)
        ensures
            text@ == decimal_text(self.0 as nat),
    {
        let mut text = String::new();
        push_decimal_text(self.0, &mut text);
        assert(text@ =~= decimal_text(self.0 as nat));
        text
    }

    /// The creation time split into whole seconds and the nanoseconds within
    /// the second.
    pub fn timestamp(self) -> (parts: (i64, u32))
        ensures
            parts.0 == self.spec_timestamp_millis() / 1000,
            parts.1 == (self.spec_timestamp_millis() % 1000) * 1000000,
    {
        let millis: u64 = self.timestamp_millis();
        let secs: u64 = millis / 1000;
        let rem: u64 = millis % 1000;
        (secs as i64, (rem as u32) * 1000000)
    }
}

/// The body of an error event: both members are optional on the wire.
#[derive(Debug, Clone, PartialEq, Eq)]
pub struct ErrorPayload {
    pub code: Option<u32>,
    pub message: Option<String>,
}

/// The kind of Discord build that answered the handshake.
#[derive(Debug, Clone, PartialEq, Eq)]
pub enum Environment {
    Production,
    Other(String),
}

/// Configuration that Discord sends along with the ready event.
#[derive(Debug, Clone, PartialEq, Eq)]
pub struct DiscordConfig {
    /// The CDN host that serves user avatars.
    pub cdn_host: String,
    pub environment: Environment,
    /// The host and path of the REST API, without a scheme.
    pub api_endpoint: String,
}

/// The text of an optional string, as a sequence of characters.
pub open spec fn opt_text(s: Option<String>) -> Option<Seq<char>> {
    match s {
        Some(s) => Some(s@),
        None => None,
    }
}

} // verus!
