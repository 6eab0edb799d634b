//! Handlers that are ready to use.

use vstd::prelude::*;
use crate::handler::{DiscordHandler, DiscordMsg};

verus! {

/// How loud a message is when it is printed.
#[derive(Copy, Clone, Debug, PartialEq, Eq, Structural)]
pub enum Level {
    Debug,
    Warn,
}

/// A handler that only counts what it would print: events at debug level,
/// errors as warnings.
#[derive(Copy, Clone, Debug, PartialEq, Eq, Structural)]
pub struct Printer {
    pub events: u64,
    pub errors: u64,
}

impl Printer {
    /// A printer that has printed nothing.
    pub fn new() -> (p: Printer)
        ensures
            p.events == 0,
            p.errors == 0,
    {
        Printer { events: 0, errors: 0 }
    }

    /// The level at which a message is printed.
    pub fn level(msg: &DiscordMsg) -> (level: Level)
        ensures
            level == match *msg {
                DiscordMsg::Event(_) => Level::Debug,
                DiscordMsg::Error(_) => Level::Warn,
            },
    {
        match msg {
            DiscordMsg::Event(_) => Level::Debug,
            DiscordMsg::Error(_) => Level::Warn,
        }
    }

    /// One more, as far as 64 bits count.
    pub open spec fn spec_bump(n: u64) -> u64 {
        if n == u64::MAX {
            n
        } else {
            (n + 1) as u64
        }
    }

    /// Counts a message and says at which level it is printed.
    pub fn note(&mut self, msg: &DiscordMsg) -> (level: Level)
        ensures
            match *msg {
                DiscordMsg::Event(_) => {
                    &&& level == Level::Debug
                    &&& final(self).events == Self::spec_bump(old(self).events)
                    &&& final(self).errors == old(self).errors
                },
                DiscordMsg::Error(_) => {
                    &&& level == Level::Warn
                    &&& final(self).errors == Self::spec_bump(old(self).errors)
                    &&& final(self).events == old(self).events
                },
            },
    {
        match msg {
            DiscordMsg::Event(_) => {
                if self.events < u64::MAX {
                    self.events = self.events + 1;
                }
                Level::Debug
            },
            DiscordMsg::Error(_) => {
                if self.errors < u64::MAX {
                    self.errors = self.errors + 1;
                }
                Level::Warn
            },
        }
    }
}

impl DiscordHandler for Printer {
    /// Counts the message: an event among the events, an error among the
    /// errors.
    fn on_message(&mut self, msg: DiscordMsg)
        ensures
            match msg {
                DiscordMsg::Event(_) => {
                    &&& final(self).events == Self::spec_bump(old(self).events)
                    &&& final(self).errors == old(self).errors
                },
                DiscordMsg::Error(_) => {
                    &&& final(self).errors == Self::spec_bump(old(self).errors)
                    &&& final(self).events == old(self).events
                },
            },
    {
        let _ = self.note(&msg);
    }
}

/// A handler that keeps every message for the caller to take.
pub struct Forwarder {
    pub queue: Vec<DiscordMsg>,
}

impl Forwarder {
    /// A forwarder that holds nothing.
    pub fn new() -> (f: Forwarder)
        ensures
            f.queue@.len() == 0,
    {
        Forwarder { queue: Vec::new() }
    }

    /// Takes out what was forwarded, oldest first.
    pub fn take(&mut self) -> (msgs: Vec<DiscordMsg>)
        ensures
            msgs@ == old(self).queue@,
            final(self).queue@.len() == 0,
    {
        let mut msgs: Vec<DiscordMsg> = Vec::new();
        core::mem::swap(&mut msgs, &mut self.queue);
        msgs
    }

    /// Keeps a message behind those that are kept already.
    pub fn forward(&mut self, msg: DiscordMsg)
        ensures
            final(self).queue@ == old(self).queue@.push(msg),
    {
        self.queue.push(msg);
    }
}

impl DiscordHandler for Forwarder {
    /// Keeps the message behind those that are kept already.
    fn on_message(&mut self, msg: DiscordMsg)
        ensures
            final(self).queue@ == old(self).queue@.push(msg),
    {
        self.forward(msg);
    }
}

} // verus!
