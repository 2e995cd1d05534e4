//! What the logger decides: which records are written, and how a record reads.

use vstd::prelude::*;
use vstd::string::StringExecFns;
use crate::text::{from_chars, starts_with, to_chars};

verus! {

/// How much a record matters, from the most to the least.
#[derive(Clone, Copy, Debug, PartialEq, Eq, Structural)]
pub enum LogLevel {
    Error,
    Warn,
    Info,
    Debug,
    Trace,
}

impl LogLevel {
    /// The place of the level in the order: a smaller number matters more.
    pub open spec fn rank_spec(&self) -> u8 {
        match self {
            LogLevel::Error => 1,
            LogLevel::Warn => 2,
            LogLevel::Info => 3,
            LogLevel::Debug => 4,
            LogLevel::Trace => 5,
        }
    }

    /// The name of the level as it is written.
    pub open spec fn name_spec(&self) -> Seq<char> {
        match self {
            LogLevel::Error => "ERROR"@,
            LogLevel::Warn => "WARN"@,
            LogLevel::Info => "INFO"@,
            LogLevel::Debug => "DEBUG"@,
            LogLevel::Trace => "TRACE"@,
        }
    }

    /// The place of the level in the order.
    #[verifier::when_used_as_spec(rank_spec)]
    pub fn rank(&self) -> (r: u8)
        ensures
            r == self.rank_spec(),
    {
        match self {
            LogLevel::Error => 1,
            LogLevel::Warn => 2,
            LogLevel::Info => 3,
            LogLevel::Debug => 4,
            LogLevel::Trace => 5,
        }
    }

    /// The name of the level as it is written.
    pub fn name(&self) -> (r: &'static str)
        ensures
            r@ == self.name_spec(),
    {
        match self {
            LogLevel::Error => "ERROR",
            LogLevel::Warn => "WARN",
            LogLevel::Info => "INFO",
            LogLevel::Debug => "DEBUG",
            LogLevel::Trace => "TRACE",
        }
    }
}

/// The part of a target below this crate: what follows
/// `more_auto_shoutouts::`, and nothing for a target that lies elsewhere.
pub open spec fn own_target(target: Seq<char>) -> Seq<char> {
    let root = "more_auto_shoutouts::"@;
    if target.len() >= root.len() && target.subrange(0, root.len() as int) == root {
        target.subrange(root.len() as int, target.len() as int)
    } else {
        Seq::empty()
    }
}

/// The logger of the plugin.
#[derive(Debug)]
pub struct MASLogger {
    /// What every line begins with, in brackets.
    pub prefix: String,
}

impl MASLogger {
    /// The logger, with the name of the plugin as its prefix.
    pub fn new() -> (r: Self)
        ensures
            r.prefix@ == "More Auto Shoutouts"@,
    {
        Self { prefix: String::from_str("More Auto Shoutouts") }
    }

    /// Whether a record of the level `level` is written, `target_max_level`
    /// being the least that still matters for its target, where one is
    /// set: debugging records and all that matter more are written, unless
    /// the target asks for less.
    pub open spec fn enabled_spec(level: LogLevel, target_max_level: Option<LogLevel>) -> bool {
        let most = match target_max_level {
            Some(most) => most,
            None => LogLevel::Debug,
        };
        level.rank_spec() <= most.rank_spec() && level.rank_spec() <= LogLevel::Debug.rank_spec()
    }

    /// Whether a record of the level `level` is written.
    pub fn enabled(&self, level: LogLevel, target_max_level: Option<LogLevel>) -> (r: bool)
        ensures
            r == Self::enabled_spec(level, target_max_level),
    {
        let most: LogLevel = match target_max_level {
            Some(most) => most,
            None => LogLevel::Debug,
        };
        if most.rank() < level.rank() {
            return false;
        }
        level.rank() <= LogLevel::Debug.rank()
    }

    /// A record as it is written: the prefix in brackets, the level, the
    /// target below this crate and the message, with dashes between.
    pub open spec fn line_spec(&self, level: LogLevel, target: Seq<char>, message: Seq<char>) -> Seq<
        char,
    > {
        "["@ + self.prefix@ + "] "@ + level.name_spec() + " - "@ + own_target(target) + " - "@
            + message
    }

    /// A record as it is written.
    pub fn line(&self, level: LogLevel, target: &str, message: &str) -> (r: String)
        ensures
            r@ == self.line_spec(level, target@, message@),
    {
        let chars: Vec<char> = to_chars(target);
        let root: Vec<char> = to_chars("more_auto_shoutouts::");
        let mut own: Vec<char> = Vec::new();
        if starts_with(&chars, &root) {
            let mut i: usize = root.len();
            while i < chars.len()
                invariant
                    root.len() <= i <= chars.len(),
                    own@ == chars@.subrange(root.len() as int, i as int),
                decreases chars.len() - i,
            {
                own.push(chars[i]);
                i += 1;
            }
        }
        let own: String = from_chars(&own);
        String::from_str("[").concat(self.prefix.as_str()).concat("] ").concat(level.name()).concat(
            " - ",
        ).concat(own.as_str()).concat(" - ").concat(message)
    }
}

} // verus!
