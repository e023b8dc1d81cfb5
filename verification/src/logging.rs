//! The last messages of each part of the program.

use std::collections::VecDeque;
use vstd::prelude::*;
#[allow(unused_imports)]
use vstd::string::*;

use crate::conn_status::{rgb, Rgb};
use crate::text::{push_time_of_day, push_zero_padded, text_eq, time_of_day, zero_padded};

verus! {

/// How many messages are kept.
pub const MAX_MESSAGES: usize = 100;

#[derive(Clone, Copy, Debug, PartialEq, Eq, Structural)]
pub enum Level {
    Error,
    Warn,
    Info,
    Debug,
    Trace,
}

/// The levels up to one of them, or none.
#[derive(Clone, Copy, Debug, PartialEq, Eq, Structural)]
pub enum LevelFilter {
    Off,
    UpTo(Level),
}

impl Level {
    /// The more a level lets through, the higher it is.
    pub open spec fn rank(self) -> int {
        match self {
            Level::Error => 1,
            Level::Warn => 2,
            Level::Info => 3,
            Level::Debug => 4,
            Level::Trace => 5,
        }
    }

    fn order(self) -> (r: u8)
        ensures
            r == self.rank(),
    {
        match self {
            Level::Error => 1,
            Level::Warn => 2,
            Level::Info => 3,
            Level::Debug => 4,
            Level::Trace => 5,
        }
    }

    pub open spec fn passes(self, filter: LevelFilter) -> bool {
        filter matches LevelFilter::UpTo(max) && self.rank() <= max.rank()
    }

    pub fn is_shown(self, filter: LevelFilter) -> (r: bool)
        ensures
            r == self.passes(filter),
    {
        match filter {
            LevelFilter::Off => false,
            LevelFilter::UpTo(max) => self.order() <= max.order(),
        }
    }

    /// The colour of a message; `None` for that of ordinary text.
    pub fn color(self) -> (c: Option<Rgb>)
        ensures
            c == (match self {
                Level::Error => Some(rgb(220, 80, 80)),
                Level::Warn => Some(rgb(220, 180, 60)),
                Level::Info => None,
                Level::Debug => Some(rgb(160, 160, 160)),
                Level::Trace => Some(rgb(160, 160, 160)),
            }),
    {
        match self {
            Level::Error => Some(Rgb { r: 220, g: 80, b: 80 }),
            Level::Warn => Some(Rgb { r: 220, g: 180, b: 60 }),
            Level::Info => None,
            Level::Debug => Some(Rgb { r: 160, g: 160, b: 160 }),
            Level::Trace => Some(Rgb { r: 160, g: 160, b: 160 }),
        }
    }
}

/// A message, with the time at which it came: seconds since 1970 and milliseconds.
#[derive(Debug)]
pub struct LogEntry {
    pub level: Level,
    pub text: String,
    pub at_secs: u64,
    pub at_millis: u32,
}

#[derive(Debug)]
pub struct PortLog {
    pub messages: VecDeque<LogEntry>,
}

/// The last `n` of `s`.
pub open spec fn newest<T>(s: Seq<T>, n: nat) -> Seq<T> {
    if s.len() > n {
        s.skip(s.len() - n)
    } else {
        s
    }
}

impl Default for PortLog {
    fn default() -> (r: Self)
        ensures
            r.messages@.len() == 0,
    {
        PortLog { messages: VecDeque::new() }
    }
}

impl PortLog {
    /// Adds a message. Of too many, the oldest go.
    pub fn push(&mut self, entry: LogEntry)
        ensures
            final(self).messages@ == newest(old(self).messages@.push(entry), MAX_MESSAGES as nat),
    {
        let ghost all = self.messages@.push(entry);
        self.messages.push_back(entry);
        let ghost mut gone: int = 0;
        assert(all.skip(0) =~= all);
        while self.messages.len() > MAX_MESSAGES
            invariant
                0 <= gone <= all.len(),
                self.messages@ == all.skip(gone),
                gone > 0 ==> self.messages@.len() >= MAX_MESSAGES,
            decreases self.messages@.len(),
        {
            self.messages.pop_front();
            proof {
                gone = gone + 1;
            }
            assert(self.messages@ =~= all.skip(gone));
        }
        assert(self.messages@ =~= newest(all, MAX_MESSAGES as nat));
    }
}

/// The logs of the two ports, and of the rest.
#[derive(Debug)]
pub struct SharedLogs {
    pub vtx: PortLog,
    pub meter: PortLog,
    pub general: PortLog,
}

impl SharedLogs {
    pub fn new() -> (r: Self)
        ensures
            r.vtx.messages@.len() == 0,
            r.meter.messages@.len() == 0,
            r.general.messages@.len() == 0,
    {
        SharedLogs { vtx: PortLog::default(), meter: PortLog::default(), general: PortLog::default() }
    }

    /// Keeps a message that passes the filter, in the log that its target names.
    pub fn record(&mut self, filter: LevelFilter, target: &str, entry: LogEntry)
        ensures
            ({
                let shown = entry.level.passes(filter);
                let kept = |log: PortLog| newest(log.messages@.push(entry), MAX_MESSAGES as nat);
                let (v, m) = ("vtx"@, "meter"@);
                &&& final(self).vtx.messages@ == (if shown && target@ == v {
                    kept(old(self).vtx)
                } else {
                    old(self).vtx.messages@
                })
                &&& final(self).meter.messages@ == (if shown && target@ != v && target@ == m {
                    kept(old(self).meter)
                } else {
                    old(self).meter.messages@
                })
                &&& final(self).general.messages@ == (if shown && target@ != v && target@ != m {
                    kept(old(self).general)
                } else {
                    old(self).general.messages@
                })
            }),
    {
        if !entry.level.is_shown(filter) {
            return;
        }
        if text_eq(target, "vtx") {
            self.vtx.push(entry);
        } else if text_eq(target, "meter") {
            self.meter.push(entry);
        } else {
            self.general.push(entry);
        }
    }
}

/// The time of day of a message, to the millisecond.
pub fn format_timestamp(at_secs: u64, at_millis: u32) -> (r: String)
    ensures
        r@ == time_of_day(at_secs as nat) + "."@ + zero_padded(at_millis as nat, 3),
{
    let mut r = String::new();
    push_time_of_day(&mut r, at_secs);
    r.append(".");
    push_zero_padded(&mut r, at_millis as u64, 3);
    assert(r@ =~= time_of_day(at_secs as nat) + "."@ + zero_padded(at_millis as nat, 3));
    r
}

/// A log holds at most [`MAX_MESSAGES`] messages once one was added, and the one that
/// was added last is the last.
pub proof fn law_a_log_keeps_the_newest<T>(log: Seq<T>, entry: T)
    ensures
        newest(log.push(entry), MAX_MESSAGES as nat).len() <= MAX_MESSAGES,
        newest(log.push(entry), MAX_MESSAGES as nat).last() == entry,
{
}

/// A log of a hundred messages loses the oldest one for each that is added, and no other; one
/// with fewer loses none.
pub proof fn law_a_full_log_loses_its_oldest<T>(log: Seq<T>, entry: T)
    requires
        log.len() <= 100,
    ensures
        newest(log.push(entry), MAX_MESSAGES as nat) == if log.len() < 100 {
            log.push(entry)
        } else {
            log.skip(1).push(entry)
        },
{
    assert(log.push(entry).skip(1) =~= log.skip(1).push(entry) || log.len() == 0);
}

/// A filter lets its own level through and all that are graver, and nothing where it is off.
pub proof fn law_a_filter_passes_what_is_graver(a: Level, b: Level, max: Level)
    ensures
        max.passes(LevelFilter::UpTo(max)),
        !a.passes(LevelFilter::Off),
        a.rank() <= b.rank() && b.passes(LevelFilter::UpTo(max)) ==> a.passes(
            LevelFilter::UpTo(max),
        ),
        Level::Error.passes(LevelFilter::UpTo(max)),
        a.passes(LevelFilter::UpTo(Level::Trace)),
        Level::Warn.passes(LevelFilter::UpTo(max)) <==> !(max is Error),
        Level::Info.passes(LevelFilter::UpTo(max)) <==> !(max is Error || max is Warn),
        Level::Debug.passes(LevelFilter::UpTo(max)) <==> max is Debug || max is Trace,
        Level::Trace.passes(LevelFilter::UpTo(max)) <==> max is Trace,
{
}

} // verus!
