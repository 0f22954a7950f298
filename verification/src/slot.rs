//! The slot that holds the one logger of a process.

use vstd::prelude::*;
use crate::format::LogFormat;
use crate::logger::Logger;

verus! {

/// Room for one logger. It starts empty and is filled once: by the first
/// [`init`], or by the first use, whichever comes first.
pub struct LoggerSlot {
    installed: Option<Logger>,
}

/// The format that a slot holds once `offered` has been offered to it: the
/// one that was there before, if any, else `offered`.
pub open spec fn settled(before: Option<LogFormat>, offered: LogFormat) -> LogFormat {
    match before {
        Some(first) => first,
        None => offered,
    }
}

/// The format that logging through a slot uses: the installed one, or the
/// default where none is installed yet.
pub open spec fn in_use(before: Option<LogFormat>) -> LogFormat {
    settled(before, LogFormat::Human)
}

impl LoggerSlot {
    /// The format of the installed logger, if one is installed.
    pub closed spec fn installed(&self) -> Option<LogFormat> {
        match self.installed {
            Some(logger) => Some(logger.format()),
            None => None,
        }
    }

    /// An empty slot.
    pub fn empty() -> (slot: LoggerSlot)
        ensures
            slot.installed() is None,
    {
        LoggerSlot { installed: None }
    }
}

/// Installs a logger of `format`, unless one is installed already: the first
/// installation wins, and a later one changes nothing.
pub fn init(slot: &mut LoggerSlot, format: LogFormat)
    ensures
        final(slot).installed() == Some(settled(old(slot).installed(), format)),
{
    if slot.installed.is_none() {
        slot.installed = Some(Logger::new(format));
    }
}

/// The installed logger. An empty slot is first filled with a logger of the
/// default format.
pub fn logger(slot: &mut LoggerSlot) -> (current: &Logger)
    ensures
        final(slot).installed() == Some(in_use(old(slot).installed())),
        current.format() == in_use(old(slot).installed()),
{
    if slot.installed.is_none() {
        slot.installed = Some(Logger::new(LogFormat::default()));
    }
    slot.installed.as_ref().unwrap()
}

/// The first installation wins: an empty slot takes what it is offered, a
/// second offer changes nothing, and logging goes by what the first offer
/// left.
pub proof fn first_init_wins(before: Option<LogFormat>, first: LogFormat, second: LogFormat)
    ensures
        settled(None, first) == first,
        settled(Some(settled(before, first)), second) == settled(before, first),
        in_use(Some(settled(Some(settled(before, first)), second))) == settled(before, first),
{
}

/// Use installs for good: once a slot was logged through, a later offer
/// changes nothing. A slot that was never offered a format logs as human.
pub proof fn first_use_wins(before: Option<LogFormat>, later: LogFormat)
    ensures
        settled(Some(in_use(before)), later) == in_use(before),
        in_use(Some(in_use(before))) == in_use(before),
        in_use(None) == LogFormat::Human,
{
}

} // verus!
