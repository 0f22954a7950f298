//! Logging through the slot of the process, without a logger in hand.

use vstd::prelude::*;
use crate::format::LogFormat;
use crate::logger::{context_line, error_line, stream_of, warn_line, Record};
use crate::slot::{in_use, logger, LoggerSlot};

verus! {

/// [`crate::logger::Logger::info`] of the logger in `slot`.
pub fn info(slot: &mut LoggerSlot, message: &str) -> (record: Record)
    ensures
        final(slot).installed() == Some(in_use(old(slot).installed())),
        record.stream == stream_of(in_use(old(slot).installed())),
        record.line@ == message@,
{
    logger(slot).info(message)
}

/// [`crate::logger::Logger::warn`] of the logger in `slot`.
pub fn warn(slot: &mut LoggerSlot, message: &str, colors: bool) -> (record: Record)
    ensures
        final(slot).installed() == Some(in_use(old(slot).installed())),
        record.stream == stream_of(in_use(old(slot).installed())),
        record.line@ == warn_line(in_use(old(slot).installed()), message@, colors),
{
    logger(slot).warn(message, colors)
}

/// [`crate::logger::Logger::error`] of the logger in `slot`.
pub fn error(slot: &mut LoggerSlot, message: &str, colors: bool) -> (record: Record)
    ensures
        final(slot).installed() == Some(in_use(old(slot).installed())),
        record.stream == stream_of(in_use(old(slot).installed())),
        record.line@ == error_line(in_use(old(slot).installed()), message@, colors),
{
    logger(slot).error(message, colors)
}

/// [`crate::logger::Logger::error_with_context`] of the logger in `slot`.
pub fn error_with_context(
    slot: &mut LoggerSlot,
    context: &[String],
    message: &str,
    colors: bool,
) -> (record: Record)
    ensures
        final(slot).installed() == Some(in_use(old(slot).installed())),
        record.stream == stream_of(in_use(old(slot).installed())),
        record.line@ == context_line(
            in_use(old(slot).installed()),
            context.deep_view(),
            message@,
            colors,
        ),
{
    logger(slot).error_with_context(context, message, colors)
}

/// [`crate::logger::Logger::is_human`] of the logger in `slot`.
#[must_use]
pub fn is_human(slot: &mut LoggerSlot) -> (human: bool)
    ensures
        final(slot).installed() == Some(in_use(old(slot).installed())),
        human <==> in_use(old(slot).installed()) == LogFormat::Human,
{
    logger(slot).is_human()
}

} // verus!
