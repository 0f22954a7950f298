//! The logger: from a message to the line that is written.

use vstd::prelude::*;
use crate::format::LogFormat;
use crate::style::{bold_red, bold_yellow, cyan_each, paint_bold_red, paint_bold_yellow, paint_frames};
use crate::text::{as_strs, join, joined};

verus! {

/// One of the two output streams of the process.
#[derive(Debug, Clone, Copy, PartialEq, Eq, Structural)]
pub enum Stream {
    /// Standard output.
    Stdout,
    /// Standard error, the diagnostic stream.
    Stderr,
}

/// What one logging call writes: a line, and the stream it goes to.
#[derive(Debug, PartialEq, Eq)]
pub struct Record {
    /// The stream that the line is for.
    pub stream: Stream,
    /// The line, without the newline that ends it.
    pub line: String,
}

/// The stream that carries the lines of `format`.
pub open spec fn stream_of(format: LogFormat) -> Stream {
    match format {
        LogFormat::Human => Stream::Stderr,
        LogFormat::GitHub => Stream::Stdout,
    }
}

/// The line of a warning.
pub open spec fn warn_line(format: LogFormat, message: Seq<char>, colors: bool) -> Seq<char> {
    match format {
        LogFormat::Human => bold_yellow("warning:"@, colors) + " "@ + message,
        LogFormat::GitHub => "::warning::"@ + message,
    }
}

/// The line of an error.
pub open spec fn error_line(format: LogFormat, message: Seq<char>, colors: bool) -> Seq<char> {
    match format {
        LogFormat::Human => bold_red("error:"@, colors) + " "@ + message,
        LogFormat::GitHub => "::error::"@ + message,
    }
}

/// The line of an error that carries the context `frames`, outermost first.
pub open spec fn context_line(
    format: LogFormat,
    frames: Seq<Seq<char>>,
    message: Seq<char>,
    colors: bool,
) -> Seq<char> {
    if frames.len() == 0 {
        error_line(format, message, colors)
    } else {
        match format {
            LogFormat::Human => bold_red("error:"@, colors) + " ["@ + joined(
                cyan_each(frames, colors),
                " > "@,
            ) + "] "@ + message,
            LogFormat::GitHub => "::error::"@ + joined(frames, " > "@) + ": "@ + message,
        }
    }
}

impl Record {
    /// The characters that reach the stream: the line and its newline.
    pub open spec fn written(&self) -> Seq<char> {
        self.line@ + "\n"@
    }

    /// The text to write to [`Record::stream`].
    pub fn output(&self) -> (text: String)
        ensures
            text@ == self.written(),
    {
        let mut text = self.line.clone();
        text.append("\n");
        text
    }
}

/// Renders diagnostics in one fixed format.
pub struct Logger {
    format: LogFormat,
}

impl Logger {
    /// The format that the logger was made with.
    pub closed spec fn format(&self) -> LogFormat {
        self.format
    }

    /// A logger of `format`, which it keeps for good.
    #[must_use]
    pub fn new(format: LogFormat) -> (logger: Self)
        ensures
            logger.format() == format,
    {
        Self { format }
    }

    /// Whether the logger writes for a person rather than for a CI system.
    #[must_use]
    pub fn is_human(&self) -> (human: bool)
        ensures
            human <==> self.format() == LogFormat::Human,
    {
        self.format == LogFormat::Human
    }

    /// An informational line: the message as it is, in either format.
    pub fn info(&self, message: &str) -> (record: Record)
        ensures
            record.stream == stream_of(self.format()),
            record.line@ == message@,
    {
        match self.format {
            LogFormat::Human => Record { stream: Stream::Stderr, line: message.to_owned() },
            LogFormat::GitHub => Record { stream: Stream::Stdout, line: message.to_owned() },
        }
    }

    /// A warning. `colors` says whether the label of a human line is styled.
    pub fn warn(&self, message: &str, colors: bool) -> (record: Record)
        ensures
            record.stream == stream_of(self.format()),
            record.line@ == warn_line(self.format(), message@, colors),
    {
        match self.format {
            LogFormat::Human => {
                let mut line = paint_bold_yellow("warning:", colors);
                line.append(" ");
                line.append(message);
                Record { stream: Stream::Stderr, line }
            },
            LogFormat::GitHub => {
                let mut line = "::warning::".to_owned();
                line.append(message);
                Record { stream: Stream::Stdout, line }
            },
        }
    }

    /// An error. `colors` says whether the label of a human line is styled.
    pub fn error(&self, message: &str, colors: bool) -> (record: Record)
        ensures
            record.stream == stream_of(self.format()),
            record.line@ == error_line(self.format(), message@, colors),
    {
        match self.format {
            LogFormat::Human => {
                let mut line = paint_bold_red("error:", colors);
                line.append(" ");
                line.append(message);
                Record { stream: Stream::Stderr, line }
            },
            LogFormat::GitHub => {
                let mut line = "::error::".to_owned();
                line.append(message);
                Record { stream: Stream::Stdout, line }
            },
        }
    }

    /// An error with the trail of frames that led to it, outermost first.
    /// Without frames this is [`Logger::error`].
    pub fn error_with_context(&self, context: &[String], message: &str, colors: bool) -> (record:
        Record)
        ensures
            record.stream == stream_of(self.format()),
            record.line@ == context_line(self.format(), context.deep_view(), message@, colors),
    {
        if context.len() == 0 {
            return self.error(message, colors);
        }
        match self.format {
            LogFormat::Human => {
                let painted = paint_frames(context, colors);
                let parts = as_strs(painted.as_slice());
                let trail = join(parts.as_slice(), " > ");
                let mut line = paint_bold_red("error:", colors);
                line.append(" [");
                line.append(trail.as_str());
                line.append("] ");
                line.append(message);
                Record { stream: Stream::Stderr, line }
            },
            LogFormat::GitHub => {
                let parts = as_strs(context);
                let trail = join(parts.as_slice(), " > ");
                let mut line = "::error::".to_owned();
                line.append(trail.as_str());
                line.append(": ");
                line.append(message);
                Record { stream: Stream::Stdout, line }
            },
        }
    }
}

/// An error without context frames is the plain error, in either format.
pub proof fn no_context_is_plain_error(format: LogFormat, message: Seq<char>, colors: bool)
    ensures
        context_line(format, Seq::empty(), message, colors) == error_line(format, message, colors),
{
}

/// Styling adds to a human line and takes nothing away: with colors off the
/// line is its plain text.
pub proof fn human_lines_without_colors(frames: Seq<Seq<char>>, message: Seq<char>)
    ensures
        warn_line(LogFormat::Human, message, false) == "warning: "@ + message,
        error_line(LogFormat::Human, message, false) == "error: "@ + message,
        frames.len() > 0 ==> context_line(LogFormat::Human, frames, message, false) == "error: ["@
            + joined(frames, " > "@) + "] "@ + message,
{
    reveal_strlit("warning:");
    reveal_strlit("warning: ");
    reveal_strlit("error:");
    reveal_strlit("error: ");
    reveal_strlit("error: [");
    reveal_strlit(" ");
    reveal_strlit(" [");
    assert("warning:"@ + " "@ =~= "warning: "@);
    assert("error:"@ + " "@ =~= "error: "@);
    assert("error:"@ + " ["@ =~= "error: ["@);
    assert(cyan_each(frames, false) =~= frames);
}

} // verus!
