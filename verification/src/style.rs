//! Terminal styling. The escape sequences are produced by the `console`
//! crate; this module says which ones.

use vstd::prelude::*;

verus! {

/// `text` set in bold yellow when `on`, and `text` itself when not.
pub open spec fn bold_yellow(text: Seq<char>, on: bool) -> Seq<char> {
    if on {
        "\x1b[33m"@ + "\x1b[1m"@ + text + "\x1b[0m"@
    } else {
        text
    }
}

/// `text` set in bold red when `on`, and `text` itself when not.
pub open spec fn bold_red(text: Seq<char>, on: bool) -> Seq<char> {
    if on {
        "\x1b[31m"@ + "\x1b[1m"@ + text + "\x1b[0m"@
    } else {
        text
    }
}

/// `text` set in cyan when `on`, and `text` itself when not.
pub open spec fn cyan(text: Seq<char>, on: bool) -> Seq<char> {
    if on {
        "\x1b[36m"@ + text + "\x1b[0m"@
    } else {
        text
    }
}

/// Each frame of `frames` set in cyan, as [`cyan`] does it.
pub open spec fn cyan_each(frames: Seq<Seq<char>>, on: bool) -> Seq<Seq<char>> {
    Seq::new(frames.len(), |k: int| cyan(frames[k], on))
}

/// `console::style(text).yellow().bold()`, with styling forced to `on`, as
/// `Display` formats it. Trusted: when styling is forced on, `console` writes
/// the foreground color as `ESC[33m`, then the bold attribute as `ESC[1m`,
/// then the text, then the reset `ESC[0m`; when it is forced off, the text
/// alone.
#[verifier::external_body]
pub(crate) fn paint_bold_yellow(text: &str, on: bool) -> (painted: String)
    ensures
        painted@ == bold_yellow(text@, on),
{
    console::style(text).yellow().bold().force_styling(on).to_string()
}

/// `console::style(text).red().bold()`, with styling forced to `on`, as
/// `Display` formats it. Trusted: when styling is forced on, `console` writes
/// the foreground color as `ESC[31m`, then the bold attribute as `ESC[1m`,
/// then the text, then the reset `ESC[0m`; when it is forced off, the text
/// alone.
#[verifier::external_body]
pub(crate) fn paint_bold_red(text: &str, on: bool) -> (painted: String)
    ensures
        painted@ == bold_red(text@, on),
{
    console::style(text).red().bold().force_styling(on).to_string()
}

/// `console::style(text).cyan()`, with styling forced to `on`, as `Display`
/// formats it. Trusted: when styling is forced on, `console` writes the
/// foreground color as `ESC[36m`, then the text, then the reset `ESC[0m`;
/// when it is forced off, the text alone.
#[verifier::external_body]
pub(crate) fn paint_cyan(text: &str, on: bool) -> (painted: String)
    ensures
        painted@ == cyan(text@, on),
{
    console::style(text).cyan().force_styling(on).to_string()
}

/// Sets every frame of `frames` in cyan.
pub(crate) fn paint_frames(frames: &[String], on: bool) -> (painted: Vec<String>)
    ensures
        painted.deep_view() == cyan_each(frames.deep_view(), on),
{
    let mut painted: Vec<String> = Vec::new();
    let mut i: usize = 0;
    while i < frames.len()
        invariant
            i <= frames.len(),
            painted@.len() == i,
            forall|k: int| 0 <= k < i ==> painted@[k]@ == cyan(frames@[k]@, on),
        decreases frames.len() - i,
    {
        painted.push(paint_cyan(frames[i].as_str(), on));
        i += 1;
    }
    painted
}

/// Styled text is told apart: the two bold colors differ from each other,
/// and each differs from the text that it styles.
pub proof fn styles_are_distinct(text: Seq<char>)
    ensures
        bold_yellow(text, true) != bold_red(text, true),
        bold_yellow(text, true) != text,
        bold_red(text, true) != text,
{
    reveal_strlit("\x1b[33m");
    reveal_strlit("\x1b[31m");
    assert(bold_yellow(text, true)[3] == '3');
    assert(bold_red(text, true)[3] == '1');
    assert(bold_yellow(text, true).len() >= text.len() + 5);
    assert(bold_red(text, true).len() >= text.len() + 5);
}

} // verus!
