//! The output format and its names.

use vstd::prelude::*;
use crate::text::{ascii_lowered, contains, join, joined, occurs_at, trailing};

verus! {

/// How diagnostics are rendered.
#[derive(Debug, Clone, Copy, PartialEq, Eq, Structural)]
pub enum LogFormat {
    /// Styled lines for a person at a terminal.
    Human,
    /// Annotations that the log parser of a CI system picks up.
    GitHub,
}

impl LogFormat {
    /// The canonical name of the format.
    pub open spec fn name(self) -> Seq<char> {
        match self {
            LogFormat::Human => "human"@,
            LogFormat::GitHub => "github"@,
        }
    }

    /// The canonical names, in the order in which users are shown them.
    pub open spec fn names() -> Seq<Seq<char>> {
        seq![LogFormat::Human.name(), LogFormat::GitHub.name()]
    }

    /// The format that `s` names: a canonical name or the alias `gh`, in any
    /// mix of ASCII upper and lower case.
    pub open spec fn named_by(s: Seq<char>) -> Option<LogFormat> {
        let folded = ascii_lowered(s);
        if folded == "human"@ {
            Some(LogFormat::Human)
        } else if folded == "github"@ || folded == "gh"@ {
            Some(LogFormat::GitHub)
        } else {
            None
        }
    }

    /// The message that rejects `s`: it quotes `s` as it was given and lists
    /// the canonical names.
    pub open spec fn rejection(s: Seq<char>) -> Seq<char> {
        "invalid diagnostics format '"@ + s + "'. expected one of: "@ + joined(
            LogFormat::names(),
            ", "@,
        )
    }

    /// The canonical name of the format.
    #[must_use]
    pub fn as_str(&self) -> (name: &'static str)
        ensures
            name@ == self.name(),
    {
        match self {
            LogFormat::Human => "human",
            LogFormat::GitHub => "github",
        }
    }

    /// The canonical names of all formats, for help texts and messages.
    #[must_use]
    pub fn variants() -> (names: &'static [&'static str])
        ensures
            names.deep_view() == LogFormat::names(),
    {
        &["human", "github"]
    }

    /// The canonical name, as an owned string.
    #[must_use]
    pub fn to_string(&self) -> (name: String)
        ensures
            name@ == self.name(),
    {
        self.as_str().to_owned()
    }

    /// Reads a format from a name. Case is ignored, and `gh` stands for
    /// `github`. Any other string is rejected, with a message for the user.
    pub fn parse(s: &str) -> (parsed: Result<LogFormat, String>)
        ensures
            match parsed {
                Ok(format) => LogFormat::named_by(s@) == Some(format),
                Err(message) => LogFormat::named_by(s@) is None && message@ == LogFormat::rejection(
                    s@,
                ),
            },
    {
        let folded = s.to_ascii_lowercase();
        if folded == "human".to_owned() {
            Ok(LogFormat::Human)
        } else if folded == "github".to_owned() || folded == "gh".to_owned() {
            Ok(LogFormat::GitHub)
        } else {
            let mut message = "invalid diagnostics format '".to_owned();
            message.append(s);
            message.append("'. expected one of: ");
            message.append(join(LogFormat::variants(), ", ").as_str());
            Err(message)
        }
    }
}

impl std::str::FromStr for LogFormat {
    type Err = String;

    /// [`LogFormat::parse`], for `str::parse`.
    fn from_str(s: &str) -> (parsed: Result<Self, String>)
        ensures
            match parsed {
                Ok(format) => LogFormat::named_by(s@) == Some(format),
                Err(message) => LogFormat::named_by(s@) is None && message@ == LogFormat::rejection(
                    s@,
                ),
            },
    {
        LogFormat::parse(s)
    }
}

impl Default for LogFormat {
    /// The format of a tool that was told nothing.
    fn default() -> (format: LogFormat)
        ensures
            format == LogFormat::Human,
    {
        LogFormat::Human
    }
}

/// No two of `human`, `github` and `gh` are the same string.
proof fn names_differ()
    ensures
        "human"@ != "github"@,
        "human"@ != "gh"@,
        "github"@ != "gh"@,
{
    reveal_strlit("human");
    reveal_strlit("github");
    reveal_strlit("gh");
    assert("human"@.len() == 5);
    assert("github"@.len() == 6);
    assert("gh"@.len() == 2);
}

/// Case does not matter: a string names what its lower-case form names.
pub proof fn case_is_irrelevant(s: Seq<char>)
    ensures
        LogFormat::named_by(s) == LogFormat::named_by(ascii_lowered(s)),
{
    assert(ascii_lowered(ascii_lowered(s)) =~= ascii_lowered(s));
}

/// The strings that name a format are those that read `human`, `github` or
/// `gh` once in lower case: the first names the human format, the other two
/// the CI format, and nothing else names any.
pub proof fn accepted_names(s: Seq<char>)
    ensures
        ascii_lowered(s) == "human"@ <==> LogFormat::named_by(s) == Some(LogFormat::Human),
        ascii_lowered(s) == "github"@ || ascii_lowered(s) == "gh"@ <==> LogFormat::named_by(s)
            == Some(LogFormat::GitHub),
{
    names_differ();
}

/// Parsing undoes rendering: the canonical name of a format names it.
pub proof fn name_parses_back(format: LogFormat)
    ensures
        LogFormat::named_by(format.name()) == Some(format),
{
    names_differ();
    reveal_strlit("human");
    reveal_strlit("github");
    assert(ascii_lowered("human"@) =~= "human"@);
    assert(ascii_lowered("github"@) =~= "github"@);
}

/// Rendering after parsing normalizes: the name of the format that `s` names
/// is `s` in lower case, but for the alias `gh`, which becomes `github`.
pub proof fn parsed_name_is_canonical(s: Seq<char>, format: LogFormat)
    requires
        LogFormat::named_by(s) == Some(format),
    ensures
        format.name() == if ascii_lowered(s) == "gh"@ {
            "github"@
        } else {
            ascii_lowered(s)
        },
        LogFormat::named_by(format.name()) == Some(format),
{
    names_differ();
    name_parses_back(format);
}

/// The canonical names, as a rejection lists them.
pub proof fn names_listed()
    ensures
        joined(LogFormat::names(), ", "@) == "human, github"@,
{
    reveal_strlit("human");
    reveal_strlit("github");
    reveal_strlit(", ");
    reveal_strlit("human, github");
    let names = LogFormat::names();
    assert(trailing(names, ", "@, 2) =~= Seq::<char>::empty());
    assert(trailing(names, ", "@, 1) =~= ", "@ + "github"@);
    assert(joined(names, ", "@) =~= "human, github"@);
}

/// The message that rejects a string holds that string, as it was given, and
/// the list `human, github`.
pub proof fn rejection_names_input(s: Seq<char>)
    requires
        LogFormat::named_by(s) is None,
    ensures
        contains(LogFormat::rejection(s), s),
        contains(LogFormat::rejection(s), "human, github"@),
{
    names_listed();
    let head = "invalid diagnostics format '"@;
    let mid = "'. expected one of: "@;
    let list = "human, github"@;
    let message = LogFormat::rejection(s);
    assert(message =~= head + s + mid + list);
    let quoted: int = head.len() as int;
    assert(message.subrange(quoted, quoted + s.len()) =~= s);
    assert(occurs_at(message, s, quoted));
    let listed: int = quoted + s.len() + mid.len();
    assert(message.subrange(listed, listed + list.len()) =~= list);
    assert(occurs_at(message, list, listed));
}

} // verus!
