use diagnostics::LogFormat;

#[test]
fn parse_accepts_every_name_in_any_case() {
    assert_eq!(LogFormat::parse("human"), Ok(LogFormat::Human));
    assert_eq!(LogFormat::parse("HUMAN"), Ok(LogFormat::Human));
    assert_eq!(LogFormat::parse("github"), Ok(LogFormat::GitHub));
    assert_eq!(LogFormat::parse("GitHub"), Ok(LogFormat::GitHub));
    assert_eq!(LogFormat::parse("gh"), Ok(LogFormat::GitHub));
    assert_eq!(LogFormat::parse("GH"), Ok(LogFormat::GitHub));
}

#[test]
fn parse_folds_mixed_case() {
    assert_eq!(LogFormat::parse("hUmAn"), Ok(LogFormat::Human));
    assert_eq!(LogFormat::parse("gH"), Ok(LogFormat::GitHub));
    assert_eq!(LogFormat::parse("GITHUB"), Ok(LogFormat::GitHub));
}

#[test]
fn parse_rejects_unknown_name() {
    let message = LogFormat::parse("xml").unwrap_err();
    assert!(message.contains("xml"));
    assert!(message.contains("human, github"));
    assert_eq!(
        message,
        "invalid diagnostics format 'xml'. expected one of: human, github"
    );
}

#[test]
fn parse_rejection_quotes_input_as_given() {
    let message = LogFormat::parse("Plain Text").unwrap_err();
    assert_eq!(
        message,
        "invalid diagnostics format 'Plain Text'. expected one of: human, github"
    );
}

#[test]
fn parse_rejects_near_misses() {
    assert!(LogFormat::parse("").is_err());
    assert!(LogFormat::parse(" human").is_err());
    assert!(LogFormat::parse("human ").is_err());
    assert!(LogFormat::parse("git").is_err());
    assert!(LogFormat::parse("githubs").is_err());
    assert!(LogFormat::parse("g").is_err());
}

#[test]
fn parse_folds_ascii_only() {
    // U+212A KELVIN SIGN lower-cases to `k` in Unicode, but is no ASCII letter.
    assert!(LogFormat::parse("\u{212A}").is_err());
    let message = LogFormat::parse("HÜMAN").unwrap_err();
    assert!(message.contains("'HÜMAN'"));
}

#[test]
fn from_str_agrees_with_parse() {
    assert_eq!("human".parse::<LogFormat>(), Ok(LogFormat::Human));
    assert_eq!("GH".parse::<LogFormat>(), Ok(LogFormat::GitHub));
    assert_eq!("xml".parse::<LogFormat>(), LogFormat::parse("xml"));
    assert!("xml".parse::<LogFormat>().is_err());
}

#[test]
fn render_after_parse_is_canonical() {
    assert_eq!(LogFormat::parse("gh").unwrap().as_str(), "github");
    assert_eq!(LogFormat::parse("GH").unwrap().as_str(), "github");
    assert_eq!(LogFormat::parse("GitHub").unwrap().as_str(), "github");
    assert_eq!(LogFormat::parse("HUMAN").unwrap().as_str(), "human");
}

#[test]
fn parse_undoes_render() {
    assert_eq!(LogFormat::parse(LogFormat::Human.as_str()), Ok(LogFormat::Human));
    assert_eq!(LogFormat::parse(LogFormat::GitHub.as_str()), Ok(LogFormat::GitHub));
}

#[test]
fn names_of_the_formats() {
    assert_eq!(LogFormat::Human.as_str(), "human");
    assert_eq!(LogFormat::GitHub.as_str(), "github");
    assert_eq!(LogFormat::Human.to_string(), "human");
    assert_eq!(LogFormat::GitHub.to_string(), "github");
}

#[test]
fn variants_lists_canonical_names_in_order() {
    assert_eq!(LogFormat::variants(), &["human", "github"]);
    assert_eq!(LogFormat::variants()[0], LogFormat::Human.as_str());
    assert_eq!(LogFormat::variants()[1], LogFormat::GitHub.as_str());
}

#[test]
fn default_format_is_human() {
    assert_eq!(LogFormat::default(), LogFormat::Human);
}
