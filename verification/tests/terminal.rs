use imagind::{colored_line, colored_lines, Style, StyledLine};

fn piece(text: &str, style: Style) -> StyledLine {
    StyledLine { text: text.to_string(), style }
}

#[test]
fn each_style_has_its_colour() {
    assert_eq!(Style::Observational.color_name(), "cyan");
    assert_eq!(Style::Hostile.color_name(), "red");
    assert_eq!(Style::ItemTransfer.color_name(), "green");
    assert_eq!(Style::Social.color_name(), "magenta");
    assert_eq!(Style::SelfStatus.color_name(), "blue");
    assert_eq!(Style::Movement.color_name(), "bright green");
    assert_eq!(Style::InternalState.color_name(), "bright magenta");
    assert_eq!(Style::Neutral.color_name(), "white");
    assert_eq!(Style::Attribution.color_name(), "bright blue");
    assert_eq!(Style::Dimmed.color_name(), "bright black");
    assert_eq!(Style::Highlight.color_name(), "yellow");
}

#[test]
fn lines_are_painted_in_the_colour_of_their_style() {
    colored::control::set_override(true);
    assert_eq!(colored_line(&piece("Spark", Style::Attribution)), "\u{1b}[94mSpark\u{1b}[0m");
    assert_eq!(
        colored_lines(&vec![
            piece("Spark", Style::Attribution),
            piece("Spark swings wildly.", Style::Dimmed),
            piece("You take 3 damage.", Style::Highlight),
            piece("A tavern...", Style::Observational),
            piece("", Style::Hostile),
        ]),
        vec![
            "\u{1b}[94mSpark\u{1b}[0m".to_string(),
            "\u{1b}[90mSpark swings wildly.\u{1b}[0m".to_string(),
            "\u{1b}[33mYou take 3 damage.\u{1b}[0m".to_string(),
            "\u{1b}[36mA tavern...\u{1b}[0m".to_string(),
            "\u{1b}[31m\u{1b}[0m".to_string(),
        ]
    );
    colored::control::set_override(false);
    assert_eq!(colored_line(&piece("Spark", Style::Attribution)), "Spark");
    assert_eq!(
        colored_lines(&vec![piece("one", Style::Dimmed), piece("two", Style::Highlight)]),
        vec!["one".to_string(), "two".to_string()]
    );
    assert_eq!(colored_lines(&vec![]), Vec::<String>::new());
    colored::control::unset_override();
}
