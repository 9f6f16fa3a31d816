use mead::message::{Message, ParseError, Unit};

#[test]
fn parse_sos() {
    let m = Message::parse("... --- ...").unwrap();
    assert_eq!(
        m.0,
        vec![
            Unit::Dot, Unit::Dot, Unit::Dot, Unit::Space, Unit::Dash, Unit::Dash, Unit::Dash,
            Unit::Space, Unit::Dot, Unit::Dot, Unit::Dot,
        ]
    );
}

#[test]
fn parse_empty() {
    assert!(Message::parse("").unwrap().0.is_empty());
}

#[test]
fn parse_word_separator() {
    let m = Message::parse(".- / -").unwrap();
    assert_eq!(
        m.0,
        vec![Unit::Dot, Unit::Dash, Unit::Space, Unit::Slash, Unit::Space, Unit::Dash]
    );
}

#[test]
fn parse_counts_one_unit_per_character() {
    let text = "-.-. --- -.. . / .-. ..- ... -";
    assert_eq!(Message::parse(text).unwrap().0.len(), text.chars().count());
}

#[test]
fn parse_other_whitespace_is_a_gap() {
    assert_eq!(Message::parse(".\t-\n").unwrap().0, vec![Unit::Dot, Unit::Space, Unit::Dash, Unit::Space]);
}

#[test]
fn parse_unicode_whitespace_is_a_gap() {
    assert_eq!(Message::parse(".\u{B}-").unwrap().0, vec![Unit::Dot, Unit::Space, Unit::Dash]);
    assert_eq!(Message::parse("-\u{A0}.").unwrap().0, vec![Unit::Dash, Unit::Space, Unit::Dot]);
    assert_eq!(Message::parse("\u{3000}\u{2028}").unwrap().0, vec![Unit::Space, Unit::Space]);
}

#[test]
fn parse_rejects_other_characters() {
    assert_eq!(Message::parse("..x-"), Err(ParseError { position: 2, found: 'x' }));
    assert_eq!(Message::parse("._"), Err(ParseError { position: 1, found: '_' }));
    assert_eq!(Message::parse("é"), Err(ParseError { position: 0, found: 'é' }));
}

#[test]
fn parse_twice_gives_the_same_units() {
    let text = "... --- ... / .-";
    assert_eq!(Message::parse(text).unwrap().0, Message::parse(text).unwrap().0);
}

#[test]
fn render_then_parse_again() {
    let m = Message::parse("-- /\t.").unwrap();
    let text = m.render();
    assert_eq!(text, "-- / .");
    assert_eq!(Message::parse(&text).unwrap().0, m.0);
}
