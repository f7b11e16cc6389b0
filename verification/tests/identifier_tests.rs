use ir_model::identifier::{parse_global, parse_local, Identifier, ParseError};
use ir_model::IRElement;

#[test]
fn too_short_names_are_rejected() {
    assert_eq!(parse_local("%").unwrap_err(), ParseError::TooShort);
    assert_eq!(parse_global("@").unwrap_err(), ParseError::TooShort);
    assert_eq!(parse_global("").unwrap_err(), ParseError::TooShort);
}

#[test]
fn the_wrong_sigil_is_rejected() {
    assert_eq!(parse_global("%x").unwrap_err(), ParseError::WrongSigil);
    assert_eq!(parse_local("@x").unwrap_err(), ParseError::WrongSigil);
    assert_eq!(parse_local("xy").unwrap_err(), ParseError::WrongSigil);
}

#[test]
fn plain_names_round_trip() {
    assert_eq!(parse_global("@foo").unwrap().render(), "@foo");
    assert_eq!(parse_local("%x").unwrap().render(), "%x");
    assert_eq!(parse_global("@a.b$c_d9").unwrap().render(), "@a.b$c_d9");
    assert_eq!(parse_local("%_tmp").unwrap().render(), "%_tmp");
    assert_eq!(parse_global("@.str").unwrap().render(), "@.str");
}

#[test]
fn numeric_names_round_trip() {
    assert_eq!(parse_global("@123").unwrap().render(), "@123");
    assert_eq!(parse_local("%0").unwrap().render(), "%0");
}

#[test]
fn quoted_names_round_trip() {
    assert_eq!(parse_global("@\"hello world\"").unwrap().render(), "@\"hello world\"");
    assert_eq!(parse_local("%\"a\\3Fb\"").unwrap().render(), "%\"a\\3Fb\"");
    assert_eq!(parse_global("@\"\"").unwrap().render(), "@\"\"");
}

#[test]
fn invalid_bodies_are_rejected() {
    assert_eq!(parse_global("@a b").unwrap_err(), ParseError::InvalidBody);
    assert_eq!(parse_local("%x!").unwrap_err(), ParseError::InvalidBody);
    assert_eq!(parse_global("@12a").unwrap_err(), ParseError::InvalidBody);
}

#[test]
fn broken_quoted_bodies_are_rejected() {
    assert_eq!(parse_global("@\"abc").unwrap_err(), ParseError::InvalidBody);
    assert_eq!(parse_global("@\"a\"b\"").unwrap_err(), ParseError::InvalidBody);
    assert_eq!(parse_local("%\"a\\zz\"").unwrap_err(), ParseError::InvalidBody);
    assert_eq!(parse_local("%\"a\\3\"").unwrap_err(), ParseError::InvalidBody);
    assert_eq!(parse_global("@\"").unwrap_err(), ParseError::InvalidBody);
}

#[test]
fn generic_parsing_tries_global_then_local() {
    assert!(matches!(Identifier::parse("@g"), Ok(Identifier::Global(_))));
    assert!(matches!(Identifier::parse("%l"), Ok(Identifier::Local(_))));
    assert_eq!(Identifier::parse("$x").unwrap_err(), ParseError::WrongSigil);
    assert_eq!(Identifier::parse("@!").unwrap_err(), ParseError::InvalidBody);
    assert_eq!(Identifier::parse("%").unwrap_err(), ParseError::TooShort);
}

#[test]
fn generic_identifiers_render_with_their_own_sigil() {
    assert_eq!(Identifier::parse("@main").unwrap().render(), "@main");
    assert_eq!(Identifier::parse("%arg").unwrap().render(), "%arg");
}

#[test]
fn character_classes_follow_the_grammar() {
    assert!(Identifier::is_char_valid('a'));
    assert!(Identifier::is_char_valid('Z'));
    assert!(Identifier::is_char_valid('7'));
    assert!(Identifier::is_char_valid('$'));
    assert!(Identifier::is_char_valid('.'));
    assert!(Identifier::is_char_valid('_'));
    assert!(!Identifier::is_char_valid(' '));
    assert!(!Identifier::is_char_valid('@'));
    assert!(!Identifier::is_char_valid('"'));
}

#[test]
fn bodies_are_exposed_without_their_sigil() {
    assert_eq!(parse_global("@foo").unwrap().body(), "foo");
    assert_eq!(parse_local("%42").unwrap().body(), "42");
}

#[test]
fn cloned_identifiers_render_identically() {
    let g = parse_global("@dup").unwrap();
    assert_eq!(g.clone().render(), g.render());
    let i = Identifier::parse("%dup").unwrap();
    assert_eq!(i.clone().render(), i.render());
}
