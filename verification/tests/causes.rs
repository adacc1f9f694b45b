use goblin_error::Error;
use goblin_error::Wrapped;
use std::error::Error as StdError;

#[derive(Debug)]
struct Torn(std::num::ParseIntError);

impl std::fmt::Display for Torn {
    fn fmt(&self, out: &mut std::fmt::Formatter) -> std::fmt::Result {
        out.write_str("torn record")
    }
}

impl StdError for Torn {
    fn source(&self) -> Option<&(dyn StdError + 'static)> {
        Some(&self.0)
    }
}

fn torn() -> Torn {
    Torn("x1".parse::<u32>().unwrap_err())
}

#[allow(deprecated)]
fn cause_text(failure: &Error) -> Option<String> {
    let cause = match failure.wrapped() {
        Some(Wrapped::IO(inner)) => inner.cause(),
        Some(Wrapped::Scroll(inner)) => inner.cause(),
        None => None,
    };
    cause.map(|found| found.to_string())
}

#[test]
fn bad_magic_has_no_cause() {
    assert_eq!(cause_text(&Error::BadMagic(0xfeedface)), None);
}

#[test]
fn malformed_has_no_cause() {
    assert_eq!(cause_text(&Error::Malformed("size passes the end".into())), None);
}

#[test]
fn io_failure_without_a_cause_has_none() {
    let lifted = Error::from(std::io::Error::new(std::io::ErrorKind::NotFound, "file not found"));
    assert_eq!(cause_text(&lifted), None);
}

#[test]
fn io_failure_hands_on_the_cause_of_what_it_wraps() {
    let direct = std::io::Error::new(std::io::ErrorKind::InvalidData, torn());
    let expected = direct.source().map(|found| found.to_string());
    assert_eq!(expected, Some(String::from("invalid digit found in string")));
    let lifted = Error::from(std::io::Error::new(std::io::ErrorKind::InvalidData, torn()));
    assert_eq!(cause_text(&lifted), expected);
    assert_eq!(lifted.to_string(), "torn record");
}

#[test]
fn scroll_failure_without_a_cause_has_none() {
    assert_eq!(cause_text(&Error::from(scroll::Error::BadOffset(3))), None);
    assert_eq!(cause_text(&Error::from(scroll::Error::Custom("c".into()))), None);
}

#[test]
fn scroll_failure_hands_on_the_cause_of_what_it_wraps() {
    let inner = std::io::Error::new(std::io::ErrorKind::InvalidData, torn());
    let lifted = Error::from(scroll::Error::IO(inner));
    assert_eq!(
        cause_text(&lifted),
        Some(String::from("invalid digit found in string"))
    );
}
