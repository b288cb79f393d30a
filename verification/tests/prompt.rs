use wheel::prompt::parse_yesno;

#[test]
fn plain_answers_are_recognized() {
    assert_eq!(parse_yesno(b"y"), Some(true));
    assert_eq!(parse_yesno(b"yes"), Some(true));
    assert_eq!(parse_yesno(b"n"), Some(false));
    assert_eq!(parse_yesno(b"no"), Some(false));
}

#[test]
fn case_is_ignored() {
    assert_eq!(parse_yesno(b"Y"), Some(true));
    assert_eq!(parse_yesno(b"YES"), Some(true));
    assert_eq!(parse_yesno(b"Yes"), Some(true));
    assert_eq!(parse_yesno(b"No"), Some(false));
}

#[test]
fn trailing_newlines_are_trimmed() {
    assert_eq!(parse_yesno(b"yes\n"), Some(true));
    assert_eq!(parse_yesno(b"YES\r\n"), Some(true));
    assert_eq!(parse_yesno(b"n\r\n"), Some(false));
    assert_eq!(parse_yesno(b"\r\n"), None);
}

#[test]
fn other_answers_are_unrecognized() {
    assert_eq!(parse_yesno(b""), None);
    assert_eq!(parse_yesno(b"maybe"), None);
    assert_eq!(parse_yesno(b"yess"), None);
    assert_eq!(parse_yesno(b"ye"), None);
    assert_eq!(parse_yesno(b"oui"), None);
    assert_eq!(parse_yesno(b"y es"), None);
    assert_eq!(parse_yesno(b"no no"), None);
}
