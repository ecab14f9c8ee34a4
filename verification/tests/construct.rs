use safestring::{ApiKey, Email, Error, Fullname, SafeString};
use std::any::TypeId;

#[test]
fn test_construct_safe_string_1() -> Result<(), Error> {
    let s: SafeString<Email> = SafeString::try_from("x@foo.bar")?;
    assert_eq!(s.to_string(), "x@foo.bar");
    Ok(())
}

#[test]
fn test_construct_safe_string_2() -> Result<(), Error> {
    let s: SafeString<Email> = "x@foo.bar".try_into()?;
    assert_eq!(s.to_string(), "x@foo.bar");
    Ok(())
}

#[test]
fn test_construct_safe_string_3() -> Result<(), Error> {
    let s = SafeString::<Email>::try_from("x@foo.bar")?;
    assert_eq!(s.to_string(), "x@foo.bar");
    Ok(())
}

#[test]
fn try_from_keeps_the_text_as_given() {
    let raw = "  Mixed@Case.EXAMPLE \t";
    let s = SafeString::<Email>::try_from(raw).unwrap();
    assert_eq!(s.as_str(), raw);
    assert_eq!(s.to_string(), raw);
    assert_eq!(s.serialize(), raw);
}

#[test]
fn try_from_rejects_what_the_validator_rejects() {
    let r = SafeString::<Email>::try_from("foobarbaz");
    match r {
        Ok(_) => panic!("text without @ was accepted"),
        Err(Error::InvalidStringError(detail)) => assert_eq!(detail, "Invalid string"),
    }
    assert!(SafeString::<ApiKey>::try_from("0123456789abcdef").is_err());
    assert!(SafeString::<Fullname>::try_from("JohnNo").is_err());
    assert!(SafeString::<Email>::try_from("").is_err());
}

#[test]
fn try_from_succeeds_exactly_when_valid() {
    let samples = ["", "@", "a@b", "ab", "0123456789abcdef0123456789abcdef", "John Doe", "x y z"];
    for raw in samples {
        assert_eq!(
            SafeString::<Email>::try_from(raw).is_ok(),
            <Email as safestring::Validator>::valid(raw)
        );
        assert_eq!(
            SafeString::<ApiKey>::try_from(raw).is_ok(),
            <ApiKey as safestring::Validator>::valid(raw)
        );
        assert_eq!(
            SafeString::<Fullname>::try_from(raw).is_ok(),
            <Fullname as safestring::Validator>::valid(raw)
        );
    }
}

#[test]
fn rejection_renders_with_its_prefix() {
    let e = SafeString::<Email>::try_from("nope").unwrap_err();
    assert_eq!(e.message(), "Invalid string: Invalid string");
    let made = Error::rejected();
    assert_eq!(made.message(), "Invalid string: Invalid string");
    let other = Error::InvalidStringError(String::from("too short"));
    assert_eq!(other.message(), "Invalid string: too short");
}

#[test]
fn new_agrees_with_try_from_on_valid_text() {
    let a: SafeString<Email> = SafeString::new("foo@bar.baz");
    let b: SafeString<Email> = SafeString::try_from("foo@bar.baz").unwrap();
    assert_eq!(a.as_str(), b.as_str());
    assert!(a == b);
    let k: SafeString<ApiKey> = SafeString::new("0123456789abcdef0123456789abcdef");
    assert_eq!(k.to_string(), "0123456789abcdef0123456789abcdef");
}

#[test]
fn equality_goes_by_text() {
    let a = SafeString::<Email>::new("a@b");
    let b = SafeString::<Email>::new("a@b");
    let c = SafeString::<Email>::new("c@d");
    assert!(a == b);
    assert!(a != c);
}

#[test]
fn display_is_raw_and_debug_is_quoted() {
    let s = SafeString::<Email>::new("x@foo.bar");
    assert_eq!(s.to_string(), "x@foo.bar");
    assert_eq!(s.debug_string(), "\"x@foo.bar\"");
    let q = SafeString::<Email>::new("say \"hi\"@\n");
    assert_eq!(q.to_string(), "say \"hi\"@\n");
    assert_eq!(q.debug_string(), "\"say \\\"hi\\\"@\\n\"");
}

#[test]
fn same_text_under_two_validators_has_two_types() {
    let text = "john@doe and more padding 012345";
    assert_eq!(text.len(), 32);
    let as_email = SafeString::<Email>::try_from(text).unwrap();
    let as_key = SafeString::<ApiKey>::try_from(text).unwrap();
    assert_eq!(as_email.as_str(), as_key.as_str());
    assert_ne!(TypeId::of::<SafeString<Email>>(), TypeId::of::<SafeString<ApiKey>>());
}
