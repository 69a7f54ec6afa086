use osp::ident::Uuid;

#[test]
fn parses_hyphenated_text() {
    let id = Uuid::parse_str("995f6806-7c36-4e27-ab03-a422952287b6").unwrap();
    assert_eq!(id.as_u128(), 0x995f68067c364e27ab03a422952287b6u128);
}

#[test]
fn rejects_text_that_is_no_identifier() {
    assert_eq!(Uuid::parse_str("not-an-identifier"), None);
}

#[test]
fn fresh_identifiers_are_version_four() {
    let id = Uuid::new_v4();
    assert_eq!(id.as_u128() & 0xF000_C000_0000_0000_0000u128, 0x4000_8000_0000_0000_0000u128);
    assert_ne!(Uuid::new_v4(), Uuid::new_v4());
}

#[test]
fn from_u128_keeps_the_value() {
    assert_eq!(Uuid::from_u128(7).as_u128(), 7);
}
