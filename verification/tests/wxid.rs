use rgewe_api::ApiError;
use rgewe_api::Wxid;

#[test]
fn wxid_accepts_contact_prefix() {
    let w = Wxid::try_from("wxid_abc123").unwrap();
    assert_eq!(w.as_str(), "wxid_abc123");
    let bare = Wxid::try_from("wxid_").unwrap();
    assert_eq!(bare.as_str(), "wxid_");
}

#[test]
fn wxid_accepts_group_suffix() {
    let w = Wxid::try_from("12345678@chatroom").unwrap();
    assert_eq!(w.as_str(), "12345678@chatroom");
    let bare = Wxid::try_from("@chatroom").unwrap();
    assert_eq!(bare.as_str(), "@chatroom");
}

#[test]
fn wxid_rejects_invalid_input() {
    let e = Wxid::try_from("alice").unwrap_err();
    assert!(matches!(e, ApiError::Validation(ref input) if input == "alice"));
    assert_eq!(e.message(), "Invalid Wxid format: alice");

    let e = Wxid::try_from("").unwrap_err();
    assert!(matches!(e, ApiError::Validation(ref input) if input.is_empty()));

    // A prefix or suffix occurring elsewhere in the string does not count.
    assert!(Wxid::try_from("xwxid_abc").is_err());
    assert!(Wxid::try_from("a@chatroomx").is_err());
}

#[test]
fn wxid_no_normalization() {
    // Case and surrounding whitespace are kept and judged as-is.
    assert!(Wxid::try_from("WXID_abc").is_err());
    assert!(Wxid::try_from(" wxid_abc").is_err());
    let w = Wxid::try_from("wxid_ABC ").unwrap();
    assert_eq!(w.as_str(), "wxid_ABC ");
}

#[test]
fn wxid_round_trip() {
    let w = Wxid::try_from("wxid_bob").unwrap();
    let again = Wxid::try_from(w.as_str()).unwrap();
    assert_eq!(again, w);

    let g = Wxid::try_from("team@chatroom").unwrap();
    let again = Wxid::try_from(g.as_str()).unwrap();
    assert_eq!(again, g);
}
