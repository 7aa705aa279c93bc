use rgewe_api::ContactOperationType;
use rgewe_api::PrivacyOperationType;
use rgewe_api::RequestBody;
use rgewe_api::Sex;
use rgewe_api::Wxid;

#[test]
fn encode_empty_body() {
    let body = RequestBody::new();
    assert_eq!(body.len(), 0);
    assert_eq!(body.encode(), "{}");
}

#[test]
fn encode_keeps_field_order_and_names() {
    let mut body = RequestBody::new();
    body.push_str("appId", "app-7");
    body.push_int("operType", 2);
    body.push_bool("top", true);
    body.push_str_list("wxids", vec![String::from("a"), String::from("b")]);
    assert_eq!(
        body.encode(),
        "{\"appId\":\"app-7\",\"operType\":2,\"top\":true,\"wxids\":[\"a\",\"b\"]}"
    );
}

#[test]
fn encode_integers() {
    let mut body = RequestBody::new();
    body.push_int("zero", 0);
    body.push_int("pos", 42);
    body.push_int("neg", -7);
    body.push_int("min", i64::MIN);
    body.push_int("max", i64::MAX);
    assert_eq!(
        body.encode(),
        "{\"zero\":0,\"pos\":42,\"neg\":-7,\"min\":-9223372036854775808,\"max\":9223372036854775807}"
    );
}

#[test]
fn encode_escapes_match_reference_serializer() {
    let tricky = "quote:\" backslash:\\ newline:\n tab:\t cr:\r bs:\u{8} ff:\u{c} low:\u{1} high:\u{1f} plain: ok";
    let mut body = RequestBody::new();
    body.push_str("v", tricky);

    let mut map = serde_json::Map::new();
    map.insert(
        String::from("v"),
        serde_json::Value::String(String::from(tricky)),
    );
    let reference = serde_json::to_string(&serde_json::Value::Object(map)).unwrap();

    assert_eq!(body.encode(), reference);
}

#[test]
fn encode_non_ascii_is_kept_verbatim() {
    let text = "snowman \u{2603} and accents \u{e9}\u{e8}";
    let mut body = RequestBody::new();
    body.push_str("v", text);

    let mut map = serde_json::Map::new();
    map.insert(
        String::from("v"),
        serde_json::Value::String(String::from(text)),
    );
    let reference = serde_json::to_string(&serde_json::Value::Object(map)).unwrap();

    assert_eq!(body.encode(), reference);
}

#[test]
fn encode_escapes_field_names_too() {
    let mut body = RequestBody::new();
    body.push_str("we\"ird\\name", "v");

    let mut map = serde_json::Map::new();
    map.insert(String::from("we\"ird\\name"), serde_json::Value::String(String::from("v")));
    let reference = serde_json::to_string(&serde_json::Value::Object(map)).unwrap();

    assert_eq!(body.encode(), reference);
}

#[test]
fn encode_string_list_matches_reference_serializer() {
    let items = vec![String::from("wxid_x"), String::from("a\"b"), String::new()];
    let mut body = RequestBody::new();
    body.push_str_list("wxids", items.clone());

    let mut map = serde_json::Map::new();
    map.insert(
        String::from("wxids"),
        serde_json::Value::Array(
            items.into_iter().map(serde_json::Value::String).collect(),
        ),
    );
    let reference = serde_json::to_string(&serde_json::Value::Object(map)).unwrap();

    assert_eq!(body.encode(), reference);
}

#[test]
fn encode_empty_string_list() {
    let mut body = RequestBody::new();
    body.push_str_list("wxids", Vec::new());
    assert_eq!(body.encode(), "{\"wxids\":[]}");
}

#[test]
fn encode_wxid_fields() {
    let to = Wxid::try_from("wxid_alice").unwrap();
    let room = Wxid::try_from("team@chatroom").unwrap();
    let mut body = RequestBody::new();
    body.push_wxid("toWxid", &to);
    body.push_wxid_list("memberWxids", &vec![to.clone(), room]);
    assert_eq!(
        body.encode(),
        "{\"toWxid\":\"wxid_alice\",\"memberWxids\":[\"wxid_alice\",\"team@chatroom\"]}"
    );
}

#[test]
fn wire_codes() {
    assert_eq!(Sex::Male.wire_code(), 1);
    assert_eq!(Sex::Female.wire_code(), 2);
    assert_eq!(ContactOperationType::Add.wire_code(), 1);
    assert_eq!(ContactOperationType::Remove.wire_code(), 2);
    assert_eq!(PrivacyOperationType::RequiredFriendRequest.wire_code(), 4);
    assert_eq!(PrivacyOperationType::FindMobileContacts.wire_code(), 7);
    assert_eq!(PrivacyOperationType::FindViaPhoneNumber.wire_code(), 8);
    assert_eq!(PrivacyOperationType::FindViaWeChatId.wire_code(), 25);
    assert_eq!(PrivacyOperationType::FindViaGroupChat.wire_code(), 38);
    assert_eq!(PrivacyOperationType::AddViaQrCode.wire_code(), 39);
    assert_eq!(PrivacyOperationType::AddViaBusinessCard.wire_code(), 40);
}

#[test]
fn encoded_body_parses_back() {
    let mut body = RequestBody::new();
    body.push_str("appId", "app");
    body.push_int("option", PrivacyOperationType::FindMobileContacts.wire_code() as i64);
    body.push_bool("open", false);
    body.push_str_list("wxids", vec![String::from("wxid_a")]);
    let text = body.encode();

    let parsed: serde_json::Value = serde_json::from_str(&text).unwrap();
    assert_eq!(parsed.get("appId").unwrap(), &serde_json::Value::String(String::from("app")));
    assert_eq!(
        parsed.get("option").unwrap(),
        &serde_json::Value::Number(serde_json::Number::from(7u32))
    );
    assert_eq!(parsed.get("open").unwrap(), &serde_json::Value::Bool(false));
    assert_eq!(
        parsed.get("wxids").unwrap(),
        &serde_json::Value::Array(vec![serde_json::Value::String(String::from("wxid_a"))])
    );
    assert_eq!(parsed.as_object().unwrap().len(), 4);
}
