//! Null-tolerant decoding and response interpretation.

use requests::api::slug_reply;
use requests::api::token_reply;
use requests::api::unit_reply;
use requests::api::HttpOutcome;
use requests::article::decode_article_fields;
use requests::article::decode_user_fields;
use requests::json::json_get;
use requests::json::JsonValue;
use requests::parse_utils::parse_null_string;
use requests::parse_utils::parse_null_string_vec;
use requests::ApiError;

fn obj(fields: Vec<(&str, JsonValue)>) -> JsonValue {
    JsonValue::Obj(fields.into_iter().map(|(k, v)| (k.to_owned(), v)).collect())
}

fn s(text: &str) -> JsonValue {
    JsonValue::Str(text.to_owned())
}

#[test]
fn null_string_field_decodes_to_empty() {
    assert_eq!(parse_null_string(&JsonValue::Null), Some(String::new()));
}

#[test]
fn literal_string_field_is_kept_exactly() {
    assert_eq!(parse_null_string(&s("some value")), Some("some value".to_owned()));
    assert_eq!(parse_null_string(&s("")), Some(String::new()));
}

#[test]
fn non_string_field_is_rejected() {
    assert_eq!(parse_null_string(&JsonValue::Bool(true)), None);
    assert_eq!(parse_null_string(&JsonValue::UInt(3)), None);
    assert_eq!(parse_null_string(&JsonValue::Arr(vec![])), None);
}

#[test]
fn string_array_substitutes_nulls_element_wise() {
    let arr = JsonValue::Arr(vec![JsonValue::Null, s("a"), JsonValue::Null]);
    assert_eq!(
        parse_null_string_vec(&arr),
        Some(vec![String::new(), "a".to_owned(), String::new()])
    );
}

#[test]
fn string_array_rejects_non_string_elements() {
    let arr = JsonValue::Arr(vec![s("a"), JsonValue::Bool(false)]);
    assert_eq!(parse_null_string_vec(&arr), None);
    assert_eq!(parse_null_string_vec(&s("not an array")), None);
}

#[test]
fn object_lookup_takes_the_first_binding() {
    let v = obj(vec![("k", s("first")), ("k", s("second"))]);
    match json_get(&v, "k") {
        Some(JsonValue::Str(found)) => assert_eq!(found, "first"),
        other => panic!("expected the first binding, got {:?}", other),
    }
    assert!(json_get(&v, "missing").is_none());
    assert!(json_get(&s("not an object"), "k").is_none());
}

fn user_object(token: JsonValue) -> JsonValue {
    obj(vec![
        ("email", JsonValue::Null),
        ("username", s("alice")),
        ("bio", JsonValue::Null),
        ("image", JsonValue::Null),
        ("token", token),
    ])
}

#[test]
fn user_record_tolerates_null_fields() {
    let fields = decode_user_fields(&user_object(s("tok-1"))).expect("record must decode");
    assert_eq!(fields.email, "");
    assert_eq!(fields.username, "alice");
    assert_eq!(fields.bio, "");
    assert_eq!(fields.image, "");
    assert_eq!(fields.token, "tok-1");
}

#[test]
fn user_record_rejects_missing_fields() {
    let missing_token = obj(vec![
        ("email", JsonValue::Null),
        ("username", s("alice")),
        ("bio", JsonValue::Null),
        ("image", JsonValue::Null),
    ]);
    assert!(decode_user_fields(&missing_token).is_none());
}

fn article_object() -> JsonValue {
    obj(vec![
        ("slug", s("my-slug")),
        ("title", JsonValue::Null),
        ("description", JsonValue::Null),
        ("body", JsonValue::Null),
        ("createdAt", JsonValue::Null),
        ("updatedAt", JsonValue::Null),
        ("tagList", JsonValue::Arr(vec![JsonValue::Null, s("tag-a")])),
        (
            "author",
            obj(vec![
                ("username", JsonValue::Null),
                ("bio", JsonValue::Null),
                ("image", JsonValue::Null),
            ]),
        ),
        ("favoritedBy", JsonValue::Arr(vec![])),
        ("favoritesCount", JsonValue::UInt(7)),
        ("favorited", JsonValue::Bool(false)),
    ])
}

#[test]
fn article_record_tolerates_null_fields() {
    let fields = decode_article_fields(&article_object()).expect("record must decode");
    assert_eq!(fields.slug, "my-slug");
    assert_eq!(fields.title, "");
    assert_eq!(fields.body, "");
    assert_eq!(fields.tag_list, vec![String::new(), "tag-a".to_owned()]);
    assert_eq!(fields.author.username, "");
    assert_eq!(fields.favorited_by, Vec::<String>::new());
    assert_eq!(fields.favorites_count, 7);
    assert!(!fields.favorited);
}

#[test]
fn article_record_rejects_wrong_count_shape() {
    let mut fields = match article_object() {
        JsonValue::Obj(f) => f,
        _ => unreachable!(),
    };
    fields.retain(|(k, _)| k != "favoritesCount");
    fields.push(("favoritesCount".to_owned(), JsonValue::Null));
    assert!(decode_article_fields(&JsonValue::Obj(fields)).is_none());
}

#[test]
fn null_token_decodes_to_the_empty_string_end_to_end() {
    let body =
        "{\"user\":{\"email\":null,\"username\":\"alice\",\"bio\":null,\"image\":null,\"token\":null}}";
    let ok = token_reply(&HttpOutcome::Response { status: 200, body: body.to_owned() });
    assert_eq!(ok, Ok(String::new()));
}

#[test]
fn unparseable_body_propagates_a_request_failure() {
    let err = token_reply(&HttpOutcome::Response { status: 200, body: "{not json".to_owned() });
    assert_eq!(err, Err(ApiError::RequestFailed));
}

#[test]
fn token_reply_returns_the_mocked_token() {
    let body =
        "{\"user\":{\"email\":null,\"username\":\"alice\",\"bio\":null,\"image\":null,\"token\":\"tok-alice\"}}";
    let ok = token_reply(&HttpOutcome::Response { status: 200, body: body.to_owned() });
    assert_eq!(ok, Ok("tok-alice".to_owned()));
}

#[test]
fn token_reply_fails_on_non_success_status() {
    let body =
        "{\"user\":{\"email\":null,\"username\":\"alice\",\"bio\":null,\"image\":null,\"token\":\"tok-alice\"}}";
    let err = token_reply(&HttpOutcome::Response { status: 500, body: body.to_owned() });
    assert_eq!(err, Err(ApiError::RequestFailed));
}

#[test]
fn token_reply_fails_on_malformed_body() {
    let err = token_reply(&HttpOutcome::Response { status: 200, body: "{}".to_owned() });
    assert_eq!(err, Err(ApiError::RequestFailed));
    let err = token_reply(&HttpOutcome::TransportFailure);
    assert_eq!(err, Err(ApiError::RequestFailed));
}

#[test]
fn slug_reply_returns_the_slug_despite_null_subfields() {
    let body = "{\"article\":{\"slug\":\"my-slug\",\"title\":null,\"description\":null,\
                \"body\":null,\"createdAt\":null,\"updatedAt\":null,\"tagList\":[null],\
                \"author\":{\"username\":null,\"bio\":null,\"image\":null},\
                \"favoritedBy\":[],\"favoritesCount\":0,\"favorited\":false}}";
    let ok = slug_reply(&HttpOutcome::Response { status: 201, body: body.to_owned() });
    assert_eq!(ok, Ok("my-slug".to_owned()));
}

#[test]
fn unit_reply_propagates_non_success_status() {
    assert_eq!(
        unit_reply(&HttpOutcome::Response { status: 404, body: String::new() }),
        Err(ApiError::RequestFailed)
    );
    assert_eq!(
        unit_reply(&HttpOutcome::Response { status: 204, body: String::new() }),
        Ok(())
    );
    assert_eq!(unit_reply(&HttpOutcome::TransportFailure), Err(ApiError::RequestFailed));
}
