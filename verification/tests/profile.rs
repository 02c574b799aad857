use std::cell::{Cell, RefCell};

use emailer::error::{EmailError, EmailResult, ErrorKind};
use emailer::get_profile::{
    GoogleProfile, MicrosoftProfile, Profile, ProfileParam, ProfileUrl, SenderEmail, SenderName,
};
use emailer::interface::{Header, HttpRequest, HttpResponse, Interface, Method};
use emailer::shared_object::{encode_reply, Action, Call, Event};
use emailer::token::AccessToken;
use emailer::value::JsonValue;

const GOOGLE_JSON: &str = r#"{
            "id": "1525363627",
            "email": "test@gmail.com",
            "verified_email": true,
            "name": "My Name",
            "given_name": "My Name",
            "picture": "https://picutre",
            "locale": "en"
          }"#;

const MS_JSON: &str = r#"{
            "@odata.context": "data context",
            "@odata.id": "data id",
            "Id": "sample id",
            "EmailAddress": "test@outlook.com",
            "DisplayName": "My Name",
            "Alias": "Haxxx",
            "MailboxGuid": "en"
          }"#;

/// A transport that answers every request with the same outcome and keeps
/// count.
struct Stub {
    outcome: EmailResult<HttpResponse>,
    calls: Cell<usize>,
    seen: RefCell<Option<HttpRequest>>,
}

impl Stub {
    fn new(outcome: EmailResult<HttpResponse>) -> Stub {
        Stub { outcome, calls: Cell::new(0), seen: RefCell::new(None) }
    }

    fn with_body(body: &[u8]) -> Stub {
        Stub::new(Ok(HttpResponse { status_code: 200, headers: vec![], body: Some(body.to_vec()) }))
    }
}

impl Interface for &Stub {
    fn http_request(&self, request: HttpRequest) -> EmailResult<HttpResponse> {
        self.calls.set(self.calls.get() + 1);
        *self.seen.borrow_mut() = Some(request);
        self.outcome.clone()
    }
}

fn param(token: &str, endpoint: &str) -> ProfileParam {
    ProfileParam {
        access_token: AccessToken::new(token.to_string()),
        profile_endpoint: ProfileUrl::parse(endpoint).unwrap(),
    }
}

fn text(s: &str) -> JsonValue {
    JsonValue::String(s.to_string())
}

fn object(entries: Vec<(&str, JsonValue)>) -> JsonValue {
    JsonValue::Object(entries.into_iter().map(|(k, v)| (k.to_string(), v)).collect())
}

#[test]
fn test_google_profile() {
    let google = Profile::parse(GOOGLE_JSON).unwrap();

    if let Profile::Google(google) = google {
        println!("deserialize = {:?}", &google);
        println!("serialize = {:?}", google.clone());
        assert_eq!(
            google,
            GoogleProfile {
                id: "1525363627".to_string(),
                email: "test@gmail.com".to_string(),
                verified_email: true,
                name: "My Name".to_string(),
                given_name: "My Name".to_string(),
                picture: "https://picutre".to_string(),
                locale: "en".to_string(),
            }
        );
    } else {
        panic!("Not Google");
    }
}

#[test]
fn test_microsoft_profile() {
    let ms = Profile::parse(MS_JSON).unwrap();

    if let Profile::Microsoft(ms) = ms {
        println!("deserialize = {:?}", &ms);
        println!("serialize = {:?}", ms.clone());
        assert_eq!(
            ms,
            MicrosoftProfile {
                odata_context: "data context".to_string(),
                odata_id: "data id".to_string(),
                id: "sample id".to_string(),
                email_address: "test@outlook.com".to_string(),
                display_name: "My Name".to_string(),
                alias: "Haxxx".to_string(),
                mailbox_guid: "en".to_string(),
            }
        );
    } else {
        panic!("Not Microsoft");
    }
}

#[test]
fn google_payload_resolves_to_given_name_and_email() {
    let stub = Stub::with_body(GOOGLE_JSON.as_bytes());
    let resolved =
        Profile::get_sender_profile(&param("tok", "https://www.googleapis.com/userinfo"), &stub);
    assert_eq!(
        resolved,
        Ok((SenderName("My Name".to_string()), SenderEmail("test@gmail.com".to_string())))
    );
    assert_eq!(stub.calls.get(), 1);
}

#[test]
fn microsoft_payload_resolves_to_display_name_and_address() {
    let stub = Stub::with_body(MS_JSON.as_bytes());
    let resolved =
        Profile::get_sender_profile(&param("tok", "https://graph.microsoft.com/me"), &stub);
    assert_eq!(
        resolved,
        Ok((SenderName("My Name".to_string()), SenderEmail("test@outlook.com".to_string())))
    );
    assert_eq!(stub.calls.get(), 1);
}

#[test]
fn microsoft_shape_is_tried_first() {
    let both = r#"{"@odata.context":"c","@odata.id":"i","Id":"1","EmailAddress":"ms@b.com",
        "DisplayName":"MS","Alias":"x","MailboxGuid":"g","id":"2","email":"g@b.com",
        "verified_email":false,"name":"n","given_name":"G","picture":"p","locale":"l"}"#;
    let (name, email) = Profile::parse(both).unwrap().into_sender();
    assert_eq!(name.as_str(), "MS");
    assert_eq!(email.to_string(), "ms@b.com");
}

#[test]
fn unknown_fields_do_not_matter() {
    let body = r#"{"id":"1","email":"e@x.org","verified_email":true,"name":"N","given_name":"G",
        "picture":"p","locale":"l","hd":"x.org","age":41}"#;
    let (name, email) = Profile::parse(body).unwrap().into_sender();
    assert_eq!(name, SenderName("G".to_string()));
    assert_eq!(email, SenderEmail("e@x.org".to_string()));
}

#[test]
fn payload_of_neither_shape_is_a_schema_error() {
    let stub = Stub::with_body(br#"{"id":"1","email":"e@x.org"}"#);
    let resolved = Profile::get_sender_profile(&param("tok", "https://example.com/me"), &stub);
    assert_eq!(
        resolved,
        Err(EmailError::Serde(
            "data did not match any variant of untagged enum Profile".to_string()
        ))
    );
}

#[test]
fn field_of_wrong_type_is_a_schema_error() {
    let body = r#"{"id":"1","email":"e@x.org","verified_email":"yes","name":"N",
        "given_name":"G","picture":"p","locale":"l"}"#;
    let error = Profile::parse(body).unwrap_err();
    assert_eq!(error.kind(), ErrorKind::Serde);
    let array = r#"["c","i","1","a@b.com","A B","x","g"]"#;
    assert_eq!(Profile::parse(array).unwrap_err().kind(), ErrorKind::Serde);
}

#[test]
fn body_that_is_no_json_is_a_schema_error_with_the_parsers_message() {
    let error = Profile::parse("{\"id\": ").unwrap_err();
    assert_eq!(
        error,
        EmailError::Serde("EOF while parsing a value at line 1 column 7".to_string())
    );
}

#[test]
fn body_that_is_not_text_reads_as_empty() {
    assert_eq!(HttpResponse::read_text(vec![0xff, 0xfe, 0x41]), "");
    assert_eq!(HttpResponse::read_text("h\u{e9}llo".as_bytes().to_vec()), "h\u{e9}llo");
    let stub = Stub::with_body(&[0xc3, 0x28]);
    let resolved = Profile::get_sender_profile(&param("tok", "https://example.com/me"), &stub);
    assert_eq!(
        resolved,
        Err(EmailError::Serde("EOF while parsing a value at line 1 column 0".to_string()))
    );
}

#[test]
fn response_without_body_is_a_transport_error() {
    let stub = Stub::new(Ok(HttpResponse { status_code: 200, headers: vec![], body: None }));
    let resolved = Profile::get_sender_profile(&param("tok", "https://example.com/me"), &stub);
    assert_eq!(resolved, Err(EmailError::Curl("No body".to_string())));
    assert_eq!(stub.calls.get(), 1);
}

#[test]
fn transport_failure_is_handed_on_and_not_retried() {
    let stub = Stub::new(Err(EmailError::Curl("Couldn't resolve host name".to_string())));
    let resolved = Profile::get_sender_profile(&param("tok", "https://example.com/me"), &stub);
    assert_eq!(resolved, Err(EmailError::Curl("Couldn't resolve host name".to_string())));
    assert_eq!(stub.calls.get(), 1);
}

#[test]
fn request_is_a_get_with_the_token_as_bearer() {
    let stub = Stub::with_body(GOOGLE_JSON.as_bytes());
    let _ = Profile::get_sender_profile(&param("tok", "https://graph.microsoft.com/me"), &stub);
    let seen = stub.seen.borrow().clone().unwrap();
    assert!(
        seen == HttpRequest {
            url: "https://graph.microsoft.com/me".to_string(),
            method: Method::Get,
            headers: vec![Header {
                name: "Authorization".to_string(),
                value: "Bearer tok".to_string()
            }],
            body: None,
        }
    );
}

#[test]
fn token_that_no_header_can_carry_fails_before_anything_is_sent() {
    let stub = Stub::with_body(GOOGLE_JSON.as_bytes());
    for token in ["to\nk", "tok\r", "\u{7f}", "a\u{0}b"] {
        let resolved =
            Profile::get_sender_profile(&param(token, "https://example.com/me"), &stub);
        assert_eq!(resolved, Err(EmailError::Http("failed to parse header value".to_string())));
    }
    assert_eq!(stub.calls.get(), 0);
    for token in ["", "a b", "tab\there", "t\u{f6}k~"] {
        assert!(Profile::request(&param(token, "https://example.com/me")).is_ok());
    }
}

#[test]
fn header_value_is_checked() {
    assert!(
        Header::with_value("X", "ok value".to_string())
            == Ok(Header { name: "X".to_string(), value: "ok value".to_string() })
    );
    assert!(
        Header::with_value("X", "bad\nvalue".to_string())
            == Err("failed to parse header value".to_string())
    );
}

#[test]
fn endpoint_is_parsed_as_an_absolute_url() {
    assert_eq!(ProfileUrl::parse("HTTPS://Example.COM").unwrap().as_str(), "https://example.com/");
    assert_eq!(
        ProfileUrl::parse("https://graph.microsoft.com/me").unwrap().as_str(),
        "https://graph.microsoft.com/me"
    );
    assert_eq!(ProfileUrl::parse("/me"), Err("relative URL without a base".to_string()));
    assert_eq!(ProfileUrl::parse("https://"), Err("empty host".to_string()));
}

#[test]
fn json_text_is_parsed_to_a_value() {
    let value = JsonValue::parse(r#"{"b":[1,-2,3.5,true,null],"a":{"k":"v"}}"#).unwrap();
    assert_eq!(
        value.field("b"),
        Some(&JsonValue::List(vec![
            JsonValue::Number("1".to_string()),
            JsonValue::Number("-2".to_string()),
            JsonValue::Number("3.5".to_string()),
            JsonValue::Bool(true),
            JsonValue::Null,
        ]))
    );
    assert_eq!(value.field("a").unwrap().text_field("k"), Some(&"v".to_string()));
    assert_eq!(value.field("c"), None);
    assert_eq!(JsonValue::parse("\"s\""), Ok(text("s")));
    assert_eq!(JsonValue::parse("1.50"), Ok(JsonValue::Number("1.5".to_string())));
    assert_eq!(JsonValue::parse("1E2"), Ok(JsonValue::Number("100.0".to_string())));
    assert_eq!(JsonValue::parse("-0"), Ok(JsonValue::Number("-0.0".to_string())));
    assert_eq!(JsonValue::parse("nul"), Err("EOF while parsing a value at line 1 column 3".to_string()));
}

#[test]
fn first_entry_with_a_key_is_the_field() {
    let value = object(vec![("k", text("first")), ("k", text("second")), ("f", JsonValue::Bool(true))]);
    assert_eq!(value.text_field("k"), Some(&"first".to_string()));
    assert_eq!(value.flag_field("f"), Some(true));
    assert_eq!(value.flag_field("k"), None);
    assert_eq!(text("x").field("k"), None);
}

#[test]
fn profile_parameter_is_decoded() {
    let good = object(vec![
        ("profile_endpoint", text("https://graph.microsoft.com/me")),
        ("access_token", text("tok")),
        ("extra", JsonValue::Null),
    ]);
    let param = ProfileParam::from_value(&good).ok().unwrap();
    assert_eq!(param.access_token.secret(), "tok");
    assert_eq!(param.profile_endpoint.as_str(), "https://graph.microsoft.com/me");

    let decode = |value: JsonValue| ProfileParam::from_value(&value).err().unwrap();
    assert_eq!(decode(object(vec![])), "missing field `access_token`");
    assert_eq!(decode(text("tok")), "missing field `access_token`");
    assert_eq!(
        decode(object(vec![("access_token", JsonValue::Bool(true))])),
        "invalid type for field `access_token`"
    );
    assert_eq!(
        decode(object(vec![("access_token", text("tok"))])),
        "missing field `profile_endpoint`"
    );
    assert_eq!(
        decode(object(vec![("access_token", text("tok")), ("profile_endpoint", text("me"))])),
        "relative URL without a base"
    );
}

#[test]
fn get_profile_scenario() {
    let parameter = object(vec![
        ("access_token", text("tok")),
        ("profile_endpoint", text("https://graph.microsoft.com/me")),
    ]);
    let (call, action) = Call::start("getProfile", Some(parameter));
    let request = match action {
        Action::Fetch(request) => request,
        _ => panic!("no request"),
    };
    assert_eq!(request.url, "https://graph.microsoft.com/me");
    assert_eq!(request.method, Method::Get);
    assert!(
        request.headers
            == vec![Header { name: "Authorization".to_string(), value: "Bearer tok".to_string() }]
    );
    assert_eq!(request.body, None);

    let body = r#"{"@odata.context":"c","@odata.id":"i","Id":"1","EmailAddress":"a@b.com","DisplayName":"A B","Alias":"x","MailboxGuid":"g"}"#;
    let response =
        HttpResponse { status_code: 200, headers: vec![], body: Some(body.as_bytes().to_vec()) };
    let (call, action) = call.step(Event::Response(Ok(response)));
    assert!(matches!(call, Call::Done));
    let reply = match action {
        Action::Reply(reply) => reply,
        _ => panic!("no reply"),
    };
    let value = reply.unwrap();
    assert_eq!(value, object(vec![("sender_name", text("A B")), ("sender_email", text("a@b.com"))]));
    assert_eq!(value.text_field("sender_name"), Some(&"A B".to_string()));
    assert_eq!(value.text_field("sender_email"), Some(&"a@b.com".to_string()));
}

#[test]
fn get_profile_failures_are_replied_as_text() {
    let parameter =
        object(vec![("access_token", text("tok")), ("profile_endpoint", text("https://e.org/"))]);
    let (call, _) = Call::start("getProfile", Some(parameter));
    let (call, action) =
        call.step(Event::Response(Err(EmailError::Curl("Timeout was reached".to_string()))));
    assert!(matches!(call, Call::Done));
    let reply = match action {
        Action::Reply(reply) => reply,
        _ => panic!("no reply"),
    };
    assert_eq!(reply, Err(EmailError::Curl("Timeout was reached".to_string())));
    assert_eq!(encode_reply(reply), Err(text("Timeout was reached")));

    let (call, action) = Call::start("getProfile", None);
    assert!(matches!(call, Call::Done));
    assert!(matches!(
        action,
        Action::Reply(Err(EmailError::InvalidParameter(message))) if message == "No parameter"
    ));

    let bad =
        object(vec![("access_token", text("to\nk")), ("profile_endpoint", text("https://e.org/"))]);
    let (call, action) = Call::start("getProfile", Some(bad));
    assert!(matches!(call, Call::Done));
    assert!(matches!(
        action,
        Action::Reply(Err(EmailError::Http(message))) if message == "failed to parse header value"
    ));
}
