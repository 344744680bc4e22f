use notify_relay::{
    build_descriptor, build_notification, decode_payload, decode_text, on_action, on_some,
    parse_notification, request_from_members, to_notification, ActionEffect, ActionEntry,
    DecodeError, Descriptor, Field, JsonMember, NotificationRequest,
};
use notify_rust::Notification;

fn request(summary: &str) -> NotificationRequest {
    NotificationRequest {
        summary: summary.to_string(),
        body: None,
        appname: None,
        icon: None,
        link: None,
    }
}

#[test]
fn build_done_with_link_end_to_end() {
    let payload = br#"{"summary":"Build done","body":"ok","link":"https://example.com"}"#;
    let req = decode_payload(payload).unwrap();
    let d = build_descriptor(&req);
    assert_eq!(
        d,
        Descriptor {
            summary: "Build done".to_string(),
            body: Some("ok".to_string()),
            appname: None,
            icon: None,
            actions: vec![ActionEntry {
                identifier: "show".to_string(),
                label: "Open link".to_string(),
            }],
        }
    );
    let mut n = Notification::new();
    let link = parse_notification(&mut n, payload).unwrap();
    assert_eq!(n.summary, "Build done");
    assert_eq!(n.body, "ok");
    assert_eq!(n.icon, "");
    assert_eq!(n.actions, vec!["show".to_string(), "Open link".to_string()]);
    assert_eq!(
        on_action("show", &link),
        ActionEffect::OpenLink("https://example.com".to_string())
    );
}

#[test]
fn ping_without_link_registers_nothing() {
    let req = decode_text(r#"{"summary":"Ping"}"#).unwrap();
    assert_eq!(req, request("Ping"));
    let d = build_descriptor(&req);
    assert!(d.actions.is_empty());
    assert_eq!(d.body, None);
    assert_eq!(d.appname, None);
    assert_eq!(d.icon, None);
    let mut n = Notification::new();
    let link = build_notification(&mut n, &req);
    assert!(n.actions.is_empty());
    assert_eq!(n.body, "");
    assert_eq!(link, None);
    assert_eq!(on_action("show", &link), ActionEffect::Acknowledge);
    assert_eq!(on_action("__closed", &link), ActionEffect::Acknowledge);
}

#[test]
fn not_json_is_malformed() {
    assert_eq!(decode_payload(b"not valid json"), Err(DecodeError::Malformed));
    let mut n = Notification::new();
    n.summary("before");
    assert_eq!(
        parse_notification(&mut n, b"not valid json"),
        Err(DecodeError::Malformed)
    );
    assert_eq!(n.summary, "before");
}

#[test]
fn bad_payload_does_not_affect_next() {
    assert_eq!(decode_payload(b"{\"body\":\"x\"}"), Err(DecodeError::MissingSummary));
    assert_eq!(decode_payload(b"{oops"), Err(DecodeError::Malformed));
    let req = decode_payload(br#"{"summary":"After"}"#).unwrap();
    assert_eq!(req, request("After"));
}

#[test]
fn all_fields_are_read() {
    let req = decode_text(
        r#"{"summary":"S","body":"B","appname":"A","icon":"dialog-information","link":"L","extra":3}"#,
    )
    .unwrap();
    assert_eq!(
        req,
        NotificationRequest {
            summary: "S".to_string(),
            body: Some("B".to_string()),
            appname: Some("A".to_string()),
            icon: Some("dialog-information".to_string()),
            link: Some("L".to_string()),
        }
    );
    let mut n = Notification::new();
    let link = build_notification(&mut n, &req);
    assert_eq!(n.appname, "A");
    assert_eq!(n.icon, "dialog-information");
    assert_eq!(link, Some("L".to_string()));
}

#[test]
fn null_optional_fields_are_absent() {
    let req = decode_text(r#"{"summary":"S","body":null,"link":null}"#).unwrap();
    assert_eq!(req, request("S"));
}

#[test]
fn wrong_types_are_rejected() {
    assert_eq!(decode_text(r#"{"summary":5}"#), Err(DecodeError::WrongType(Field::Summary)));
    assert_eq!(
        decode_text(r#"{"summary":null}"#),
        Err(DecodeError::WrongType(Field::Summary))
    );
    assert_eq!(
        decode_text(r#"{"summary":"s","body":[1]}"#),
        Err(DecodeError::WrongType(Field::Body))
    );
    assert_eq!(
        decode_text(r#"{"summary":"s","appname":true}"#),
        Err(DecodeError::WrongType(Field::Appname))
    );
    assert_eq!(
        decode_text(r#"{"summary":"s","icon":{}}"#),
        Err(DecodeError::WrongType(Field::Icon))
    );
    assert_eq!(
        decode_text(r#"{"summary":"s","link":1.5}"#),
        Err(DecodeError::WrongType(Field::Link))
    );
}

#[test]
fn json_that_is_not_an_object_lacks_summary() {
    assert_eq!(decode_text("42"), Err(DecodeError::MissingSummary));
    assert_eq!(decode_text(r#"["Ping"]"#), Err(DecodeError::MissingSummary));
    assert_eq!(decode_text(""), Err(DecodeError::Malformed));
}

#[test]
fn invalid_utf8_is_replaced() {
    let mut payload = b"{\"summary\":\"a".to_vec();
    payload.push(0xff);
    payload.extend_from_slice(b"b\"}");
    let req = decode_payload(&payload).unwrap();
    assert_eq!(req.summary, "a\u{fffd}b");
}

#[test]
fn empty_summary_is_accepted() {
    assert_eq!(decode_text(r#"{"summary":""}"#), Ok(request("")));
}

#[test]
fn first_bad_field_is_reported() {
    let r = request_from_members(
        JsonMember::Text("s".to_string()),
        JsonMember::Other,
        JsonMember::Null,
        JsonMember::Other,
        JsonMember::Absent,
    );
    assert_eq!(r, Err(DecodeError::WrongType(Field::Body)));
    let r = request_from_members(
        JsonMember::Absent,
        JsonMember::Other,
        JsonMember::Null,
        JsonMember::Null,
        JsonMember::Null,
    );
    assert_eq!(r, Err(DecodeError::MissingSummary));
    let r = request_from_members(
        JsonMember::Text("s".to_string()),
        JsonMember::Absent,
        JsonMember::Null,
        JsonMember::Null,
        JsonMember::Text("u".to_string()),
    );
    let mut expected = request("s");
    expected.link = Some("u".to_string());
    assert_eq!(r, Ok(expected));
}

#[test]
fn only_show_opens_the_link() {
    let link = Some("https://example.com".to_string());
    assert_eq!(on_action("default", &link), ActionEffect::Acknowledge);
    assert_eq!(on_action("Show", &link), ActionEffect::Acknowledge);
    assert_eq!(on_action("", &link), ActionEffect::Acknowledge);
    assert_eq!(
        on_action("show", &link),
        ActionEffect::OpenLink("https://example.com".to_string())
    );
}

#[test]
fn descriptor_sets_each_notification_field() {
    let d = Descriptor {
        summary: "T".to_string(),
        body: None,
        appname: None,
        icon: Some("i".to_string()),
        actions: vec![
            ActionEntry { identifier: "a".to_string(), label: "A".to_string() },
            ActionEntry { identifier: "b".to_string(), label: "B".to_string() },
        ],
    };
    let mut n = Notification::new();
    n.body("stale body").icon("stale icon").action("old", "Old");
    to_notification(&mut n, &d);
    assert_eq!(n.summary, "T");
    assert_eq!(n.body, "");
    assert_eq!(n.icon, "i");
    assert_eq!(
        n.actions,
        vec!["a".to_string(), "A".to_string(), "b".to_string(), "B".to_string()]
    );
}

#[test]
fn on_some_calls_only_with_a_value() {
    let mut seen = Vec::new();
    on_some(Some(3), |v| seen.push(v));
    on_some(None, |v: i32| seen.push(v));
    assert_eq!(seen, vec![3]);
}

#[test]
fn repeated_key_keeps_last_value() {
    let req = decode_text(r#"{"summary":"a","summary":"b"}"#).unwrap();
    assert_eq!(req.summary, "b");
}
