//! Decoding a datagram's payload into a notification request.
use vstd::prelude::*;

verus! {

#[verifier::external_type_specification]
#[verifier::external_body]
pub struct ExJsonValue(serde_json::Value);

#[verifier::external_type_specification]
#[verifier::external_body]
pub struct ExJsonError(serde_json::Error);

/// The text that `String::from_utf8_lossy` makes of `bytes`.
pub uninterp spec fn lossy_text_of(bytes: Seq<u8>) -> Seq<char>;

/// Whether serde_json reads `text` as one well-formed JSON value.
pub uninterp spec fn json_parses(text: Seq<char>) -> bool;

/// The member named `key` of the JSON value that serde_json reads from `text`.
pub uninterp spec fn json_member_of(text: Seq<char>, key: Seq<char>) -> MemberView;

/// A request as the relay reads it off the wire. Only `summary` is required.
#[derive(Debug, Clone, PartialEq, Eq)]
pub struct NotificationRequest {
    pub summary: String,
    pub body: Option<String>,
    pub appname: Option<String>,
    pub icon: Option<String>,
    pub link: Option<String>,
}

pub struct RequestView {
    pub summary: Seq<char>,
    pub body: Option<Seq<char>>,
    pub appname: Option<Seq<char>>,
    pub icon: Option<Seq<char>>,
    pub link: Option<Seq<char>>,
}

pub open spec fn opt_view(o: Option<String>) -> Option<Seq<char>> {
    match o {
        Some(s) => Some(s@),
        None => None,
    }
}

impl View for NotificationRequest {
    type V = RequestView;

    open spec fn view(&self) -> RequestView {
        RequestView {
            summary: self.summary@,
            body: opt_view(self.body),
            appname: opt_view(self.appname),
            icon: opt_view(self.icon),
            link: opt_view(self.link),
        }
    }
}

/// The fields of a request, by their keys on the wire.
#[derive(Debug, Clone, Copy, PartialEq, Eq, Structural)]
pub enum Field {
    Summary,
    Body,
    Appname,
    Icon,
    Link,
}

/// Why a payload does not decode into a request.
#[derive(Debug, Clone, Copy, PartialEq, Eq, Structural)]
pub enum DecodeError {
    /// The text is not well-formed JSON.
    Malformed,
    /// There is no `summary`.
    MissingSummary,
    /// The field holds something other than text (or, for an optional field, `null`).
    WrongType(Field),
}

/// What a JSON document holds under one key, as far as a request cares.
#[derive(Debug, Clone, PartialEq, Eq)]
pub enum JsonMember {
    Absent,
    Null,
    Text(String),
    /// A number, a boolean, an array or an object.
    Other,
}

pub enum MemberView {
    Absent,
    Null,
    Text(Seq<char>),
    Other,
}

impl View for JsonMember {
    type V = MemberView;

    open spec fn view(&self) -> MemberView {
        match self {
            JsonMember::Absent => MemberView::Absent,
            JsonMember::Null => MemberView::Null,
            JsonMember::Text(s) => MemberView::Text(s@),
            JsonMember::Other => MemberView::Other,
        }
    }
}

/// A parsed JSON document, with the text it was read from.
pub struct JsonDoc {
    value: serde_json::Value,
    text: Ghost<Seq<char>>,
}

impl JsonDoc {
    pub closed spec fn source(&self) -> Seq<char> {
        self.text@
    }
}

/// The required summary, read from its member.
pub open spec fn summary_from(m: MemberView) -> Result<Seq<char>, DecodeError> {
    match m {
        MemberView::Text(t) => Ok(t),
        MemberView::Absent => Err(DecodeError::MissingSummary),
        _ => Err(DecodeError::WrongType(Field::Summary)),
    }
}

/// An optional field, read from its member: absent and `null` both leave it out.
pub open spec fn optional_from(m: MemberView, f: Field) -> Result<Option<Seq<char>>, DecodeError> {
    match m {
        MemberView::Text(t) => Ok(Some(t)),
        MemberView::Absent | MemberView::Null => Ok(None),
        MemberView::Other => Err(DecodeError::WrongType(f)),
    }
}

/// The request that the five members give, or the first field, in wire order,
/// that stops it.
pub open spec fn request_from(
    summary: MemberView,
    body: MemberView,
    appname: MemberView,
    icon: MemberView,
    link: MemberView,
) -> Result<RequestView, DecodeError> {
    let s = summary_from(summary);
    let b = optional_from(body, Field::Body);
    let a = optional_from(appname, Field::Appname);
    let i = optional_from(icon, Field::Icon);
    let l = optional_from(link, Field::Link);
    if s is Err {
        Err(s->Err_0)
    } else if b is Err {
        Err(b->Err_0)
    } else if a is Err {
        Err(a->Err_0)
    } else if i is Err {
        Err(i->Err_0)
    } else if l is Err {
        Err(l->Err_0)
    } else {
        Ok(
            RequestView {
                summary: s->Ok_0,
                body: b->Ok_0,
                appname: a->Ok_0,
                icon: i->Ok_0,
                link: l->Ok_0,
            },
        )
    }
}

pub open spec fn field_key(f: Field) -> Seq<char> {
    match f {
        Field::Summary => seq!['s', 'u', 'm', 'm', 'a', 'r', 'y'],
        Field::Body => seq!['b', 'o', 'd', 'y'],
        Field::Appname => seq!['a', 'p', 'p', 'n', 'a', 'm', 'e'],
        Field::Icon => seq!['i', 'c', 'o', 'n'],
        Field::Link => seq!['l', 'i', 'n', 'k'],
    }
}

/// What decoding `text` gives.
pub open spec fn decoded(text: Seq<char>) -> Result<RequestView, DecodeError> {
    if !json_parses(text) {
        Err(DecodeError::Malformed)
    } else {
        request_from(
            json_member_of(text, field_key(Field::Summary)),
            json_member_of(text, field_key(Field::Body)),
            json_member_of(text, field_key(Field::Appname)),
            json_member_of(text, field_key(Field::Icon)),
            json_member_of(text, field_key(Field::Link)),
        )
    }
}

pub open spec fn result_view(r: Result<NotificationRequest, DecodeError>) -> Result<
    RequestView,
    DecodeError,
> {
    match r {
        Ok(q) => Ok(q@),
        Err(e) => Err(e),
    }
}

/// Relies on `String::from_utf8_lossy`: the bytes read as UTF-8, with each
/// invalid sequence replaced; it never fails.
#[verifier::external_body]
fn lossy_text(bytes: &[u8]) -> (r: String)
    ensures
        r@ == lossy_text_of(bytes@),
{
    String::from_utf8_lossy(bytes).into_owned()
}

/// Relies on `serde_json::from_str` into a `serde_json::Value`: it succeeds
/// exactly on well-formed JSON text.
#[verifier::external_body]
fn parse_json(text: &str) -> (r: Result<JsonDoc, serde_json::Error>)
    ensures
        r is Ok <==> json_parses(text@),
        r matches Ok(d) ==> d.source() == text@,
{
    serde_json::from_str::<serde_json::Value>(text).map(|value| JsonDoc { value, text: Ghost(text@) })
}

/// Relies on `serde_json::Value::get` with a string key: the member of that
/// name where the document is an object, nothing otherwise.
#[verifier::external_body]
fn json_member(doc: &JsonDoc, key: &str) -> (r: JsonMember)
    ensures
        r@ == json_member_of(doc.source(), key@),
{
    match doc.value.get(key) {
        None => JsonMember::Absent,
        Some(serde_json::Value::Null) => JsonMember::Null,
        Some(serde_json::Value::String(s)) => JsonMember::Text(s.clone()),
        Some(_) => JsonMember::Other,
    }
}

fn summary_member(m: JsonMember) -> (r: Result<String, DecodeError>)
    ensures
        match r {
            Ok(s) => summary_from(m@) == Ok::<Seq<char>, DecodeError>(s@),
            Err(e) => summary_from(m@) == Err::<Seq<char>, DecodeError>(e),
        },
{
    match m {
        JsonMember::Text(t) => Ok(t),
        JsonMember::Absent => Err(DecodeError::MissingSummary),
        _ => Err(DecodeError::WrongType(Field::Summary)),
    }
}

fn optional_member(m: JsonMember, f: Field) -> (r: Result<Option<String>, DecodeError>)
    ensures
        match r {
            Ok(o) => optional_from(m@, f) == Ok::<Option<Seq<char>>, DecodeError>(opt_view(o)),
            Err(e) => optional_from(m@, f) == Err::<Option<Seq<char>>, DecodeError>(e),
        },
{
    match m {
        JsonMember::Text(t) => Ok(Some(t)),
        JsonMember::Absent | JsonMember::Null => Ok(None),
        JsonMember::Other => Err(DecodeError::WrongType(f)),
    }
}

/// Builds a request from the members found under its five keys; the first
/// field, in wire order, that holds the wrong kind of value is the error.
pub fn request_from_members(
    summary: JsonMember,
    body: JsonMember,
    appname: JsonMember,
    icon: JsonMember,
    link: JsonMember,
) -> (r: Result<NotificationRequest, DecodeError>)
    ensures
        result_view(r) == request_from(summary@, body@, appname@, icon@, link@),
{
    let ghost (sv, bv, av, iv, lv) = (summary@, body@, appname@, icon@, link@);
    let summary = match summary_member(summary) {
        Ok(s) => s,
        Err(e) => return Err(e),
    };
    let body = match optional_member(body, Field::Body) {
        Ok(o) => o,
        Err(e) => return Err(e),
    };
    let appname = match optional_member(appname, Field::Appname) {
        Ok(o) => o,
        Err(e) => return Err(e),
    };
    let icon = match optional_member(icon, Field::Icon) {
        Ok(o) => o,
        Err(e) => return Err(e),
    };
    let link = match optional_member(link, Field::Link) {
        Ok(o) => o,
        Err(e) => return Err(e),
    };
    let r = NotificationRequest { summary, body, appname, icon, link };
    assert(result_view(Ok(r)) == request_from(sv, bv, av, iv, lv));
    Ok(r)
}

/// Decodes JSON text into a request. Unknown keys are ignored; where a key is
/// repeated, its last value counts, as in the parsed JSON object.
pub fn decode_text(text: &str) -> (r: Result<NotificationRequest, DecodeError>)
    ensures
        result_view(r) == decoded(text@),
{
    let doc = match parse_json(text) {
        Ok(d) => d,
        Err(_) => return Err(DecodeError::Malformed),
    };
    proof {
        reveal_strlit("summary");
        reveal_strlit("body");
        reveal_strlit("appname");
        reveal_strlit("icon");
        reveal_strlit("link");
        assert("summary"@ =~= field_key(Field::Summary));
        assert("body"@ =~= field_key(Field::Body));
        assert("appname"@ =~= field_key(Field::Appname));
        assert("icon"@ =~= field_key(Field::Icon));
        assert("link"@ =~= field_key(Field::Link));
    }
    let summary = json_member(&doc, "summary");
    let body = json_member(&doc, "body");
    let appname = json_member(&doc, "appname");
    let icon = json_member(&doc, "icon");
    let link = json_member(&doc, "link");
    request_from_members(summary, body, appname, icon, link)
}

/// Decodes a datagram's bytes into a request: the bytes are read as UTF-8,
/// invalid sequences replaced, and the text decoded as JSON.
pub fn decode_payload(bytes: &[u8]) -> (r: Result<NotificationRequest, DecodeError>)
    ensures
        result_view(r) == decoded(lossy_text_of(bytes@)),
{
    let text = lossy_text(bytes);
    decode_text(text.as_str())
}

} // verus!
