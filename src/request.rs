use vstd::prelude::*;
use vstd::string::*;

use crate::digest::DeviceIdentity;
use crate::err::JellyfinError;

verus! {

/// The header that carries the client's credentials.
pub const AUTH_HEADER_NAME: &'static str = "X-Emby-Authorization";

/// The serialization of the URL that `url::Url::parse` makes of a text, or
/// `None` where it refuses the text.
pub uninterp spec fn url_serialization(text: Seq<char>) -> Option<Seq<char>>;

/// The `application/x-www-form-urlencoded` form of a text.
pub uninterp spec fn form_encoded(text: Seq<char>) -> Seq<char>;

/// A text as a JSON string literal, quotes and escapes included.
pub uninterp spec fn json_string(text: Seq<char>) -> Seq<char>;

/// Characters that form encoding leaves as they are.
pub open spec fn form_unreserved(c: char) -> bool {
    ||| ('a' <= c && c <= 'z')
    ||| ('A' <= c && c <= 'Z')
    ||| ('0' <= c && c <= '9')
    ||| c == '*'
    ||| c == '-'
    ||| c == '.'
    ||| c == '_'
}

/// Relies on url::Url::parse, and on the conversion of a `Url` into its
/// serialization.
#[verifier::external_body]
pub(crate) fn parse_url(text: &str) -> (r: Result<String, url::ParseError>)
    ensures
        match r {
            Ok(s) => url_serialization(text@) == Some(s@),
            Err(_) => url_serialization(text@) is None,
        },
{
    url::Url::parse(text).map(String::from)
}

/// Relies on url::form_urlencoded::byte_serialize, which leaves ASCII letters,
/// digits and `*-._` unchanged.
#[verifier::external_body]
fn form_encode(text: &str) -> (r: String)
    ensures
        r@ == form_encoded(text@),
        (forall|i: int| 0 <= i < text@.len() ==> form_unreserved(#[trigger] text@[i])) ==> r@
            == text@,
{
    url::form_urlencoded::byte_serialize(text.as_bytes()).collect()
}

/// Relies on the `Display` of serde_json::Value::String, which writes the text
/// as a JSON string literal.
#[verifier::external_body]
pub(crate) fn json_quote(text: &str) -> (r: String)
    ensures
        r@ == json_string(text@),
{
    serde_json::Value::String(text.to_string()).to_string()
}

/// The value of the authorization header for a user id, a device and a token.
/// Before authentication the user id and the token are empty.
pub open spec fn emby_header(
    user_id: Seq<char>,
    device_name: Seq<char>,
    device_id: Seq<char>,
    token: Seq<char>,
) -> Seq<char> {
    "Emby UserId=\""@ + user_id + "\", Client=\"jellyfin-rs\", Device=\""@ + device_name
        + "\", DeviceId=\""@ + device_id + "\", Version=1, Token=\""@ + token + "\""@
}

/// The authorization header for a user id and a token, sent from a device.
pub fn emby_header_text(user_id: &str, device: &DeviceIdentity, token: &str) -> (r: String)
    ensures
        r@ == emby_header(user_id@, device.name@, device.id@, token@),
{
    let mut out = String::from_str("Emby UserId=\"");
    out.append(user_id);
    out.append("\", Client=\"jellyfin-rs\", Device=\"");
    out.append(device.name.as_str());
    out.append("\", DeviceId=\"");
    out.append(device.id.as_str());
    out.append("\", Version=1, Token=\"");
    out.append(token);
    out.append("\"");
    out
}

/// `{"key":value}`, with the value as a JSON string. The key is written as it
/// is: keys here are plain names.
pub open spec fn json_object1(key: Seq<char>, value: Seq<char>) -> Seq<char> {
    "{\""@ + key + "\":"@ + json_string(value) + "}"@
}

/// `{"key1":value1,"key2":value2}`, with the values as JSON strings.
pub open spec fn json_object2(
    key1: Seq<char>,
    value1: Seq<char>,
    key2: Seq<char>,
    value2: Seq<char>,
) -> Seq<char> {
    "{\""@ + key1 + "\":"@ + json_string(value1) + ",\""@ + key2 + "\":"@ + json_string(value2)
        + "}"@
}

/// A JSON object with one string member.
pub fn json_body1(key: &str, value: &str) -> (r: String)
    ensures
        r@ == json_object1(key@, value@),
{
    let mut out = String::from_str("{\"");
    out.append(key);
    out.append("\":");
    let v = json_quote(value);
    out.append(v.as_str());
    out.append("}");
    out
}

/// A JSON object with two string members, in this order.
pub fn json_body2(key1: &str, value1: &str, key2: &str, value2: &str) -> (r: String)
    ensures
        r@ == json_object2(key1@, value1@, key2@, value2@),
{
    let mut out = String::from_str("{\"");
    out.append(key1);
    out.append("\":");
    let v1 = json_quote(value1);
    out.append(v1.as_str());
    out.append(",\"");
    out.append(key2);
    out.append("\":");
    let v2 = json_quote(value2);
    out.append(v2.as_str());
    out.append("}");
    out
}

/// One `name=value` pair of a query string.
#[derive(Debug, Clone, PartialEq, Eq)]
pub struct QueryParam {
    pub name: String,
    pub value: String,
}

impl View for QueryParam {
    type V = (Seq<char>, Seq<char>);

    open spec fn view(&self) -> (Seq<char>, Seq<char>) {
        (self.name@, self.value@)
    }
}

impl QueryParam {
    pub fn new(name: &str, value: String) -> (r: QueryParam)
        ensures
            r@ == (name@, value@),
    {
        QueryParam { name: String::from_str(name), value }
    }
}

/// The pairs of a list of query parameters.
pub open spec fn query_view(params: Seq<QueryParam>) -> Seq<(Seq<char>, Seq<char>)> {
    params.map_values(|p: QueryParam| p@)
}

/// Whether form encoding leaves every character of a text as it is.
pub open spec fn all_unreserved(text: Seq<char>) -> bool {
    forall|i: int| 0 <= i < text.len() ==> form_unreserved(#[trigger] text[i])
}

/// A query value as it is sent: itself where form encoding changes nothing,
/// its form encoding otherwise.
pub open spec fn form_value(text: Seq<char>) -> Seq<char> {
    if all_unreserved(text) {
        text
    } else {
        form_encoded(text)
    }
}

/// `name=value`, with the value form-encoded.
pub open spec fn pair_text(p: (Seq<char>, Seq<char>)) -> Seq<char> {
    p.0 + seq!['='] + form_value(p.1)
}

/// The pairs joined by `&`, in order.
pub open spec fn query_text(params: Seq<(Seq<char>, Seq<char>)>) -> Seq<char>
    decreases params.len(),
{
    if params.len() == 0 {
        Seq::empty()
    } else if params.len() == 1 {
        pair_text(params[0])
    } else {
        query_text(params.drop_last()) + seq!['&'] + pair_text(params.last())
    }
}

/// What follows the path: nothing without parameters, else `?` and the pairs.
pub open spec fn query_suffix(params: Seq<(Seq<char>, Seq<char>)>) -> Seq<char> {
    if params.len() == 0 {
        Seq::empty()
    } else {
        seq!['?'] + query_text(params)
    }
}

/// The query string of a list of parameters, `?` included.
pub fn query_string(params: &Vec<QueryParam>) -> (r: String)
    ensures
        r@ == query_suffix(query_view(params@)),
{
    let mut out = String::new();
    if params.len() == 0 {
        assert(query_view(params@).len() == 0);
        return out;
    }
    proof {
        reveal_strlit("?");
    }
    out.append("?");
    let mut i: usize = 0;
    while i < params.len()
        invariant
            i <= params@.len(),
            params@.len() > 0,
            out@ == seq!['?'] + query_text(query_view(params@.subrange(0, i as int))),
        decreases params@.len() - i,
    {
        proof {
            reveal_strlit("&");
            reveal_strlit("=");
        }
        let p = &params[i];
        if i > 0 {
            out.append("&");
        }
        out.append(p.name.as_str());
        out.append("=");
        let v = form_encode(p.value.as_str());
        out.append(v.as_str());
        proof {
            assert(v@ == form_value(p.value@));
            let done = query_view(params@.subrange(0, i as int));
            let next = query_view(params@.subrange(0, i + 1));
            assert(next.drop_last() =~= done);
            assert(next.last() == p@);
            if i == 0 {
                assert(done.len() == 0);
                assert(out@ =~= seq!['?'] + pair_text(p@));
            } else {
                assert(out@ =~= seq!['?'] + (query_text(done) + seq!['&'] + pair_text(p@)));
            }
        }
        i = i + 1;
    }
    assert(params@.subrange(0, params@.len() as int) =~= params@);
    out
}

/// The HTTP method of a request.
#[derive(Debug, Clone, Copy, PartialEq, Eq, Structural)]
pub enum HttpMethod {
    Get,
    Post,
    Delete,
}

/// Whether a request carries the stored user's token or goes out anonymously.
#[derive(Debug, Clone, Copy, PartialEq, Eq, Structural)]
pub enum Access {
    Token,
    Anonymous,
}

/// A request ready to be sent: method, absolute URL with its query, the value
/// of the authorization header and the JSON body, if any.
#[derive(Debug, Clone, PartialEq, Eq)]
pub struct ApiRequest {
    pub method: HttpMethod,
    pub url: String,
    pub auth_header: String,
    pub body: Option<String>,
}

/// What a request is, as values.
pub struct RequestView {
    pub method: HttpMethod,
    pub url: Seq<char>,
    pub auth_header: Seq<char>,
    pub body: Option<Seq<char>>,
}

/// The text of an optional text.
pub open spec fn opt_text(o: Option<String>) -> Option<Seq<char>> {
    match o {
        Some(s) => Some(s@),
        None => None,
    }
}

impl View for ApiRequest {
    type V = RequestView;

    open spec fn view(&self) -> RequestView {
        RequestView {
            method: self.method,
            url: self.url@,
            auth_header: self.auth_header@,
            body: opt_text(self.body),
        }
    }
}

/// What a request builder decides, as values: refuse for want of a stored
/// authentication, refuse a URL that does not parse, or send this request.
pub enum Planned {
    Unauthorized,
    BadUrl,
    Ready(RequestView),
}

/// The result of a request builder is what was planned.
pub open spec fn matches_plan(r: &Result<ApiRequest, JellyfinError>, p: Planned) -> bool {
    match p {
        Planned::Unauthorized => *r matches Err(JellyfinError::AuthNotFound),
        Planned::BadUrl => *r matches Err(JellyfinError::UrlParseError(_)),
        Planned::Ready(v) => *r matches Ok(req) && req@ == v,
    }
}

} // verus!
