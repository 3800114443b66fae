use jellyfin::digest::DeviceIdentity;
use jellyfin::err::JellyfinError;
use jellyfin::request::{Access, ApiRequest, HttpMethod, AUTH_HEADER_NAME};
use jellyfin::user::{User, UserAuth};
use jellyfin::JellyfinClient;

const BASE: &str = "https://media.example.com";
const MY_PC_ID: &str = "6316ad5bb6dc8221bc6f4a487b459a11";

fn client() -> JellyfinClient {
    JellyfinClient::with_device(BASE, DeviceIdentity::from_name("My PC")).unwrap()
}

fn context(user_id: &str, token: &str) -> UserAuth {
    UserAuth {
        user: User { id: user_id.to_string(), name: "alice".to_string(), ..Default::default() },
        access_token: token.to_string(),
        server_id: "server-1".to_string(),
        ..Default::default()
    }
}

fn logged_in(user_id: &str, token: &str) -> JellyfinClient {
    let mut c = client();
    c.finish_authentication(Ok(context(user_id, token))).unwrap();
    c
}

fn token_header(user_id: &str, token: &str) -> String {
    format!(
        "Emby UserId=\"{}\", Client=\"jellyfin-rs\", Device=\"My_PC\", DeviceId=\"{}\", Version=1, Token=\"{}\"",
        user_id, MY_PC_ID, token
    )
}

fn ok(r: Result<ApiRequest, JellyfinError>) -> ApiRequest {
    match r {
        Ok(req) => req,
        Err(e) => panic!("request refused: {}", e.to_string()),
    }
}

#[test]
fn header_name_is_emby_authorization() {
    assert_eq!(AUTH_HEADER_NAME, "X-Emby-Authorization");
}

#[test]
fn new_client_has_no_auth_context() {
    let c = client();
    assert_eq!(c.base_url_text(), "https://media.example.com/");
    assert!(c.auth_context().is_none());
    assert_eq!(c.device_identity().name, "My_PC");
    let local = JellyfinClient::new(BASE).unwrap();
    assert!(local.auth_context().is_none());
}

#[test]
fn invalid_base_url_is_refused() {
    assert!(matches!(JellyfinClient::new("not a url"), Err(JellyfinError::UrlParseError(_))));
    assert!(matches!(
        JellyfinClient::with_device("media.example.com", DeviceIdentity::from_name("x")),
        Err(JellyfinError::UrlParseError(_))
    ));
}

#[test]
fn token_endpoints_without_context_are_unauthorized() {
    let c = client();
    let results = vec![
        c.get_users(false, false),
        c.get_user_by_id("u1"),
        c.delete_user("u1"),
        c.update_user("u1", "{}".to_string()),
        c.update_user_conf("u1", "{}".to_string()),
        c.update_user_password("u1", "pw"),
        c.update_user_policy("u1", "{}".to_string()),
        c.get_user_by_auth(),
        c.create_user("bob", "pw"),
        c.get_user_item("u1", "i1"),
        c.get_activity_log_entries(None, Some(10), None, false),
    ];
    for r in results {
        assert!(matches!(r, Err(JellyfinError::AuthNotFound)));
    }
    assert!(matches!(c.auth_header(Access::Token), Err(JellyfinError::AuthNotFound)));
}

#[test]
fn anonymous_endpoints_need_no_context() {
    let c = client();
    let anonymous = token_header("", "");
    let by_name = ok(c.auth_user_name("alice", "secret"));
    assert_eq!(by_name.method, HttpMethod::Post);
    assert_eq!(by_name.url, "https://media.example.com/Users/AuthenticateByName");
    assert_eq!(by_name.auth_header, anonymous);
    assert_eq!(by_name.body, Some("{\"Username\":\"alice\",\"Pw\":\"secret\"}".to_string()));

    let public = ok(c.get_public_user_list());
    assert_eq!(public.method, HttpMethod::Get);
    assert_eq!(public.url, "https://media.example.com/Users/Public");
    assert_eq!(public.auth_header, anonymous);
    assert_eq!(public.body, None);

    let forgot = ok(c.user_forgot_password("alice"));
    assert_eq!(forgot.url, "https://media.example.com/Users/ForgotPassword");
    assert_eq!(forgot.body, Some("{\"EnteredUsername\":\"alice\"}".to_string()));

    let pin = ok(c.user_redeem_forgot_password_pin("1234"));
    assert_eq!(pin.url, "https://media.example.com/Users/ForgotPassword/Pin");
    assert_eq!(pin.body, Some("{\"Pin\":\"1234\"}".to_string()));
}

#[test]
fn authenticate_by_id_sends_plain_and_sha1_password() {
    let c = client();
    let r = ok(c.auth_user_std("u1", "secret"));
    assert_eq!(r.method, HttpMethod::Post);
    assert_eq!(
        r.url,
        "https://media.example.com/Users/u1/Authenticate?pw=secret&password=e5e9fa1ba31ecd1ae84f75caaa474f3a663f05f4"
    );
    assert_eq!(r.auth_header, token_header("", ""));
    assert_eq!(r.body, None);
    let spaced = ok(c.auth_user_std("u1", "hunter 2"));
    assert_eq!(
        spaced.url,
        "https://media.example.com/Users/u1/Authenticate?pw=hunter+2&password=bc6966da45eff58789841efd7b07db41fe1658c9"
    );
}

#[test]
fn login_by_name_then_current_user_carries_token() {
    let mut c = JellyfinClient::with_device(BASE, DeviceIdentity::from_name("My PC")).unwrap();
    let login = ok(c.auth_user_name("alice", "secret"));
    assert_eq!(login.url, "https://media.example.com/Users/AuthenticateByName");
    c.finish_authentication(Ok(context("alice-id", "token-from-mock"))).unwrap();
    let me = ok(c.get_user_by_auth());
    assert_eq!(me.method, HttpMethod::Get);
    assert_eq!(me.url, "https://media.example.com/Users/Me");
    assert_eq!(me.auth_header, token_header("alice-id", "token-from-mock"));
    assert_eq!(c.auth_context().as_ref().unwrap().user.id, "alice-id");
}

#[test]
fn reauthentication_replaces_whole_context() {
    let mut c = logged_in("old-id", "old-token");
    c.finish_authentication(Ok(context("new-id", "new-token"))).unwrap();
    assert_eq!(c.auth_header(Access::Token).unwrap(), token_header("new-id", "new-token"));
    assert_eq!(ok(c.get_users(true, false)).auth_header, token_header("new-id", "new-token"));
    assert_eq!(c.auth_context().as_ref().unwrap().access_token, "new-token");
}

#[test]
fn failed_authentication_keeps_previous_context() {
    let mut c = logged_in("old-id", "old-token");
    let before = c.auth_context().clone();
    let r = c.finish_authentication(Err(JellyfinError::NetworkError("connection refused".to_string())));
    assert!(matches!(r, Err(JellyfinError::NetworkError(ref m)) if m == "connection refused"));
    assert_eq!(c.auth_context(), &before);
    assert_eq!(c.auth_header(Access::Token).unwrap(), token_header("old-id", "old-token"));
    let r = c.finish_authentication(Err(JellyfinError::DecodeError("bad json".to_string())));
    assert!(matches!(r, Err(JellyfinError::DecodeError(_))));
    assert_eq!(c.auth_context(), &before);
}

#[test]
fn failed_first_authentication_stays_unauthenticated() {
    let mut c = client();
    assert!(c.finish_authentication(Err(JellyfinError::NetworkError("timeout".to_string()))).is_err());
    assert!(c.auth_context().is_none());
    assert!(matches!(c.get_user_by_auth(), Err(JellyfinError::AuthNotFound)));
}

#[test]
fn clearing_context_makes_calls_unauthorized() {
    let mut c = logged_in("u1", "t1");
    c.clear_auth();
    assert!(c.auth_context().is_none());
    assert!(matches!(c.get_user_by_auth(), Err(JellyfinError::AuthNotFound)));
    assert_eq!(c.base_url_text(), "https://media.example.com/");
}

#[test]
fn activity_log_leaves_out_omitted_filters() {
    let c = logged_in("u1", "t1");
    let r = ok(c.get_activity_log_entries(None, Some(10), None, false));
    assert_eq!(r.url, "https://media.example.com/System/ActivityLog/Entries?limit=10&hasUserId=false");
    assert!(!r.url.contains("startIndex"));
    assert!(!r.url.contains("minDate"));
    assert!(!r.url.contains("=&"));
}

#[test]
fn activity_log_with_every_filter() {
    let c = logged_in("u1", "t1");
    let r = ok(c.get_activity_log_entries(Some(20), Some(10), Some("2024-01-01T00:00:00Z".to_string()), true));
    assert_eq!(
        r.url,
        "https://media.example.com/System/ActivityLog/Entries?startIndex=20&limit=10&minDate=2024-01-01T00%3A00%3A00Z&hasUserId=true"
    );
    assert_eq!(r.auth_header, token_header("u1", "t1"));
}

#[test]
fn user_endpoints_build_their_paths() {
    let c = logged_in("u1", "t1");
    let users = ok(c.get_users(true, false));
    assert_eq!(users.url, "https://media.example.com/Users?is_hidden=true&is_disabled=false");
    let one = ok(c.get_user_by_id("abc"));
    assert_eq!((one.method, one.url.as_str()), (HttpMethod::Get, "https://media.example.com/Users/abc"));
    let del = ok(c.delete_user("abc"));
    assert_eq!((del.method, del.url.as_str()), (HttpMethod::Delete, "https://media.example.com/Users/abc"));
    let upd = ok(c.update_user("abc", "{\"Name\":\"x\"}".to_string()));
    assert_eq!(upd.method, HttpMethod::Post);
    assert_eq!(upd.body, Some("{\"Name\":\"x\"}".to_string()));
    let conf = ok(c.update_user_conf("abc", "{}".to_string()));
    assert_eq!(conf.url, "https://media.example.com/Users/abc/Configuration");
    let policy = ok(c.update_user_policy("abc", "{}".to_string()));
    assert_eq!(policy.url, "https://media.example.com/Users/abc/Policy");
    let pw = ok(c.update_user_password("abc", "n\"ew"));
    assert_eq!(pw.url, "https://media.example.com/Users/abc/Password");
    assert_eq!(pw.body, Some("{\"NewPw\":\"n\\\"ew\"}".to_string()));
    let created = ok(c.create_user("bob", "pw"));
    assert_eq!(created.url, "https://media.example.com/Users/New");
    assert_eq!(created.body, Some("{\"Name\":\"bob\",\"Password\":\"pw\"}".to_string()));
    let item = ok(c.get_user_item("u1", "i9"));
    assert_eq!(item.url, "https://media.example.com/Users/u1/Items/i9");
    assert_eq!(item.auth_header, token_header("u1", "t1"));
}

#[test]
fn user_auth_header_uses_its_own_token() {
    let a = context("u1", "t1");
    let h = a.to_emby_header();
    assert!(h.starts_with("Emby UserId=\"u1\", Client=\"jellyfin-rs\", Device=\""));
    assert!(h.ends_with("\", Version=1, Token=\"t1\""));
}

#[test]
fn url_errors_convert_into_client_errors() {
    let e: JellyfinError = url::ParseError::EmptyHost.into();
    assert_eq!(e, JellyfinError::UrlParseError(url::ParseError::EmptyHost));
    assert_eq!(e.to_string(), url::ParseError::EmptyHost.to_string());
}

#[test]
fn error_messages() {
    assert_eq!(JellyfinError::AuthNotFound.to_string(), "Unauthorized.");
    assert_eq!(JellyfinError::NetworkError("down".to_string()).to_string(), "down");
    assert_eq!(JellyfinError::DecodeError("bad".to_string()).to_string(), "bad");
    let e = JellyfinClient::new("not a url").unwrap_err();
    assert_eq!(e.to_string(), "relative URL without a base");
}
