use vstd::prelude::*;
use vstd::string::*;

pub mod activity;
pub mod digest;
pub mod encode;
pub mod err;
pub mod items;
pub mod request;
pub mod session;
pub mod user;

use crate::digest::DeviceIdentity;
use crate::err::JellyfinError;
use crate::request::{
    emby_header,
    emby_header_text,
    opt_text,
    parse_url,
    query_string,
    query_suffix,
    query_view,
    url_serialization,
    Access,
    ApiRequest,
    HttpMethod,
    Planned,
    QueryParam,
    RequestView,
};
use crate::user::UserAuth;

verus! {

/// A client of one media server: the server's base URL, this device's
/// identity, and the auth context of the last successful authentication.
///
/// The client sends nothing itself. Each endpoint method decides the request
/// to send, or refuses; the caller sends it, decodes the response, and hands
/// the outcome of an authentication back to `finish_authentication`.
#[derive(Debug, Clone)]
pub struct JellyfinClient {
    url: String,
    device: DeviceIdentity,
    auth: Option<UserAuth>,
}

impl JellyfinClient {
    /// The serialization of the base URL, fixed at construction.
    pub closed spec fn base_url(&self) -> Seq<char> {
        self.url@
    }

    /// The identity this client sends in its headers, fixed at construction.
    pub closed spec fn device(&self) -> DeviceIdentity {
        self.device
    }

    /// The stored auth context, if an authentication succeeded.
    pub closed spec fn auth(&self) -> Option<UserAuth> {
        self.auth
    }

    /// The authorization header that a request with this access carries, or
    /// `None` where it needs a token and none is stored.
    pub open spec fn header_for(&self, access: Access) -> Option<Seq<char>> {
        match access {
            Access::Token => match self.auth() {
                Some(a) => Some(
                    emby_header(
                        a.user.id@,
                        self.device().name@,
                        self.device().id@,
                        a.access_token@,
                    ),
                ),
                None => None,
            },
            Access::Anonymous => Some(
                emby_header(Seq::empty(), self.device().name@, self.device().id@, Seq::empty()),
            ),
        }
    }

    /// The request for a path below the base URL, with its query, body and
    /// access. A token request with no stored context is refused before
    /// anything else is looked at.
    pub open spec fn plan(
        &self,
        method: HttpMethod,
        path: Seq<char>,
        query: Seq<(Seq<char>, Seq<char>)>,
        body: Option<Seq<char>>,
        access: Access,
    ) -> Planned {
        match self.header_for(access) {
            None => Planned::Unauthorized,
            Some(header) => match url_serialization(self.base_url() + path + query_suffix(query)) {
                None => Planned::BadUrl,
                Some(url) => Planned::Ready(RequestView { method, url, auth_header: header, body }),
            },
        }
    }

    /// A client of the server at `url` that names itself with `device`.
    pub fn with_device(url: &str, device: DeviceIdentity) -> (r: Result<
        JellyfinClient,
        JellyfinError,
    >)
        ensures
            match r {
                Ok(c) => {
                    &&& url_serialization(url@) == Some(c.base_url())
                    &&& c.device() == device
                    &&& c.auth() is None
                },
                Err(e) => url_serialization(url@) is None && e is UrlParseError,
            },
    {
        match parse_url(url) {
            Ok(u) => Ok(JellyfinClient { url: u, device, auth: None }),
            Err(e) => Err(JellyfinError::UrlParseError(e)),
        }
    }

    /// A client of the server at `url`, without auth context, that names
    /// itself after the machine this runs on.
    pub fn new(url: &str) -> (r: Result<JellyfinClient, JellyfinError>)
        ensures
            match r {
                Ok(c) => {
                    &&& url_serialization(url@) == Some(c.base_url())
                    &&& c.device().wf()
                    &&& c.auth() is None
                },
                Err(e) => url_serialization(url@) is None && e is UrlParseError,
            },
    {
        JellyfinClient::with_device(url, DeviceIdentity::local())
    }

    /// The serialization of the base URL.
    pub fn base_url_text(&self) -> (r: &str)
        ensures
            r@ == self.base_url(),
    {
        self.url.as_str()
    }

    /// The identity this client sends.
    pub fn device_identity(&self) -> (r: &DeviceIdentity)
        ensures
            *r == self.device(),
    {
        &self.device
    }

    /// The stored auth context.
    pub fn auth_context(&self) -> (r: &Option<UserAuth>)
        ensures
            *r == self.auth(),
    {
        &self.auth
    }

    /// Takes in the outcome of an authentication call. A success replaces the
    /// whole auth context with the one received; a failure leaves the client
    /// as it was and is handed back.
    pub fn finish_authentication(&mut self, outcome: Result<UserAuth, JellyfinError>) -> (r: Result<
        (),
        JellyfinError,
    >)
        ensures
            match outcome {
                Ok(a) => {
                    &&& r is Ok
                    &&& final(self).auth() == Some(a)
                    &&& final(self).base_url() == old(self).base_url()
                    &&& final(self).device() == old(self).device()
                },
                Err(e) => r == Err::<(), JellyfinError>(e) && *final(self) == *old(self),
            },
    {
        match outcome {
            Ok(a) => {
                self.auth = Some(a);
                Ok(())
            },
            Err(e) => Err(e),
        }
    }

    /// Forgets the auth context.
    pub fn clear_auth(&mut self)
        ensures
            final(self).auth() is None,
            final(self).base_url() == old(self).base_url(),
            final(self).device() == old(self).device(),
    {
        self.auth = None;
    }

    /// The authorization header for this access, or `AuthNotFound` where it
    /// needs a token and none is stored.
    pub fn auth_header(&self, access: Access) -> (r: Result<String, JellyfinError>)
        ensures
            match self.header_for(access) {
                Some(h) => r matches Ok(s) && s@ == h,
                None => r matches Err(JellyfinError::AuthNotFound),
            },
    {
        match access {
            Access::Token => match &self.auth {
                Some(a) => Ok(emby_header_text(a.user.id.as_str(), &self.device, a.access_token.as_str())),
                None => Err(JellyfinError::AuthNotFound),
            },
            Access::Anonymous => {
                proof {
                    reveal_strlit("");
                }
                Ok(emby_header_text("", &self.device, ""))
            },
        }
    }

    /// The request for `path` below the base URL, without query.
    pub(crate) fn build_plain_request(
        &self,
        method: HttpMethod,
        path: &str,
        body: Option<String>,
        access: Access,
    ) -> (r: Result<ApiRequest, JellyfinError>)
        ensures
            crate::request::matches_plan(
                &r,
                self.plan(method, path@, Seq::empty(), opt_text(body), access),
            ),
    {
        let query: Vec<QueryParam> = Vec::new();
        assert(query_view(query@) =~= Seq::empty());
        self.build_request(method, path, &query, body, access)
    }

    /// The request for `path` below the base URL with the given query, body
    /// and access.
    pub fn build_request(
        &self,
        method: HttpMethod,
        path: &str,
        query: &Vec<QueryParam>,
        body: Option<String>,
        access: Access,
    ) -> (r: Result<ApiRequest, JellyfinError>)
        ensures
            crate::request::matches_plan(
                &r,
                self.plan(method, path@, query_view(query@), opt_text(body), access),
            ),
    {
        let header = match self.auth_header(access) {
            Ok(h) => h,
            Err(e) => return Err(e),
        };
        let mut text = self.url.clone();
        text.append(path);
        let q = query_string(query);
        text.append(q.as_str());
        match parse_url(text.as_str()) {
            Ok(url) => Ok(ApiRequest { method, url, auth_header: header, body }),
            Err(e) => Err(JellyfinError::UrlParseError(e)),
        }
    }
}

/// Without a stored auth context, every request that needs a token is
/// refused with `AuthNotFound`, whatever its method, path, query or body, so
/// nothing is sent.
pub proof fn lemma_token_requests_need_auth(
    c: JellyfinClient,
    method: HttpMethod,
    path: Seq<char>,
    query: Seq<(Seq<char>, Seq<char>)>,
    body: Option<Seq<char>>,
)
    requires
        c.auth() is None,
    ensures
        c.plan(method, path, query, body, Access::Token) == Planned::Unauthorized,
{
}

/// The authorization header is a function of the device name, the user id
/// and the token alone: two well-formed clients that agree on these send the
/// same header.
pub proof fn lemma_header_depends_on_name_user_and_token(
    c1: JellyfinClient,
    c2: JellyfinClient,
)
    requires
        c1.device().wf(),
        c2.device().wf(),
        c1.device().name@ == c2.device().name@,
        c1.auth() matches Some(a1) && c2.auth() matches Some(a2) && a1.user.id@ == a2.user.id@
            && a1.access_token@ == a2.access_token@,
    ensures
        c1.header_for(Access::Token) == c2.header_for(Access::Token),
        c1.header_for(Access::Anonymous) == c2.header_for(Access::Anonymous),
{
}

/// After an authentication succeeded with context `a`, every request that
/// needs a token carries the user id and the token of `a` together, from the
/// same device as before.
pub proof fn lemma_authentication_sets_every_header(
    before: JellyfinClient,
    after: JellyfinClient,
    a: UserAuth,
    method: HttpMethod,
    path: Seq<char>,
    query: Seq<(Seq<char>, Seq<char>)>,
    body: Option<Seq<char>>,
)
    requires
        after.auth() == Some(a),
        after.device() == before.device(),
        after.base_url() == before.base_url(),
    ensures
        after.plan(method, path, query, body, Access::Token) matches Planned::Ready(v) ==> v.auth_header
            == emby_header(a.user.id@, before.device().name@, before.device().id@, a.access_token@),
        !(after.plan(method, path, query, body, Access::Token) is Unauthorized),
{
}

} // verus!
