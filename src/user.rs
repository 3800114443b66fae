use vstd::prelude::*;
use vstd::string::*;

use crate::digest::{sha1_hex, sha1_of, DeviceIdentity};
use crate::encode::{bool_text, bool_value_text, hex_of};
use crate::err::JellyfinError;
use crate::request::{
    emby_header,
    emby_header_text,
    json_body1,
    json_body2,
    json_object1,
    json_object2,
    matches_plan,
    query_view,
    Access,
    ApiRequest,
    HttpMethod,
    QueryParam,
};
use crate::session::SessionInfo;
use crate::JellyfinClient;

verus! {

/// A user account and its settings.
#[derive(Default, Debug, Clone, PartialEq)]
pub struct User {
    pub name: String,
    pub server_id: String,
    pub server_name: Option<String>,
    pub id: String,
    pub primary_image_tag: Option<String>,
    pub has_password: bool,
    pub has_configured_password: bool,
    pub has_configured_easy_password: bool,
    pub enable_auto_login: bool,
    pub last_login_date: Option<String>,
    pub last_activity_date: Option<String>,
    pub configuration: UserConfiguration,
    pub policy: UserPolicy,
    pub primary_image_aspect_ratio: Option<i64>,
}

/// A media stream as listed under a user's item; its fields are not kept.
#[derive(Default, Debug, Clone, PartialEq)]
pub struct MediaStream {
}

/// One playable source of an item as seen by a user.
#[derive(Default, Debug, Clone, PartialEq)]
pub struct MediaSource {
    pub protocol: String,
    pub id: String,
    pub path: String,
    pub encoder_path: Option<String>,
    pub encoder_protocol: Option<String>,
    pub type_field: String,
    pub container: String,
    pub size: i64,
    pub name: String,
    pub is_remote: bool,
    pub etag: Option<String>,
    pub run_time_ticks: i64,
    pub read_at_native_framerate: bool,
    pub ignore_dts: bool,
    pub ignore_index: bool,
    pub gen_pts_input: bool,
    pub supports_transcoding: bool,
    pub supports_direct_stream: bool,
    pub supports_direct_play: bool,
    pub is_infinite_stream: bool,
    pub requires_opening: bool,
    pub open_token: Option<String>,
    pub requires_closing: bool,
    pub live_stream_id: Option<String>,
    pub buffer_ms: Option<i64>,
    pub requires_looping: bool,
    pub supports_probing: bool,
    pub video_type: String,
    pub iso_type: Option<String>,
    pub video_3d_format: Option<String>,
    pub media_streams: Vec<MediaStream>,
    pub formats: Vec<String>,
    pub bitrate: i64,
    pub timestamp: Option<String>,
    pub transcoding_url: Option<String>,
    pub transcoding_sub_protocol: Option<String>,
    pub transcoding_container: Option<String>,
    pub analyze_duration_ms: Option<i64>,
    pub default_audio_stream_index: i64,
    pub default_subtitle_stream_index: i64,
}

/// An item as seen by one user.
#[derive(Default, Debug, Clone, PartialEq)]
pub struct UserItem {
    pub name: String,
    pub original_title: Option<String>,
    pub server_id: String,
    pub id: String,
    pub etag: String,
    pub source_type: Option<String>,
    pub playlist_item_id: Option<String>,
    pub date_created: String,
    pub date_last_media_added: Option<String>,
    pub extra_type: Option<String>,
    pub can_delete: bool,
    pub can_download: bool,
    pub has_subtitles: bool,
    pub preferred_metadata_language: Option<String>,
    pub preferred_metadata_country_code: Option<String>,
    pub supports_sync: Option<bool>,
    pub container: String,
    pub sort_name: String,
    pub forced_sort_name: Option<String>,
    pub video_3d_format: Option<String>,
    pub premiere_date: Option<String>,
    pub media_sources: Vec<MediaSource>,
    pub critic_rating: Option<i64>,
    pub path: String,
    pub is_hd: Option<bool>,
    pub is_folder: bool,
    pub parent_id: String,
    pub type_field: String,
}

/// A user's playback and display preferences.
#[derive(Default, Debug, Clone, PartialEq)]
pub struct UserConfiguration {
    pub audio_language_preference: Option<String>,
    pub play_default_audio_track: bool,
    pub subtitle_language_preference: String,
    pub display_missing_episodes: bool,
    pub grouped_folders: Vec<String>,
    pub subtitle_mode: String,
    pub display_collections_view: bool,
    pub enable_local_password: bool,
    pub ordered_views: Vec<String>,
    pub latest_items_excludes: Vec<String>,
    pub my_media_excludes: Vec<String>,
    pub hide_played_in_latest: bool,
    pub remember_audio_selections: bool,
    pub remember_subtitle_selections: bool,
    pub enable_next_episode_auto_play: bool,
}

/// What a user may do on the server.
#[derive(Default, Debug, Clone, PartialEq)]
pub struct UserPolicy {
    pub is_administrator: bool,
    pub is_hidden: bool,
    pub is_disabled: bool,
    pub max_parental_rating: Option<i64>,
    pub blocked_tags: Vec<String>,
    pub enable_user_preference_access: bool,
    pub access_schedules: Vec<UserAccessSchedule>,
    pub block_unrated_items: Vec<String>,
    pub enable_remote_control_of_other_users: bool,
    pub enable_shared_device_control: bool,
    pub enable_remote_access: bool,
    pub enable_live_tv_management: bool,
    pub enable_live_tv_access: bool,
    pub enable_media_playback: bool,
    pub enable_audio_playback_transcoding: bool,
    pub enable_video_playback_transcoding: bool,
    pub enable_playback_remuxing: bool,
    pub force_remote_source_transcoding: bool,
    pub enable_content_deletion: bool,
    pub enable_content_deletion_from_folders: Vec<String>,
    pub enable_content_downloading: bool,
    pub enable_sync_transcoding: bool,
    pub enable_media_conversion: bool,
    pub enabled_devices: Vec<String>,
    pub enable_all_devices: bool,
    pub enabled_channels: Vec<String>,
    pub enable_all_channels: bool,
    pub enabled_folders: Vec<String>,
    pub enable_all_folders: bool,
    pub invalid_login_attempt_count: i64,
    pub login_attempts_before_lockout: i64,
    pub max_active_sessions: i64,
    pub enable_public_sharing: bool,
    pub blocked_media_folders: Vec<String>,
    pub blocked_channels: Vec<String>,
    pub remote_client_bitrate_limit: i64,
    pub authentication_provider_id: String,
    pub password_reset_provider_id: String,
    pub sync_play_access: String,
}

/// A time window in which a user may use the server.
#[derive(Default, Debug, Clone, PartialEq)]
pub struct UserAccessSchedule {
    pub user_id: String,
    pub day_of_week: String,
    pub start_hour: i64,
    pub end_hour: i64,
}

/// What a successful authentication returns, and what the client keeps as its auth context: the user, the session and the access token.
#[derive(Default, Debug, Clone, PartialEq)]
pub struct UserAuth {
    pub user: User,
    pub session_info: SessionInfo,
    pub access_token: String,
    pub server_id: String,
}

impl UserAuth {
    /// The authorization header for this user's token, sent from the machine
    /// this runs on. The device name is read anew at each call.
    pub fn to_emby_header(&self) -> (r: String)
        ensures
            exists|d: DeviceIdentity|
                d.wf() && r@ == emby_header(self.user.id@, d.name@, d.id@, self.access_token@),
    {
        let d = DeviceIdentity::local();
        let r = emby_header_text(self.user.id.as_str(), &d, self.access_token.as_str());
        assert(d.wf() && r@ == emby_header(self.user.id@, d.name@, d.id@, self.access_token@));
        r
    }
}


impl JellyfinClient {
    /// `GET Users`: the users the stored user may see, filtered on whether
    /// they are hidden and whether they are disabled.
    pub fn get_users(&self, is_hidden: bool, is_disabled: bool) -> (r: Result<ApiRequest, JellyfinError>)
        ensures
            matches_plan(
                &r,
                self.plan(
                    HttpMethod::Get,
                    "Users"@,
                    seq![("is_hidden"@, bool_text(is_hidden)), ("is_disabled"@, bool_text(is_disabled))],
                    None,
                    Access::Token,
                ),
            ),
    {
        let query = vec![
            QueryParam::new("is_hidden", bool_value_text(is_hidden)),
            QueryParam::new("is_disabled", bool_value_text(is_disabled)),
        ];
        assert(query_view(query@) =~= seq![
            ("is_hidden"@, bool_text(is_hidden)),
            ("is_disabled"@, bool_text(is_disabled)),
        ]);
        self.build_request(HttpMethod::Get, "Users", &query, None, Access::Token)
    }

    /// `GET Users/{id}`: one user.
    pub fn get_user_by_id(&self, id: &str) -> (r: Result<ApiRequest, JellyfinError>)
        ensures
            matches_plan(
                &r,
                self.plan(HttpMethod::Get, "Users/"@ + id@, Seq::empty(), None, Access::Token),
            ),
    {
        let path = user_path(id);
        self.build_plain_request(HttpMethod::Get, path.as_str(), None, Access::Token)
    }

    /// `DELETE Users/{id}`: deletes a user.
    pub fn delete_user(&self, id: &str) -> (r: Result<ApiRequest, JellyfinError>)
        ensures
            matches_plan(
                &r,
                self.plan(HttpMethod::Delete, "Users/"@ + id@, Seq::empty(), None, Access::Token),
            ),
    {
        let path = user_path(id);
        self.build_plain_request(HttpMethod::Delete, path.as_str(), None, Access::Token)
    }

    /// `POST Users/{id}`: replaces a user's record with `new_info_json`, the
    /// JSON form of a `User`.
    pub fn update_user(&self, id: &str, new_info_json: String) -> (r: Result<ApiRequest, JellyfinError>)
        ensures
            matches_plan(
                &r,
                self.plan(
                    HttpMethod::Post,
                    "Users/"@ + id@,
                    Seq::empty(),
                    Some(new_info_json@),
                    Access::Token,
                ),
            ),
    {
        let path = user_path(id);
        self.build_plain_request(HttpMethod::Post, path.as_str(), Some(new_info_json), Access::Token)
    }

    /// `POST Users/{id}/Authenticate`: authenticates a user by id. The password
    /// goes out both as it is and as the hexadecimal SHA-1 digest of it, for
    /// servers of either scheme. No token is needed.
    pub fn auth_user_std(&self, id: &str, password: &str) -> (r: Result<ApiRequest, JellyfinError>)
        ensures
            matches_plan(
                &r,
                self.plan(
                    HttpMethod::Post,
                    "Users/"@ + id@ + "/Authenticate"@,
                    seq![("pw"@, password@), ("password"@, hex_of(sha1_of(password@)))],
                    None,
                    Access::Anonymous,
                ),
            ),
    {
        let path = path_under("Users/", id, "/Authenticate");
        let query = vec![
            QueryParam::new("pw", String::from_str(password)),
            QueryParam::new("password", sha1_hex(password)),
        ];
        assert(query_view(query@) =~= seq![
            ("pw"@, password@),
            ("password"@, hex_of(sha1_of(password@))),
        ]);
        self.build_request(HttpMethod::Post, path.as_str(), &query, None, Access::Anonymous)
    }

    /// `POST Users/{id}/Configuration`: replaces a user's configuration with
    /// `new_conf_json`, the JSON form of a `UserConfiguration`.
    pub fn update_user_conf(&self, id: &str, new_conf_json: String) -> (r: Result<ApiRequest, JellyfinError>)
        ensures
            matches_plan(
                &r,
                self.plan(
                    HttpMethod::Post,
                    "Users/"@ + id@ + "/Configuration"@,
                    Seq::empty(),
                    Some(new_conf_json@),
                    Access::Token,
                ),
            ),
    {
        let path = path_under("Users/", id, "/Configuration");
        self.build_plain_request(HttpMethod::Post, path.as_str(), Some(new_conf_json), Access::Token)
    }

    /// `POST Users/{id}/Password`: sets a user's password.
    pub fn update_user_password(&self, id: &str, new_password: &str) -> (r: Result<ApiRequest, JellyfinError>)
        ensures
            matches_plan(
                &r,
                self.plan(
                    HttpMethod::Post,
                    "Users/"@ + id@ + "/Password"@,
                    Seq::empty(),
                    Some(json_object1("NewPw"@, new_password@)),
                    Access::Token,
                ),
            ),
    {
        let path = path_under("Users/", id, "/Password");
        let body = json_body1("NewPw", new_password);
        self.build_plain_request(HttpMethod::Post, path.as_str(), Some(body), Access::Token)
    }

    /// `POST Users/{id}/Policy`: replaces a user's policy with
    /// `new_policy_json`, the JSON form of a `UserPolicy`.
    pub fn update_user_policy(&self, id: &str, new_policy_json: String) -> (r: Result<ApiRequest, JellyfinError>)
        ensures
            matches_plan(
                &r,
                self.plan(
                    HttpMethod::Post,
                    "Users/"@ + id@ + "/Policy"@,
                    Seq::empty(),
                    Some(new_policy_json@),
                    Access::Token,
                ),
            ),
    {
        let path = path_under("Users/", id, "/Policy");
        self.build_plain_request(HttpMethod::Post, path.as_str(), Some(new_policy_json), Access::Token)
    }

    /// `POST Users/AuthenticateByName`: authenticates a user by name. No token
    /// is needed.
    pub fn auth_user_name(&self, username: &str, password: &str) -> (r: Result<ApiRequest, JellyfinError>)
        ensures
            matches_plan(
                &r,
                self.plan(
                    HttpMethod::Post,
                    "Users/AuthenticateByName"@,
                    Seq::empty(),
                    Some(json_object2("Username"@, username@, "Pw"@, password@)),
                    Access::Anonymous,
                ),
            ),
    {
        let body = json_body2("Username", username, "Pw", password);
        self.build_plain_request(HttpMethod::Post, "Users/AuthenticateByName", Some(body), Access::Anonymous)
    }

    /// `POST Users/ForgotPassword`: starts a password reset. No token is needed.
    pub fn user_forgot_password(&self, username: &str) -> (r: Result<ApiRequest, JellyfinError>)
        ensures
            matches_plan(
                &r,
                self.plan(
                    HttpMethod::Post,
                    "Users/ForgotPassword"@,
                    Seq::empty(),
                    Some(json_object1("EnteredUsername"@, username@)),
                    Access::Anonymous,
                ),
            ),
    {
        let body = json_body1("EnteredUsername", username);
        self.build_plain_request(HttpMethod::Post, "Users/ForgotPassword", Some(body), Access::Anonymous)
    }

    /// `POST Users/ForgotPassword/Pin`: redeems a password reset pin. No token
    /// is needed.
    pub fn user_redeem_forgot_password_pin(&self, pin: &str) -> (r: Result<ApiRequest, JellyfinError>)
        ensures
            matches_plan(
                &r,
                self.plan(
                    HttpMethod::Post,
                    "Users/ForgotPassword/Pin"@,
                    Seq::empty(),
                    Some(json_object1("Pin"@, pin@)),
                    Access::Anonymous,
                ),
            ),
    {
        let body = json_body1("Pin", pin);
        self.build_plain_request(HttpMethod::Post, "Users/ForgotPassword/Pin", Some(body), Access::Anonymous)
    }

    /// `GET Users/Me`: the stored user.
    pub fn get_user_by_auth(&self) -> (r: Result<ApiRequest, JellyfinError>)
        ensures
            matches_plan(
                &r,
                self.plan(HttpMethod::Get, "Users/Me"@, Seq::empty(), None, Access::Token),
            ),
    {
        self.build_plain_request(HttpMethod::Get, "Users/Me", None, Access::Token)
    }

    /// `POST Users/New`: creates a user with a name and a password.
    pub fn create_user(&self, username: &str, password: &str) -> (r: Result<ApiRequest, JellyfinError>)
        ensures
            matches_plan(
                &r,
                self.plan(
                    HttpMethod::Post,
                    "Users/New"@,
                    Seq::empty(),
                    Some(json_object2("Name"@, username@, "Password"@, password@)),
                    Access::Token,
                ),
            ),
    {
        let body = json_body2("Name", username, "Password", password);
        self.build_plain_request(HttpMethod::Post, "Users/New", Some(body), Access::Token)
    }

    /// `GET Users/Public`: the users listed on the login screen. No token is
    /// needed.
    pub fn get_public_user_list(&self) -> (r: Result<ApiRequest, JellyfinError>)
        ensures
            matches_plan(
                &r,
                self.plan(HttpMethod::Get, "Users/Public"@, Seq::empty(), None, Access::Anonymous),
            ),
    {
        self.build_plain_request(HttpMethod::Get, "Users/Public", None, Access::Anonymous)
    }

    /// `GET Users/{user_id}/Items/{item_id}`: an item as one user sees it.
    pub fn get_user_item(&self, user_id: &str, item_id: &str) -> (r: Result<ApiRequest, JellyfinError>)
        ensures
            matches_plan(
                &r,
                self.plan(
                    HttpMethod::Get,
                    "Users/"@ + user_id@ + "/Items/"@ + item_id@,
                    Seq::empty(),
                    None,
                    Access::Token,
                ),
            ),
    {
        let mut path = path_under("Users/", user_id, "/Items/");
        path.append(item_id);
        self.build_plain_request(HttpMethod::Get, path.as_str(), None, Access::Token)
    }
}

/// `Users/{id}`.
fn user_path(id: &str) -> (r: String)
    ensures
        r@ == "Users/"@ + id@,
{
    let mut path = String::from_str("Users/");
    path.append(id);
    path
}

/// `prefix`, then `id`, then `suffix`.
fn path_under(prefix: &str, id: &str, suffix: &str) -> (r: String)
    ensures
        r@ == prefix@ + id@ + suffix@,
{
    let mut path = String::from_str(prefix);
    path.append(id);
    path.append(suffix);
    path
}

} // verus!
