use vstd::prelude::*;
use vstd::string::StringExecFns;
use crate::changeset::{changeset_members, encode_changeset, StreamChangeset};
use crate::endpoint::{
    host_of, no_host_message, path_url, query_url, server_host, set_path, set_query,
    url_or_config_error,
};
use crate::error::{ApiError, ErrorKind};
use crate::json::{decimal_of, push_decimal, render_object};

verus! {

pub enum Method {
    Get,
    Post,
    Patch,
}

/// What a request carries.
pub enum RequestBody {
    Empty,
    /// A multipart form with one field holding the contents of the file at `path`.
    File { field: String, path: String },
    /// JSON text.
    Json(String),
}

pub enum BodyView {
    Empty,
    File(Seq<char>, Seq<char>),
    Json(Seq<char>),
}

impl View for RequestBody {
    type V = BodyView;

    open spec fn view(&self) -> BodyView {
        match self {
            RequestBody::Empty => BodyView::Empty,
            RequestBody::File { field, path } => BodyView::File(field@, path@),
            RequestBody::Json(j) => BodyView::Json(j@),
        }
    }
}

/// A request ready to be sent: method, absolute URL, basic-auth pair, headers and body.
pub struct ApiRequest {
    pub method: Method,
    pub url: String,
    pub username: String,
    pub password: String,
    pub user_agent: String,
    pub accept: String,
    pub body: RequestBody,
}

pub struct RequestView {
    pub method: Method,
    pub url: Seq<char>,
    pub username: Seq<char>,
    pub password: Seq<char>,
    pub user_agent: Seq<char>,
    pub accept: Seq<char>,
    pub body: BodyView,
}

impl View for ApiRequest {
    type V = RequestView;

    open spec fn view(&self) -> RequestView {
        RequestView {
            method: self.method,
            url: self.url@,
            username: self.username@,
            password: self.password@,
            user_agent: self.user_agent@,
            accept: self.accept@,
            body: self.body@,
        }
    }
}

/// A request of a stream operation, with the server's host that its failures name.
pub struct StreamCall {
    pub request: ApiRequest,
    pub host: String,
}

/// What the local machine contributes to every request.
pub struct Identity {
    /// The operating system's user name, where it could be had.
    pub os_user: Option<String>,
    pub user_agent: String,
}

/// Whether the operations may contact the server.
pub enum Network {
    Enabled,
    Disabled,
}

/// Where the server URL and the install id come from.
pub trait ServiceConfig {
    fn get_server_url(&mut self) -> Result<String, String>;

    fn get_install_id(&mut self) -> Result<String, String>;
}

pub open spec fn user_name(os_user: Option<String>) -> Seq<char> {
    match os_user {
        Some(u) => u@,
        None => Seq::empty(),
    }
}

pub open spec fn user_agent_of(version: Seq<char>, target: Seq<char>) -> Seq<char> {
    "asciinema/"@ + version + " target/"@ + target
}

/// A request with the credentials and headers that every request carries.
pub open spec fn headed(
    method: Method,
    url: Seq<char>,
    body: BodyView,
    install_id: Seq<char>,
    who: Identity,
) -> RequestView {
    RequestView {
        method,
        url,
        username: user_name(who.os_user),
        password: install_id,
        user_agent: who.user_agent@,
        accept: "application/json"@,
        body,
    }
}

pub open spec fn request_result(r: Result<ApiRequest, ApiError>) -> Result<RequestView, ErrorKind> {
    match r {
        Ok(q) => Ok(q@),
        Err(e) => Err(e@),
    }
}

pub open spec fn call_result(r: Result<StreamCall, ApiError>) -> Result<(RequestView, Seq<char>), ErrorKind> {
    match r {
        Ok(c) => Ok((c.request@, c.host@)),
        Err(e) => Err(e@),
    }
}

pub open spec fn recording_request(
    server_url: Seq<char>,
    path: Seq<char>,
    install_id: Seq<char>,
    who: Identity,
) -> Result<RequestView, ErrorKind> {
    match url_or_config_error(path_url(server_url, "api/v1/recordings"@)) {
        Ok(u) => Ok(headed(Method::Post, u, BodyView::File("file"@, path), install_id, who)),
        Err(e) => Err(e),
    }
}

/// A stream request to `url`, where the server URL has a host.
pub open spec fn stream_call(
    server_url: Seq<char>,
    url: Option<Seq<char>>,
    method: Method,
    body: BodyView,
    install_id: Seq<char>,
    who: Identity,
) -> Result<(RequestView, Seq<char>), ErrorKind> {
    match host_of(server_url) {
        None => Err(ErrorKind::Config(no_host_message())),
        Some(h) => match url_or_config_error(url) {
            Ok(u) => Ok((headed(method, u, body, install_id, who), h)),
            Err(e) => Err(e),
        },
    }
}

pub open spec fn list_query(prefix: Seq<char>) -> Seq<char> {
    "prefix="@ + prefix + "&limit=10"@
}

pub open spec fn list_url(server_url: Seq<char>, prefix: Seq<char>) -> Option<Seq<char>> {
    match path_url(server_url, "api/v1/user/streams"@) {
        Some(u) => query_url(u, list_query(prefix)),
        None => None,
    }
}

pub open spec fn changeset_body(c: StreamChangeset) -> BodyView {
    BodyView::Json(render_object(changeset_members(c)))
}

pub open spec fn list_streams_call(
    server_url: Seq<char>,
    prefix: Seq<char>,
    install_id: Seq<char>,
    who: Identity,
) -> Result<(RequestView, Seq<char>), ErrorKind> {
    stream_call(server_url, list_url(server_url, prefix), Method::Get, BodyView::Empty, install_id, who)
}

pub open spec fn create_stream_call(
    server_url: Seq<char>,
    install_id: Seq<char>,
    c: StreamChangeset,
    who: Identity,
) -> Result<(RequestView, Seq<char>), ErrorKind> {
    stream_call(
        server_url,
        path_url(server_url, "api/v1/streams"@),
        Method::Post,
        changeset_body(c),
        install_id,
        who,
    )
}

pub open spec fn stream_path(id: u64) -> Seq<char> {
    "api/v1/streams/"@ + decimal_of(id as nat)
}

pub open spec fn update_stream_call(
    server_url: Seq<char>,
    install_id: Seq<char>,
    id: u64,
    c: StreamChangeset,
    who: Identity,
) -> Result<(RequestView, Seq<char>), ErrorKind> {
    stream_call(
        server_url,
        path_url(server_url, stream_path(id)),
        Method::Patch,
        changeset_body(c),
        install_id,
        who,
    )
}

pub open spec fn auth_url_result(server_url: Seq<char>, install_id: Seq<char>) -> Result<Seq<char>, ErrorKind> {
    url_or_config_error(path_url(server_url, "connect/"@ + install_id))
}

/// The user name of basic authentication: the operating system's user name, or empty where
/// there is none.
pub fn get_username(os_user: &Option<String>) -> (r: String)
    ensures
        r@ == user_name(*os_user),
{
    match os_user {
        Some(u) => u.clone(),
        None => String::new(),
    }
}

/// The basic-auth pair of every request: the user name, never failing, and the install id as
/// password.
pub fn basic_auth_pair(os_user: &Option<String>, install_id: &str) -> (r: (String, String))
    ensures
        r.0@ == user_name(*os_user),
        r.1@ == install_id@,
{
    (get_username(os_user), String::from_str(install_id))
}

/// The `User-Agent` header, naming this client's version and the target it was built for.
pub fn build_user_agent(version: &str, target: &str) -> (r: String)
    ensures
        r@ == user_agent_of(version@, target@),
{
    let mut r = String::from_str("asciinema/");
    r.append(version);
    r.append(" target/");
    r.append(target);
    r
}

/// The request with basic authentication, the `User-Agent` and `Accept: application/json`.
pub fn add_headers(
    method: Method,
    url: String,
    body: RequestBody,
    install_id: &str,
    who: &Identity,
) -> (r: ApiRequest)
    ensures
        r@ == headed(method, url@, body@, install_id@, *who),
{
    let (username, password) = basic_auth_pair(&who.os_user, install_id);
    ApiRequest {
        method,
        url,
        username,
        password,
        user_agent: who.user_agent.clone(),
        accept: String::from_str("application/json"),
        body,
    }
}

/// The upload of the recording at `path`, as a multipart form with the field `file`, to
/// `api/v1/recordings`.
pub fn create_recording_request(
    server_url: &str,
    path: &str,
    install_id: &str,
    who: &Identity,
) -> (r: Result<ApiRequest, ApiError>)
    ensures
        request_result(r) == recording_request(server_url@, path@, install_id@, *who),
{
    let url = set_path(server_url, "api/v1/recordings")?;
    let body = RequestBody::File { field: String::from_str("file"), path: String::from_str(path) };
    Ok(add_headers(Method::Post, url, body, install_id, who))
}

fn stream_request(
    server_url: &str,
    url: Result<String, ApiError>,
    method: Method,
    body: RequestBody,
    install_id: &str,
    who: &Identity,
) -> (r: Result<StreamCall, ApiError>)
    ensures
        call_result(r) == (match host_of(server_url@) {
            None => Err(ErrorKind::Config(no_host_message())),
            Some(h) => match url {
                Ok(u) => Ok((headed(method, u@, body@, install_id@, *who), h)),
                Err(e) => Err(e@),
            },
        }),
{
    let host = server_host(server_url)?;
    let url = url?;
    Ok(StreamCall { request: add_headers(method, url, body, install_id, who), host })
}

/// The listing of the user's streams whose names start with `prefix`, at most ten.
pub fn list_user_streams_request(
    server_url: &str,
    prefix: &str,
    install_id: &str,
    who: &Identity,
) -> (r: Result<StreamCall, ApiError>)
    ensures
        call_result(r) == list_streams_call(server_url@, prefix@, install_id@, *who),
{
    let mut query = String::from_str("prefix=");
    query.append(prefix);
    query.append("&limit=10");
    let url = match set_path(server_url, "api/v1/user/streams") {
        Ok(u) => set_query(u.as_str(), query.as_str()),
        Err(e) => Err(e),
    };
    stream_request(server_url, url, Method::Get, RequestBody::Empty, install_id, who)
}

/// The creation of a stream with the fields of `changeset`.
pub fn create_stream_request(
    server_url: &str,
    install_id: &str,
    changeset: &StreamChangeset,
    who: &Identity,
) -> (r: Result<StreamCall, ApiError>)
    requires
        changeset.well_formed(),
    ensures
        call_result(r) == create_stream_call(server_url@, install_id@, *changeset, *who),
{
    let url = set_path(server_url, "api/v1/streams");
    let body = RequestBody::Json(encode_changeset(changeset));
    stream_request(server_url, url, Method::Post, body, install_id, who)
}

/// The update of the stream `stream_id` with the fields of `changeset`.
pub fn update_stream_request(
    server_url: &str,
    install_id: &str,
    stream_id: u64,
    changeset: &StreamChangeset,
    who: &Identity,
) -> (r: Result<StreamCall, ApiError>)
    requires
        changeset.well_formed(),
    ensures
        call_result(r) == update_stream_call(server_url@, install_id@, stream_id, *changeset, *who),
{
    let mut path = String::from_str("api/v1/streams/");
    push_decimal(&mut path, stream_id);
    let url = set_path(server_url, path.as_str());
    let body = RequestBody::Json(encode_changeset(changeset));
    stream_request(server_url, url, Method::Patch, body, install_id, who)
}

/// The URL at which this installation is connected to a user account: `connect/<install id>`.
pub fn auth_url(server_url: &str, install_id: &str) -> (r: Result<String, ApiError>)
    ensures
        match auth_url_result(server_url@, install_id@) {
            Ok(u) => r is Ok && r->Ok_0@ == u,
            Err(e) => r is Err && r->Err_0@ == e,
        },
{
    let mut path = String::from_str("connect/");
    path.append(install_id);
    set_path(server_url, path.as_str())
}

} // verus!
