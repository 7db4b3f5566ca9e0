use vstd::prelude::*;
use vstd::string::StringExecFns;
use crate::json::{decimal_of, push_decimal};

verus! {

/// Why an operation against the service produced no result.
pub enum ApiError {
    /// The server URL or the install id could not be had, or the server URL is unusable.
    Config(String),
    /// The server could not be reached at all.
    Transport(String),
    /// The server understood the request and refused it, with this message.
    Application(String),
    /// The server answered with a failing status that has no meaning of its own here.
    Status(u16),
    /// A successful answer whose body is not of the expected shape.
    Decode(String),
    /// Network access is switched off.
    Disabled,
}

/// What an `ApiError` holds, with its texts as character sequences.
pub enum ErrorKind {
    Config(Seq<char>),
    Transport(Seq<char>),
    Application(Seq<char>),
    Status(u16),
    Decode(Seq<char>),
    Disabled,
}

impl View for ApiError {
    type V = ErrorKind;

    open spec fn view(&self) -> ErrorKind {
        match self {
            ApiError::Config(m) => ErrorKind::Config(m@),
            ApiError::Transport(m) => ErrorKind::Transport(m@),
            ApiError::Application(m) => ErrorKind::Application(m@),
            ApiError::Status(s) => ErrorKind::Status(*s),
            ApiError::Decode(m) => ErrorKind::Decode(m@),
            ApiError::Disabled => ErrorKind::Disabled,
        }
    }
}

pub open spec fn disabled_message() -> Seq<char> {
    "Network access disabled: functionality that contacts the open internet has been removed in this version of asciinema"@
}

pub open spec fn too_large_message() -> Seq<char> {
    "The recording exceeds the server-configured size limit"@
}

pub open spec fn auth_required_message(host: Seq<char>) -> Seq<char> {
    "this CLI hasn't been authenticated with "@ + host + " - run `asciinema auth` first"@
}

pub open spec fn streaming_unsupported_message(host: Seq<char>) -> Seq<char> {
    host + " doesn't support streaming"@
}

pub open spec fn server_down_message() -> Seq<char> {
    "cannot obtain stream producer endpoint - is the server down?"@
}

pub open spec fn status_message(status: u16) -> Seq<char> {
    "HTTP status "@ + decimal_of(status as nat)
}

/// The text shown to the user for an error.
pub open spec fn error_text(e: ErrorKind) -> Seq<char> {
    match e {
        ErrorKind::Config(m) => m,
        ErrorKind::Transport(m) => m,
        ErrorKind::Application(m) => m,
        ErrorKind::Status(s) => status_message(s),
        ErrorKind::Decode(m) => m,
        ErrorKind::Disabled => disabled_message(),
    }
}

impl ApiError {
    /// The text shown to the user for this error.
    pub fn message(&self) -> (r: String)
        ensures
            r@ == error_text(self@),
    {
        match self {
            ApiError::Config(m) => m.clone(),
            ApiError::Transport(m) => m.clone(),
            ApiError::Application(m) => m.clone(),
            ApiError::Status(s) => {
                let mut r = String::from_str("HTTP status ");
                push_decimal(&mut r, *s as u64);
                r
            },
            ApiError::Decode(m) => m.clone(),
            ApiError::Disabled => String::from_str(
                "Network access disabled: functionality that contacts the open internet has been removed in this version of asciinema",
            ),
        }
    }
}

/// The error of every operation while network access is switched off.
pub fn disabled() -> (r: ApiError)
    ensures
        r@ == ErrorKind::Disabled,
{
    ApiError::Disabled
}

/// The failure of an operation that cannot run while network access is switched off.
pub fn upload_cast<T>(path: &str) -> (r: Result<T, ApiError>)
    ensures
        r is Err && r->Err_0@ == ErrorKind::Disabled,
{
    Err(disabled())
}

/// The error of a stream operation whose request never reached the server.
pub fn unreachable_stream_server() -> (r: ApiError)
    ensures
        r@ == ErrorKind::Transport(server_down_message()),
{
    ApiError::Transport(String::from_str("cannot obtain stream producer endpoint - is the server down?"))
}

pub(crate) fn auth_required(host: &str) -> (r: ApiError)
    ensures
        r@ == ErrorKind::Application(auth_required_message(host@)),
{
    let mut m = String::from_str("this CLI hasn't been authenticated with ");
    m.append(host);
    m.append(" - run `asciinema auth` first");
    ApiError::Application(m)
}

pub(crate) fn streaming_unsupported(host: &str) -> (r: ApiError)
    ensures
        r@ == ErrorKind::Application(streaming_unsupported_message(host@)),
{
    let mut m = String::from_str(host);
    m.append(" doesn't support streaming");
    ApiError::Application(m)
}

pub(crate) fn too_large() -> (r: ApiError)
    ensures
        r@ == ErrorKind::Application(too_large_message()),
{
    ApiError::Application(String::from_str("The recording exceeds the server-configured size limit"))
}

} // verus!
