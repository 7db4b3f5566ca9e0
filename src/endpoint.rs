use vstd::prelude::*;
use vstd::string::StrSliceExecFns;
use vstd::string::StringExecFns;
use crate::error::{ApiError, ErrorKind};

verus! {

/// The host of the URL written `url`, if it is a URL with a host.
pub uninterp spec fn host_of(url: Seq<char>) -> Option<Seq<char>>;

/// The serialization of the URL written `url`, if it is a URL.
pub uninterp spec fn parsed_of(url: Seq<char>) -> Option<Seq<char>>;

/// The URL written `url` with its path replaced by `path`, if `url` is a URL.
pub uninterp spec fn with_path_of(url: Seq<char>, path: Seq<char>) -> Option<Seq<char>>;

/// The URL written `url` with its query replaced by `query`, if `url` is a URL.
pub uninterp spec fn with_query_of(url: Seq<char>, query: Seq<char>) -> Option<Seq<char>>;

/// Whether a parsed URL whose serialization is `parsed`, with `part` put in as its path or
/// query, stays within the length that the URL parser can index: the serialization takes at most
/// four bytes a character, the part at most twelve once percent-encoded, and a separator or two
/// may be added.
pub open spec fn fits(parsed: Seq<char>, part: Seq<char>) -> bool {
    4 * parsed.len() + 12 * part.len() + 16 <= u32::MAX
}

/// Whether `url` parses, and its serialization with `part` put in fits.
pub open spec fn settable(url: Seq<char>, part: Seq<char>) -> bool {
    match parsed_of(url) {
        Some(p) => fits(p, part),
        None => false,
    }
}

/// Relies on url::Url::parse and `From<Url> for String`: the serialization of a parsed URL, none
/// where the text does not parse.
#[verifier::external_body]
fn url_parse(url: &str) -> (r: Option<String>)
    ensures
        match r {
            Some(p) => parsed_of(url@) == Some(p@),
            None => parsed_of(url@) is None,
        },
{
    match url::Url::parse(url) {
        Ok(u) => Some(String::from(u)),
        Err(_) => None,
    }
}

/// Relies on url::Url::parse and Url::host_str: the host of a parsed URL, none where the text
/// does not parse or the URL has no host.
#[verifier::external_body]
fn url_host(url: &str) -> (r: Option<String>)
    ensures
        match r {
            Some(h) => host_of(url@) == Some(h@),
            None => host_of(url@) is None,
        },
{
    match url::Url::parse(url) {
        Ok(u) => match u.host_str() {
            Some(h) => Some(h.to_string()),
            None => None,
        },
        Err(_) => None,
    }
}

/// Relies on url::Url::parse, Url::set_path and `From<Url> for String`: the URL with a new path,
/// none where the text does not parse. `set_path` panics where the serialization grows past
/// `u32::MAX` bytes, which `settable` rules out.
#[verifier::external_body]
fn url_with_path(url: &str, path: &str) -> (r: Option<String>)
    requires
        settable(url@, path@),
    ensures
        match r {
            Some(u) => with_path_of(url@, path@) == Some(u@),
            None => with_path_of(url@, path@) is None,
        },
{
    match url::Url::parse(url) {
        Ok(mut u) => {
            u.set_path(path);
            Some(String::from(u))
        },
        Err(_) => None,
    }
}

/// Relies on url::Url::parse, Url::set_query and `From<Url> for String`: the URL with a new
/// query, none where the text does not parse. `set_query` panics where the serialization grows
/// past `u32::MAX` bytes, which `settable` rules out.
#[verifier::external_body]
fn url_with_query(url: &str, query: &str) -> (r: Option<String>)
    requires
        settable(url@, query@),
    ensures
        match r {
            Some(u) => with_query_of(url@, query@) == Some(u@),
            None => with_query_of(url@, query@) is None,
        },
{
    match url::Url::parse(url) {
        Ok(mut u) => {
            u.set_query(Some(query));
            Some(String::from(u))
        },
        Err(_) => None,
    }
}

pub open spec fn unusable_url_message() -> Seq<char> {
    "the server URL cannot be used"@
}

pub open spec fn no_host_message() -> Seq<char> {
    "the server URL has no host"@
}

/// `url` with its path replaced, where it is a URL and the result is not too long to handle.
pub open spec fn path_url(url: Seq<char>, path: Seq<char>) -> Option<Seq<char>> {
    if settable(url, path) {
        with_path_of(url, path)
    } else {
        None
    }
}

/// `url` with its query replaced, where it is a URL and the result is not too long to handle.
pub open spec fn query_url(url: Seq<char>, query: Seq<char>) -> Option<Seq<char>> {
    if settable(url, query) {
        with_query_of(url, query)
    } else {
        None
    }
}

/// What an unusable server URL comes to.
pub open spec fn url_or_config_error(u: Option<Seq<char>>) -> Result<Seq<char>, ErrorKind> {
    match u {
        Some(s) => Ok(s),
        None => Err(ErrorKind::Config(unusable_url_message())),
    }
}

/// Whether `url` parses with a serialization that leaves room for `part`.
fn check_settable(url: &str, part: &str) -> (r: bool)
    ensures
        r == settable(url@, part@),
{
    let parsed = match url_parse(url) {
        Some(p) => p,
        None => return false,
    };
    let n = parsed.as_str().unicode_len() as u64;
    let m = part.unicode_len() as u64;
    n <= 0x4000_0000 && m <= 0x1555_5556 && 4 * n + 12 * m + 16 <= 0xffff_ffff
}

fn unusable_url() -> (r: ApiError)
    ensures
        r@ == ErrorKind::Config(unusable_url_message()),
{
    ApiError::Config(String::from_str("the server URL cannot be used"))
}

/// The server URL with its path replaced by `path`.
pub fn set_path(url: &str, path: &str) -> (r: Result<String, ApiError>)
    ensures
        match url_or_config_error(path_url(url@, path@)) {
            Ok(u) => r is Ok && r->Ok_0@ == u,
            Err(e) => r is Err && r->Err_0@ == e,
        },
{
    if !check_settable(url, path) {
        return Err(unusable_url());
    }
    match url_with_path(url, path) {
        Some(u) => Ok(u),
        None => Err(unusable_url()),
    }
}

/// The URL with its query replaced by `query`.
pub fn set_query(url: &str, query: &str) -> (r: Result<String, ApiError>)
    ensures
        match url_or_config_error(query_url(url@, query@)) {
            Ok(u) => r is Ok && r->Ok_0@ == u,
            Err(e) => r is Err && r->Err_0@ == e,
        },
{
    if !check_settable(url, query) {
        return Err(unusable_url());
    }
    match url_with_query(url, query) {
        Some(u) => Ok(u),
        None => Err(unusable_url()),
    }
}

/// The host of the server URL, which the messages of stream operations name.
pub fn server_host(url: &str) -> (r: Result<String, ApiError>)
    ensures
        match host_of(url@) {
            Some(h) => r is Ok && r->Ok_0@ == h,
            None => r is Err && r->Err_0@ == ErrorKind::Config(no_host_message()),
        },
{
    match url_host(url) {
        Some(h) => Ok(h),
        None => Err(ApiError::Config(String::from_str("the server URL has no host"))),
    }
}

} // verus!
