use vstd::prelude::*;
use crate::error::{
    auth_required, auth_required_message, streaming_unsupported, streaming_unsupported_message,
    too_large, too_large_message, ApiError, ErrorKind,
};

verus! {

/// The answer to a successful upload.
pub struct RecordingResponse {
    pub url: String,
    /// Text that the server would rather have shown than the URL.
    pub message: Option<String>,
}

/// A live stream on the server.
pub struct StreamResponse {
    pub id: u64,
    /// Where the producer sends the stream (a websocket URL).
    pub ws_producer_url: String,
    /// Where viewers watch it.
    pub url: String,
}

impl RecordingResponse {
    /// What to show after an upload: the server's message where it sent one, else the URL.
    pub fn display_text(&self) -> (r: String)
        ensures
            r@ == match self.message {
                Some(m) => m@,
                None => self.url@,
            },
    {
        match &self.message {
            Some(m) => m.clone(),
            None => self.url.clone(),
        }
    }
}

pub open spec fn text_of(o: Option<String>) -> Option<Seq<char>> {
    match o {
        Some(s) => Some(s@),
        None => None,
    }
}

pub open spec fn is_success(status: u16) -> bool {
    200 <= status < 300
}

/// The failure that an upload's status and structured error message call for, if any.
pub open spec fn upload_failure(status: u16, error_message: Option<Seq<char>>) -> Option<ErrorKind> {
    if status == 413 {
        match error_message {
            Some(m) => Some(ErrorKind::Application(m)),
            None => Some(ErrorKind::Application(too_large_message())),
        }
    } else if is_success(status) {
        None
    } else {
        Some(ErrorKind::Status(status))
    }
}

/// The failure that a stream operation's status and structured error message call for, if any.
pub open spec fn stream_failure(status: u16, host: Seq<char>, error_message: Option<Seq<char>>) -> Option<
    ErrorKind,
> {
    if status == 401 {
        Some(ErrorKind::Application(auth_required_message(host)))
    } else if status == 404 || status == 422 {
        match error_message {
            Some(m) => Some(ErrorKind::Application(m)),
            None => Some(ErrorKind::Application(streaming_unsupported_message(host))),
        }
    } else if is_success(status) {
        None
    } else {
        Some(ErrorKind::Status(status))
    }
}

/// Whether `r` is what an answer comes to: the failure where one is called for, else the decoded
/// body, else a decode error.
pub open spec fn settles<T>(
    failure: Option<ErrorKind>,
    decoded: Result<T, String>,
    r: Result<T, ApiError>,
) -> bool {
    match failure {
        Some(e) => r is Err && r->Err_0@ == e,
        None => match decoded {
            Ok(v) => r is Ok && r->Ok_0 == v,
            Err(d) => r is Err && r->Err_0@ == ErrorKind::Decode(d@),
        },
    }
}

/// Whether `t` occurs in `s`.
pub open spec fn occurs_in(t: Seq<char>, s: Seq<char>) -> bool {
    exists|k: int| 0 <= k && k + t.len() <= s.len() && #[trigger] s.subrange(k, k + t.len()) == t
}

/// A stream operation answered with status 401 fails, whatever the body holds, with a message
/// that names the server's host and asks for `asciinema auth` first.
pub proof fn lemma_unauthorized_names_host(host: Seq<char>, error_message: Option<Seq<char>>)
    ensures
        ({
            let f = stream_failure(401, host, error_message);
            &&& f is Some && f->Some_0 is Application
            &&& occurs_in(host, f->Some_0->Application_0)
            &&& occurs_in("asciinema auth"@, f->Some_0->Application_0)
        }),
{
    let m = auth_required_message(host);
    let pre = "this CLI hasn't been authenticated with "@;
    let post = " - run `asciinema auth` first"@;
    reveal_strlit("this CLI hasn't been authenticated with ");
    reveal_strlit(" - run `asciinema auth` first");
    reveal_strlit("asciinema auth");
    assert(m.subrange(pre.len() as int, (pre.len() + host.len()) as int) =~= host);
    let k: int = (pre.len() + host.len() + 8) as int;
    assert(m.subrange(k, k + 14) =~= "asciinema auth"@);
}

/// A stream operation answered with status 404 or 422 and a body that is no structured error
/// fails with the message that the server, named by its host, does not support streaming.
pub proof fn lemma_not_found_unsupported(status: u16, host: Seq<char>)
    requires
        status == 404 || status == 422,
    ensures
        stream_failure(status, host, None) == Some(
            ErrorKind::Application(streaming_unsupported_message(host)),
        ),
        streaming_unsupported_message(host).subrange(0, host.len() as int) == host,
{
    assert(streaming_unsupported_message(host).subrange(0, host.len() as int) =~= host);
}

/// A successful status with a body that does not decode is a decode error, never an error of the
/// server's own, for uploads and stream operations alike.
pub proof fn lemma_malformed_body_is_decode_error<T>(
    status: u16,
    host: Seq<char>,
    error_message: Option<Seq<char>>,
    d: String,
    upload: Result<T, ApiError>,
    stream: Result<T, ApiError>,
)
    requires
        is_success(status),
        settles(upload_failure(status, error_message), Err::<T, String>(d), upload),
        settles(stream_failure(status, host, error_message), Err::<T, String>(d), stream),
    ensures
        upload is Err && upload->Err_0@ == ErrorKind::Decode(d@),
        stream is Err && stream->Err_0@ == ErrorKind::Decode(d@),
{
}

fn settle<T>(decoded: Result<T, String>) -> (r: Result<T, ApiError>)
    ensures
        settles(None, decoded, r),
{
    match decoded {
        Ok(v) => Ok(v),
        Err(d) => Err(ApiError::Decode(d)),
    }
}

/// The outcome of an upload, from the answer's status, the message of its body where the body is
/// a structured error, and the body decoded as a `RecordingResponse`.
pub fn interpret_upload_response(
    status: u16,
    error_message: Option<String>,
    decoded: Result<RecordingResponse, String>,
) -> (r: Result<RecordingResponse, ApiError>)
    ensures
        settles(upload_failure(status, text_of(error_message)), decoded, r),
{
    if status == 413 {
        match error_message {
            Some(m) => Err(ApiError::Application(m)),
            None => Err(too_large()),
        }
    } else if 200 <= status && status < 300 {
        settle(decoded)
    } else {
        Err(ApiError::Status(status))
    }
}

/// The outcome of a stream operation, from the answer's status, the server's host name, the
/// message of its body where the body is a structured error, and the body decoded as the
/// expected value.
pub fn interpret_stream_response<T>(
    status: u16,
    host: &str,
    error_message: Option<String>,
    decoded: Result<T, String>,
) -> (r: Result<T, ApiError>)
    ensures
        settles(stream_failure(status, host@, text_of(error_message)), decoded, r),
{
    if status == 401 {
        Err(auth_required(host))
    } else if status == 404 || status == 422 {
        match error_message {
            Some(m) => Err(ApiError::Application(m)),
            None => Err(streaming_unsupported(host)),
        }
    } else if 200 <= status && status < 300 {
        settle(decoded)
    } else {
        Err(ApiError::Status(status))
    }
}

} // verus!
