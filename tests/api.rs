use asciinema::changeset::{encode_changeset, Field, StreamChangeset};
use asciinema::error::{disabled, unreachable_stream_server, upload_cast, ApiError};
use asciinema::operations::{
    get_auth_url, prepare_create_recording, prepare_create_stream, prepare_list_user_streams,
    prepare_update_stream,
};
use asciinema::request::{
    auth_url, basic_auth_pair, build_user_agent, create_recording_request, create_stream_request,
    get_username, list_user_streams_request, update_stream_request, Identity, Method, Network,
    RequestBody, ServiceConfig,
};
use asciinema::response::{
    interpret_stream_response, interpret_upload_response, RecordingResponse, StreamResponse,
};

struct TestConfig {
    server_url: Result<String, String>,
    install_id: Result<String, String>,
    calls: usize,
}

impl ServiceConfig for TestConfig {
    fn get_server_url(&mut self) -> Result<String, String> {
        self.calls += 1;
        self.server_url.clone()
    }

    fn get_install_id(&mut self) -> Result<String, String> {
        self.calls += 1;
        self.install_id.clone()
    }
}

fn config() -> TestConfig {
    TestConfig {
        server_url: Ok("https://asciinema.example/".to_string()),
        install_id: Ok("abc-123".to_string()),
        calls: 0,
    }
}

fn who() -> Identity {
    Identity { os_user: Some("alice".to_string()), user_agent: "asciinema/3.0.0 target/x86_64".to_string() }
}

fn stream(id: u64) -> StreamResponse {
    StreamResponse {
        id,
        ws_producer_url: "wss://asciinema.example/ws/s/1".to_string(),
        url: "https://asciinema.example/s/1".to_string(),
    }
}

fn message_of<T>(r: Result<T, ApiError>) -> String {
    match r {
        Ok(_) => panic!("expected an error"),
        Err(e) => e.message(),
    }
}

#[test]
fn changeset_absent_null_and_set() {
    let c = StreamChangeset {
        live: Some(true),
        title: Field::Unset,
        term_type: Field::Unset,
        term_version: Field::Unset,
        shell: Field::Null,
        env: Field::Unset,
    };
    assert_eq!(encode_changeset(&c), "{\"live\":true,\"shell\":null}");
}

#[test]
fn changeset_empty() {
    assert_eq!(encode_changeset(&StreamChangeset::default()), "{}");
}

#[test]
fn changeset_every_field() {
    let c = StreamChangeset {
        live: Some(false),
        title: Field::Value("my \"demo\"".to_string()),
        term_type: Field::Value("xterm-256color".to_string()),
        term_version: Field::Null,
        shell: Field::Value("/bin/zsh".to_string()),
        env: Field::Value(vec![
            ("LANG".to_string(), "en_US.UTF-8".to_string()),
            ("TAB".to_string(), "a\tb\\c\u{1}".to_string()),
        ]),
    };
    assert_eq!(
        encode_changeset(&c),
        "{\"live\":false,\"title\":\"my \\\"demo\\\"\",\"term_type\":\"xterm-256color\",\
         \"term_version\":null,\"shell\":\"/bin/zsh\",\
         \"env\":{\"LANG\":\"en_US.UTF-8\",\"TAB\":\"a\\tb\\\\c\\u0001\"}}"
    );
}

#[test]
fn changeset_env_null_and_empty() {
    let mut c = StreamChangeset::default();
    c.env = Field::Null;
    assert_eq!(encode_changeset(&c), "{\"env\":null}");
    c.env = Field::Value(vec![]);
    c.title = Field::Value("é ✓".to_string());
    assert_eq!(encode_changeset(&c), "{\"title\":\"é ✓\",\"env\":{}}");
}

#[test]
fn upload_too_large_with_message() {
    let r = interpret_upload_response(413, Some("too big".to_string()), Err("x".to_string()));
    assert!(matches!(&r, Err(ApiError::Application(m)) if m == "too big"));
}

#[test]
fn upload_too_large_without_message() {
    let r = interpret_upload_response(413, None, Err("x".to_string()));
    assert_eq!(message_of(r), "The recording exceeds the server-configured size limit");
}

#[test]
fn upload_success_and_other_statuses() {
    let ok = RecordingResponse { url: "https://asciinema.example/a/1".to_string(), message: None };
    let r = interpret_upload_response(201, None, Ok(ok)).ok().unwrap();
    assert_eq!(r.url, "https://asciinema.example/a/1");
    assert_eq!(r.display_text(), "https://asciinema.example/a/1");
    let r = interpret_upload_response(401, Some("nope".to_string()), Err("x".to_string()));
    assert!(matches!(r, Err(ApiError::Status(401))));
    assert_eq!(message_of(interpret_upload_response(500, None, Err("x".to_string()))), "HTTP status 500");
}

#[test]
fn recording_display_prefers_message() {
    let r = RecordingResponse {
        url: "https://asciinema.example/a/1".to_string(),
        message: Some("View it at ...".to_string()),
    };
    assert_eq!(r.display_text(), "View it at ...");
}

#[test]
fn stream_unauthorized_names_host() {
    let r = interpret_stream_response(401, "asciinema.example", Some("m".to_string()), Ok(stream(1)));
    let m = message_of(r);
    assert!(m.contains("asciinema.example"));
    assert!(m.contains("asciinema auth"));
    assert_eq!(
        m,
        "this CLI hasn't been authenticated with asciinema.example - run `asciinema auth` first"
    );
}

#[test]
fn stream_not_found_without_body() {
    let r = interpret_stream_response(404, "asciinema.example", None, Ok(stream(1)));
    assert_eq!(message_of(r), "asciinema.example doesn't support streaming");
    let r = interpret_stream_response(422, "asciinema.example", None, Ok(stream(1)));
    assert_eq!(message_of(r), "asciinema.example doesn't support streaming");
}

#[test]
fn stream_not_found_with_body() {
    let r = interpret_stream_response(404, "h", Some("no such stream".to_string()), Ok(stream(1)));
    assert!(matches!(&r, Err(ApiError::Application(m)) if m == "no such stream"));
    let r = interpret_stream_response(422, "h", Some("bad title".to_string()), Ok(stream(1)));
    assert_eq!(message_of(r), "bad title");
}

#[test]
fn stream_success_keeps_fields() {
    let r = interpret_stream_response(200, "h", None, Ok(stream(99))).ok().unwrap();
    assert_eq!(r.id, 99);
    assert_eq!(r.ws_producer_url, "wss://asciinema.example/ws/s/1");
    assert_eq!(r.url, "https://asciinema.example/s/1");
    let list = interpret_stream_response(200, "h", None, Ok(vec![stream(1), stream(2)])).ok().unwrap();
    assert_eq!(list.len(), 2);
}

#[test]
fn malformed_success_is_decode_error() {
    let r = interpret_stream_response::<StreamResponse>(200, "h", None, Err("missing field `id`".to_string()));
    assert!(matches!(&r, Err(ApiError::Decode(d)) if d == "missing field `id`"));
    let r = interpret_upload_response(200, None, Err("missing field `url`".to_string()));
    assert!(matches!(r, Err(ApiError::Decode(_))));
}

#[test]
fn stream_other_status() {
    let r = interpret_stream_response(503, "h", None, Ok(stream(1)));
    assert!(matches!(r, Err(ApiError::Status(503))));
    assert_eq!(message_of(interpret_stream_response(302, "h", None, Ok(stream(1)))), "HTTP status 302");
}

#[test]
fn disabled_mode_touches_nothing() {
    let mut c = config();
    let id = who();
    let cs = StreamChangeset::default();
    assert!(matches!(prepare_create_recording(&Network::Disabled, &mut c, &id, "/no/such/file"), Err(ApiError::Disabled)));
    assert!(matches!(prepare_list_user_streams(&Network::Disabled, &mut c, &id, ""), Err(ApiError::Disabled)));
    assert!(matches!(prepare_create_stream(&Network::Disabled, &mut c, &id, &cs), Err(ApiError::Disabled)));
    assert!(matches!(prepare_update_stream(&Network::Disabled, &mut c, &id, 7, &cs), Err(ApiError::Disabled)));
    assert_eq!(c.calls, 0);
    assert!(matches!(upload_cast::<()>("x.cast"), Err(ApiError::Disabled)));
    assert_eq!(
        disabled().message(),
        "Network access disabled: functionality that contacts the open internet has been removed in this version of asciinema"
    );
}

#[test]
fn enabled_mode_reads_config() {
    let mut c = config();
    let r = prepare_create_recording(&Network::Enabled, &mut c, &who(), "demo.cast").ok().unwrap();
    assert_eq!(r.url, "https://asciinema.example/api/v1/recordings");
    assert_eq!(c.calls, 2);
    let mut bad = config();
    bad.install_id = Err("no install id".to_string());
    let r = prepare_create_stream(&Network::Enabled, &mut bad, &who(), &StreamChangeset::default());
    assert!(matches!(&r, Err(ApiError::Config(m)) if m == "no install id"));
    let mut bad = config();
    bad.server_url = Err("bad server".to_string());
    assert_eq!(message_of(get_auth_url(&mut bad)), "bad server");
}

#[test]
fn auth_pair_and_headers() {
    assert_eq!(basic_auth_pair(&None, "id-1"), ("".to_string(), "id-1".to_string()));
    assert_eq!(basic_auth_pair(&Some("bob".to_string()), "id-2"), ("bob".to_string(), "id-2".to_string()));
    assert_eq!(get_username(&None), "");
    assert_eq!(build_user_agent("3.0.0", "x86_64-unknown-linux-gnu"), "asciinema/3.0.0 target/x86_64-unknown-linux-gnu");
}

#[test]
fn recording_request_shape() {
    let r = create_recording_request("https://asciinema.example", "demo.cast", "abc-123", &who()).ok().unwrap();
    assert!(matches!(r.method, Method::Post));
    assert_eq!(r.url, "https://asciinema.example/api/v1/recordings");
    assert_eq!(r.username, "alice");
    assert_eq!(r.password, "abc-123");
    assert_eq!(r.user_agent, "asciinema/3.0.0 target/x86_64");
    assert_eq!(r.accept, "application/json");
    assert!(matches!(&r.body, RequestBody::File { field, path } if field == "file" && path == "demo.cast"));
}

#[test]
fn stream_request_shapes() {
    let l = list_user_streams_request("https://asciinema.example/", "my", "abc", &who()).ok().unwrap();
    assert!(matches!(l.request.method, Method::Get));
    assert_eq!(l.request.url, "https://asciinema.example/api/v1/user/streams?prefix=my&limit=10");
    assert_eq!(l.host, "asciinema.example");
    assert!(matches!(l.request.body, RequestBody::Empty));

    let mut cs = StreamChangeset::default();
    cs.live = Some(true);
    let c = create_stream_request("http://localhost:4000", "abc", &cs, &who()).ok().unwrap();
    assert!(matches!(c.request.method, Method::Post));
    assert_eq!(c.request.url, "http://localhost:4000/api/v1/streams");
    assert_eq!(c.host, "localhost");
    assert!(matches!(&c.request.body, RequestBody::Json(j) if j == "{\"live\":true}"));

    let u = update_stream_request("https://asciinema.example", "abc", 18446744073709551615, &cs, &who()).ok().unwrap();
    assert!(matches!(u.request.method, Method::Patch));
    assert_eq!(u.request.url, "https://asciinema.example/api/v1/streams/18446744073709551615");
    let u = update_stream_request("https://asciinema.example", "abc", 0, &cs, &who()).ok().unwrap();
    assert_eq!(u.request.url, "https://asciinema.example/api/v1/streams/0");
}

#[test]
fn unusable_server_urls() {
    let r = list_user_streams_request("data:text/plain,x", "p", "abc", &who());
    assert_eq!(message_of(r), "the server URL has no host");
    let r = create_recording_request("not a url", "demo.cast", "abc", &who());
    assert!(matches!(&r, Err(ApiError::Config(m)) if m == "the server URL cannot be used"));
}

#[test]
fn connect_url() {
    assert_eq!(auth_url("https://asciinema.example", "abc-123").ok().unwrap(), "https://asciinema.example/connect/abc-123");
    let mut c = config();
    assert_eq!(get_auth_url(&mut c).ok().unwrap(), "https://asciinema.example/connect/abc-123");
}

#[test]
fn transport_error_message() {
    assert_eq!(unreachable_stream_server().message(), "cannot obtain stream producer endpoint - is the server down?");
}

#[test]
fn env_names_must_be_distinct() {
    let mut c = StreamChangeset::default();
    assert!(c.has_distinct_env_names());
    c.env = Field::Value(vec![
        ("A".to_string(), "1".to_string()),
        ("B".to_string(), "2".to_string()),
    ]);
    assert!(c.has_distinct_env_names());
    c.env = Field::Value(vec![
        ("A".to_string(), "1".to_string()),
        ("B".to_string(), "2".to_string()),
        ("A".to_string(), "3".to_string()),
    ]);
    assert!(!c.has_distinct_env_names());
}

#[test]
fn server_url_failure_comes_first() {
    let mut c = config();
    c.server_url = Err("no server".to_string());
    c.install_id = Err("no id".to_string());
    let r = prepare_list_user_streams(&Network::Enabled, &mut c, &who(), "p");
    assert!(matches!(&r, Err(ApiError::Config(m)) if m == "no server"));
    assert_eq!(c.calls, 1);
    let mut c = config();
    c.install_id = Err("no id".to_string());
    let r = prepare_update_stream(&Network::Enabled, &mut c, &who(), 3, &StreamChangeset::default());
    assert_eq!(message_of(r), "no id");
}

#[test]
fn non_ascii_server_url_is_handled() {
    let r = create_recording_request("http://a/\u{1F600}", "x.cast", "abc", &who()).ok().unwrap();
    assert_eq!(r.url, "http://a/api/v1/recordings");
}
