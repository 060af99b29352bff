use gist_client::json::{number_text, render_object};
use gist_client::{
    interpret_response, needs_text, with_since, CreateComment, CreateGist, GistClient, GistError, GistFile,
    HttpMethod, Outcome, RequestBody, ResponseKind, Timestamp, UpdateComment, UpdateGist,
    DEFAULT_API_HOST, UNEXPECTED_STAR_STATUS, UNKNOWN_ERROR, UNREADABLE_BODY,
};

fn client(token: Option<&str>) -> GistClient {
    GistClient::new(
        token.map(|t| t.to_string()),
        Some("https://example.test".to_string()),
        None,
        None,
    )
}

fn header<'a>(headers: &'a [(String, String)], name: &str) -> Option<&'a str> {
    headers.iter().find(|h| h.0 == name).map(|h| h.1.as_str())
}

fn json_body(body: &RequestBody) -> serde_json::Value {
    match body {
        RequestBody::Json(t) => serde_json::from_str(t).unwrap(),
        other => panic!("expected a JSON body, got {:?}", other),
    }
}

#[test]
fn explicit_arguments_win_over_environment() {
    let c = GistClient::new(
        Some("tok".to_string()),
        Some("https://explicit".to_string()),
        Some("envtok".to_string()),
        Some("https://env".to_string()),
    );
    assert_eq!(c.api_host, "https://explicit");
    assert_eq!(c.token.as_deref(), Some("tok"));
}

#[test]
fn environment_wins_over_default() {
    let c = GistClient::new(None, None, Some("envtok".to_string()), Some("https://env".to_string()));
    assert_eq!(c.api_host, "https://env");
    assert_eq!(c.token.as_deref(), Some("envtok"));
}

#[test]
fn default_host_and_no_token() {
    let c = GistClient::new(None, None, None, None);
    assert_eq!(c.api_host, DEFAULT_API_HOST);
    assert_eq!(c.api_host, "https://api.github.com");
    assert!(c.token.is_none());
    let e = GistClient::from_env(None, Some("http://localhost:8080".to_string()));
    assert_eq!(e.api_host, "http://localhost:8080");
    assert!(e.token.is_none());
}

#[test]
fn absent_token_fails_only_on_unauthorized_response() {
    let c = GistClient::new(None, None, None, None);
    let req = c.get_gist("abc");
    assert!(header(&req.headers, "Authorization").is_none());
    let r = interpret_response(req.expect, 401, Some("{\"message\":\"Requires authentication\"}".to_string()));
    assert_eq!(r, Err(GistError::Unauthorized));
}

#[test]
fn common_headers_and_bearer_token() {
    let req = client(Some("secret")).get_gist("abc");
    assert_eq!(req.url, "https://example.test/gists/abc");
    assert_eq!(req.method, HttpMethod::Get);
    assert_eq!(header(&req.headers, "User-Agent"), Some("Rust-Gist-Client"));
    assert_eq!(header(&req.headers, "Accept"), Some("application/vnd.github.v3+json"));
    assert_eq!(header(&req.headers, "Authorization"), Some("Bearer secret"));
    assert!(header(&req.headers, "Content-Type").is_none());
}

#[test]
fn every_path_template() {
    let c = client(None);
    let cases: Vec<(gist_client::HttpRequest, HttpMethod, &str)> = vec![
        (c.get_gist("g1"), HttpMethod::Get, "/gists/g1"),
        (c.delete_gist("g1"), HttpMethod::Delete, "/gists/g1"),
        (c.list_gist_comments("g1"), HttpMethod::Get, "/gists/g1/comments"),
        (c.get_gist_comment("g1", 42), HttpMethod::Get, "/gists/g1/comments/42"),
        (c.delete_gist_comment("g1", 7), HttpMethod::Delete, "/gists/g1/comments/7"),
        (c.list_gist_commits("g1"), HttpMethod::Get, "/gists/g1/commits"),
        (c.get_gist_revision("g1", "abc123"), HttpMethod::Get, "/gists/g1/abc123"),
        (c.fork_gist("g1"), HttpMethod::Post, "/gists/g1/forks"),
        (c.list_gist_forks("g1"), HttpMethod::Get, "/gists/g1/forks"),
        (c.star_gist("g1"), HttpMethod::Put, "/gists/g1/star"),
        (c.unstar_gist("g1"), HttpMethod::Delete, "/gists/g1/star"),
        (c.check_gist_star("g1"), HttpMethod::Get, "/gists/g1/star"),
        (c.list_public_gists(None), HttpMethod::Get, "/gists/public"),
        (c.list_starred_gists(None), HttpMethod::Get, "/gists/starred"),
        (c.list_user_gists("octocat", None), HttpMethod::Get, "/users/octocat/gists"),
    ];
    for (req, method, path) in cases {
        assert_eq!(req.method, method);
        assert_eq!(req.url, format!("https://example.test{}", path));
        assert!(matches!(req.body, RequestBody::Empty));
    }
}

#[test]
fn comment_id_written_in_decimal() {
    let c = client(None);
    let req = c.get_gist_comment("g", 18446744073709551615);
    assert_eq!(req.url, "https://example.test/gists/g/comments/18446744073709551615");
    let req = c.get_gist_comment("g", 0);
    assert_eq!(req.url, "https://example.test/gists/g/comments/0");
    assert_eq!(number_text(1090), "1090");
}

#[test]
fn since_cursor_adds_one_query_parameter() {
    let c = client(None);
    let req = c.list_public_gists(Some("2024-01-01T00:00:00Z"));
    assert_eq!(req.url, "https://example.test/gists/public?since=2024-01-01T00:00:00Z");
    assert_eq!(req.url.matches('?').count(), 1);
    assert_eq!(req.url.matches("since=").count(), 1);
    let req = c.list_starred_gists(Some("2020-05-05T10:00:00Z"));
    assert_eq!(req.url, "https://example.test/gists/starred?since=2020-05-05T10:00:00Z");
    let req = c.list_user_gists("octocat", Some("2021-02-03T04:05:06Z"));
    assert_eq!(req.url, "https://example.test/users/octocat/gists?since=2021-02-03T04:05:06Z");
}

#[test]
fn no_since_cursor_leaves_bare_path() {
    let c = client(None);
    assert!(!c.list_public_gists(None).url.contains('?'));
    assert!(!c.list_starred_gists(None).url.contains('?'));
    assert!(!c.list_user_gists("octocat", None).url.contains('?'));
    assert_eq!(with_since("/gists/public".to_string(), None), "/gists/public");
}

#[test]
fn create_gist_round_trip_keeps_names_and_contents() {
    let c = client(Some("t"));
    let gist = CreateGist {
        description: Some("Rust Hello World".to_string()),
        public: Some(true),
        files: vec![
            (
                "hello.rs".to_string(),
                GistFile {
                    content: Some("fn main() { println!(\"Hello World!\"); }".to_string()),
                    filename: Some("hello.rs".to_string()),
                    ..Default::default()
                },
            ),
            (
                "notes \"q\".md".to_string(),
                GistFile { content: Some("line1\nline2\t\\".to_string()), ..Default::default() },
            ),
        ],
    };
    let req = c.create_gist(&gist).unwrap();
    assert_eq!(req.method, HttpMethod::Post);
    assert_eq!(req.url, "https://example.test/gists");
    assert_eq!(header(&req.headers, "Content-Type"), Some("application/json"));
    let v = json_body(&req.body);
    assert_eq!(v["description"], "Rust Hello World");
    assert_eq!(v["public"], true);
    let files = v["files"].as_object().unwrap();
    assert_eq!(files.len(), 2);
    assert_eq!(files["hello.rs"]["content"], "fn main() { println!(\"Hello World!\"); }");
    assert_eq!(files["hello.rs"]["filename"], "hello.rs");
    assert_eq!(files["notes \"q\".md"]["content"], "line1\nline2\t\\");
    // A server echo with the same files decodes to the same names and contents.
    let echo = format!("{{\"files\":{}}}", serde_json::to_string(&v["files"]).unwrap());
    let back: serde_json::Value = serde_json::from_str(&echo).unwrap();
    for (name, file) in &gist.files {
        assert_eq!(back["files"][name.as_str()]["content"], file.content.clone().unwrap().as_str());
    }
}

#[test]
fn unset_fields_are_omitted_not_null() {
    let c = client(None);
    let gist = CreateGist {
        description: None,
        public: None,
        files: vec![("a.txt".to_string(), GistFile { content: Some("x".to_string()), ..Default::default() })],
    };
    let req = c.create_gist(&gist).unwrap();
    let RequestBody::Json(text) = &req.body else { panic!("expected JSON") };
    assert_eq!(text, "{\"files\":{\"a.txt\":{\"content\":\"x\"}}}");
    assert!(!text.contains("null"));
    assert_eq!(GistFile::default().to_json().unwrap(), "{}");
}

#[test]
fn file_with_every_field() {
    let f = GistFile {
        content: Some("c".to_string()),
        filename: Some("f.py".to_string()),
        size: Some(120),
        language: Some("Python".to_string()),
        truncated: Some(false),
        kind: Some("application/x-python".to_string()),
    };
    assert_eq!(
        f.to_json().unwrap(),
        "{\"content\":\"c\",\"filename\":\"f.py\",\"size\":120,\"language\":\"Python\",\"truncated\":false,\"type\":\"application/x-python\"}"
    );
}

#[test]
fn update_null_entry_differs_from_absent_entry() {
    let c = client(None);
    let keep = UpdateGist {
        description: None,
        public: None,
        files: Some(vec![(
            "keep.txt".to_string(),
            Some(GistFile { content: Some("new".to_string()), ..Default::default() }),
        )]),
    };
    let mut delete = keep.clone();
    delete.files.as_mut().unwrap().push(("old.txt".to_string(), None));
    let a = c.update_gist("g1", &keep).unwrap();
    let b = c.update_gist("g1", &delete).unwrap();
    assert_eq!(a.method, HttpMethod::Patch);
    assert_eq!(a.url, "https://example.test/gists/g1");
    let (va, vb) = (json_body(&a.body), json_body(&b.body));
    assert!(va["files"].get("old.txt").is_none());
    assert!(vb["files"].get("old.txt").unwrap().is_null());
    assert_eq!(vb["files"]["keep.txt"]["content"], "new");
    assert_ne!(va, vb);
    let RequestBody::Json(text) = &b.body else { panic!("expected JSON") };
    assert_eq!(text, "{\"files\":{\"keep.txt\":{\"content\":\"new\"},\"old.txt\":null}}");
}

#[test]
fn update_without_fields_is_empty_object() {
    let u = UpdateGist { description: None, public: None, files: None };
    assert_eq!(u.to_json().unwrap(), "{}");
    let u = UpdateGist { description: Some("d".to_string()), public: Some(false), files: None };
    assert_eq!(u.to_json().unwrap(), "{\"description\":\"d\",\"public\":false}");
}

#[test]
fn comment_requests() {
    let c = client(None);
    let req = c.create_gist_comment("g1", &CreateComment { body: "Nice!".to_string() }).unwrap();
    assert_eq!(req.method, HttpMethod::Post);
    assert_eq!(req.url, "https://example.test/gists/g1/comments");
    assert_eq!(json_body(&req.body)["body"], "Nice!");
    let req = c.update_gist_comment("g1", 5, &UpdateComment { body: "Edited \"q\"".to_string() }).unwrap();
    assert_eq!(req.method, HttpMethod::Patch);
    assert_eq!(req.url, "https://example.test/gists/g1/comments/5");
    let RequestBody::Json(text) = &req.body else { panic!("expected JSON") };
    assert_eq!(text, "{\"body\":\"Edited \\\"q\\\"\"}");
}

#[test]
fn check_star_status_mapping() {
    let c = client(None);
    let kind = c.check_gist_star("g1").expect;
    assert_eq!(kind, ResponseKind::StarStatus);
    assert_eq!(interpret_response(kind, 204, Some(String::new())), Ok(Outcome::Starred(true)));
    assert_eq!(interpret_response(kind, 404, Some("{}".to_string())), Ok(Outcome::Starred(false)));
    assert_eq!(
        interpret_response(kind, 200, Some("{}".to_string())),
        Err(GistError::ApiError { status: 200, message: UNEXPECTED_STAR_STATUS.to_string() })
    );
    assert_eq!(
        interpret_response(kind, 500, Some("boom".to_string())),
        Err(GistError::ApiError { status: 500, message: "boom".to_string() })
    );
    assert_eq!(interpret_response(kind, 401, None), Err(GistError::Unauthorized));
}

#[test]
fn status_to_error_mapping() {
    for kind in [ResponseKind::JsonBody, ResponseKind::NoBody] {
        assert_eq!(interpret_response(kind, 401, Some("{\"message\":\"x\"}".to_string())), Err(GistError::Unauthorized));
        assert_eq!(interpret_response(kind, 404, Some("anything".to_string())), Err(GistError::NotFound));
        let body = "{\"message\":\"validation failed\"}";
        match interpret_response(kind, 422, Some(body.to_string())) {
            Err(GistError::ApiError { status, message }) => {
                assert_eq!(status, 422);
                assert!(message.contains(body));
            }
            other => panic!("unexpected {:?}", other),
        }
        assert_eq!(
            interpret_response(kind, 503, None),
            Err(GistError::ApiError { status: 503, message: UNKNOWN_ERROR.to_string() })
        );
    }
    assert_eq!(GistError::from_response(401, "x".to_string()), GistError::Unauthorized);
    assert_eq!(GistError::from_response(404, "x".to_string()), GistError::NotFound);
    assert_eq!(
        GistError::from_response(500, "x".to_string()),
        GistError::ApiError { status: 500, message: "x".to_string() }
    );
}

#[test]
fn delete_type_operations_return_no_value() {
    let c = client(None);
    for req in [c.delete_gist("g1"), c.delete_gist_comment("g1", 3), c.unstar_gist("g1"), c.star_gist("g1")] {
        assert_eq!(req.expect, ResponseKind::NoBody);
        assert_eq!(interpret_response(req.expect, 204, Some(String::new())), Ok(Outcome::Done));
        assert_eq!(interpret_response(req.expect, 204, Some("not json".to_string())), Ok(Outcome::Done));
        assert_eq!(interpret_response(req.expect, 200, None), Ok(Outcome::Done));
    }
}

#[test]
fn json_success_hands_back_body() {
    assert_eq!(
        interpret_response(ResponseKind::JsonBody, 201, Some("{\"id\":\"1\"}".to_string())),
        Ok(Outcome::Body("{\"id\":\"1\"}".to_string()))
    );
    assert_eq!(
        interpret_response(ResponseKind::JsonBody, 200, None),
        Err(GistError::RequestFailed(UNREADABLE_BODY.to_string()))
    );
}

#[test]
fn quoting_escapes_text() {
    let c = CreateComment { body: "a\"b\\c\n".to_string() };
    assert_eq!(c.to_json().unwrap(), "{\"body\":\"a\\\"b\\\\c\\n\"}");
    let c = UpdateComment { body: String::new() };
    assert_eq!(c.to_json().unwrap(), "{\"body\":\"\"}");
    assert_eq!(render_object(&vec![]), "{}");
    assert_eq!(render_object(&vec!["\"a\":1".to_string(), "\"b\":2".to_string()]), "{\"a\":1,\"b\":2}");
}

#[test]
fn timestamp_checks_nanoseconds() {
    assert_eq!(Timestamp::new(1_700_000_000, 5), Some(Timestamp { seconds: 1_700_000_000, nanos: 5 }));
    assert_eq!(Timestamp::new(0, 1_000_000_000), Some(Timestamp { seconds: 0, nanos: 1_000_000_000 }));
    assert_eq!(Timestamp::new(0, 2_000_000_000), None);
}

#[test]
fn error_descriptions() {
    assert_eq!(
        GistError::ApiError { status: 422, message: "bad".to_string() }.description(),
        "API error (status 422): bad"
    );
    assert_eq!(GistError::Unauthorized.description(), "Authentication required");
    assert_eq!(GistError::NotFound.description(), "Resource not found");
    assert_eq!(GistError::RequestFailed("dns".to_string()).description(), "HTTP request failed: dns");
    assert_eq!(
        GistError::JsonError("eof".to_string()).description(),
        "JSON serialization/deserialization failed: eof"
    );
    assert_eq!(GistError::InvalidInput("id".to_string()).description(), "Invalid input: id");
    assert_eq!(GistError::FileError("io".to_string()).description(), "File operation error: io");
}

#[test]
fn adding_a_file_twice_replaces_it() {
    let mut g = CreateGist { description: None, public: None, files: vec![] };
    g.add_file("a.txt".to_string(), GistFile { content: Some("1".to_string()), ..Default::default() });
    g.add_file("b.txt".to_string(), GistFile { content: Some("2".to_string()), ..Default::default() });
    g.add_file("a.txt".to_string(), GistFile { content: Some("3".to_string()), ..Default::default() });
    assert_eq!(g.files.len(), 2);
    assert_eq!(g.files[0].0, "a.txt");
    assert_eq!(g.files[0].1.content.as_deref(), Some("3"));
    assert_eq!(g.files[1].0, "b.txt");
}

#[test]
fn changing_files_of_an_update() {
    let mut u = UpdateGist { description: None, public: None, files: None };
    u.change_file("old.txt".to_string(), None);
    u.change_file("new.txt".to_string(), Some(GistFile { content: Some("n".to_string()), ..Default::default() }));
    u.change_file("old.txt".to_string(), None);
    let files = u.files.as_ref().unwrap();
    assert_eq!(files.len(), 2);
    assert!(files[0].1.is_none());
    assert_eq!(u.to_json().unwrap(), "{\"files\":{\"old.txt\":null,\"new.txt\":{\"content\":\"n\"}}}");
}

#[test]
fn multipart_body_is_carried() {
    let c = client(Some("t"));
    let req = c.build_request(
        HttpMethod::Post,
        "/upload",
        RequestBody::Multipart(vec![("field".to_string(), "value".to_string())]),
        ResponseKind::JsonBody,
    );
    assert_eq!(req.url, "https://example.test/upload");
    assert!(header(&req.headers, "Content-Type").is_none());
    assert_eq!(header(&req.headers, "Authorization"), Some("Bearer t"));
    assert!(matches!(req.body, RequestBody::Multipart(ref p) if p.len() == 1));
}

#[test]
fn duplicate_names_are_detected() {
    let f = GistFile { content: Some("x".to_string()), ..Default::default() };
    let g = CreateGist {
        description: None,
        public: None,
        files: vec![("a".to_string(), f.clone()), ("a".to_string(), f.clone())],
    };
    assert!(!g.is_wf());
    let g = CreateGist { description: None, public: None, files: vec![("a".to_string(), f.clone()), ("b".to_string(), f)] };
    assert!(g.is_wf());
    let u = UpdateGist { description: None, public: None, files: Some(vec![("a".to_string(), None), ("a".to_string(), None)]) };
    assert!(!u.is_wf());
    assert!(UpdateGist { description: None, public: None, files: None }.is_wf());
}

#[test]
fn gist_with_no_files_is_still_sent() {
    let req = client(None).create_gist(&CreateGist { description: None, public: None, files: vec![] }).unwrap();
    let RequestBody::Json(text) = &req.body else { panic!("expected JSON") };
    assert_eq!(text, "{\"files\":{}}");
}

#[test]
fn control_characters_are_escaped() {
    let c = CreateComment { body: "\u{1}\u{8}\u{c}\r\u{1f}\u{7f}é".to_string() };
    assert_eq!(c.to_json().unwrap(), "{\"body\":\"\\u0001\\b\\f\\r\\u001f\u{7f}é\"}");
}

#[test]
fn text_read_only_when_used() {
    assert!(needs_text(ResponseKind::JsonBody, 200));
    assert!(!needs_text(ResponseKind::NoBody, 204));
    assert!(needs_text(ResponseKind::NoBody, 500));
    assert!(!needs_text(ResponseKind::StarStatus, 204));
    assert!(!needs_text(ResponseKind::StarStatus, 404));
    assert!(needs_text(ResponseKind::StarStatus, 422));
}
