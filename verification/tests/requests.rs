use bridge_shell::request::{frame_url_submission, Backend, Method, Payload, Request};

#[test]
fn local_backend_listens_on_port_8000() {
    let request = Backend::local().status_query("x");
    assert_eq!(request.url, "http://localhost:8000/status/x");
}

#[test]
fn local_backend_equals_the_one_at_its_address() {
    assert_eq!(Backend::local(), Backend::at("http://localhost:8000".to_string()));
}

#[test]
fn file_submission_posts_one_part_named_file() {
    let request = Backend::local().file_submission("clip.mp4".to_string(), vec![1, 2, 3]);
    assert_eq!(
        request,
        Request {
            method: Method::Post,
            url: "http://localhost:8000/process/file".to_string(),
            payload: Payload::FileForm {
                field: "file".to_string(),
                file_name: "clip.mp4".to_string(),
                content: vec![1, 2, 3],
            },
        }
    );
}

#[test]
fn url_submission_posts_the_url_with_empty_options() {
    let request = Backend::local().url_submission("http://example.com/a.mp4");
    assert_eq!(
        request,
        Request {
            method: Method::Post,
            url: "http://localhost:8000/process/url".to_string(),
            payload: Payload::Json {
                text: "{\"url\":\"http://example.com/a.mp4\",\"options\":{}}".to_string(),
            },
        }
    );
}

#[test]
fn url_submission_escapes_what_json_asks_for() {
    let request = Backend::local().url_submission("a\"b\\c\nd\u{1}e/é");
    assert_eq!(
        request.payload,
        Payload::Json {
            text: "{\"url\":\"a\\\"b\\\\c\\nd\\u0001e/é\",\"options\":{}}".to_string(),
        }
    );
}

#[test]
fn url_submission_does_not_check_the_url() {
    let request = Backend::local().url_submission("");
    assert_eq!(
        request.payload,
        Payload::Json { text: "{\"url\":\"\",\"options\":{}}".to_string() }
    );
    let request = Backend::local().url_submission("not a url");
    assert_eq!(
        request.payload,
        Payload::Json { text: "{\"url\":\"not a url\",\"options\":{}}".to_string() }
    );
}

#[test]
fn url_submission_body_reads_back_as_json() {
    let url = "http://example.com/a \"quoted\" name\\\t.mp4";
    let request = Backend::local().url_submission(url);
    let text = match request.payload {
        Payload::Json { text } => text,
        other => panic!("{:?}", other),
    };
    let document: serde_json::Value = serde_json::from_str(&text).unwrap();
    let object = document.as_object().unwrap();
    assert_eq!(object.len(), 2);
    assert_eq!(object["url"], serde_json::Value::String(url.to_string()));
    assert_eq!(object["options"], serde_json::Value::Object(serde_json::Map::new()));
}

#[test]
fn url_submission_body_reads_back_for_every_ascii_character() {
    for code in 0..128u8 {
        let url = format!("http://h/{}x", code as char);
        let request = Backend::local().url_submission(&url);
        let text = match request.payload {
            Payload::Json { text } => text,
            other => panic!("{:?}", other),
        };
        assert!(text.starts_with("{\"url\":\""), "{}", text);
        assert!(text.ends_with("\",\"options\":{}}"), "{}", text);
        let document: serde_json::Value = serde_json::from_str(&text).unwrap();
        assert_eq!(document["url"], serde_json::Value::String(url));
    }
}

#[test]
fn url_submission_quotes_a_url_without_escapes_as_it_is() {
    let backend = Backend::local();
    let plain = (0x20..=0xffffu32).chain([0x10000, 0x1f3ac, 0x10ffff]).filter_map(char::from_u32);
    for c in plain.filter(|c| *c != '"' && *c != '\\') {
        let url = format!("a{}b", c);
        let request = backend.url_submission(&url);
        let expected = format!("{{\"url\":\"a{}b\",\"options\":{{}}}}", c);
        assert_eq!(request.payload, Payload::Json { text: expected }, "{:?}", c);
    }
}

#[test]
fn url_submission_escapes_quote_backslash_and_controls() {
    let backend = Backend::local();
    for c in (0..0x20u32).filter_map(char::from_u32).chain(['"', '\\']) {
        let url = format!("a{}b", c);
        let request = backend.url_submission(&url);
        let unescaped = format!("{{\"url\":\"a{}b\",\"options\":{{}}}}", c);
        assert_ne!(request.payload, Payload::Json { text: unescaped }, "{:?}", c);
    }
}

#[test]
fn frame_url_submission_wraps_the_encoded_url() {
    assert_eq!(frame_url_submission("\"u\""), "{\"url\":\"u\",\"options\":{}}");
    assert_eq!(frame_url_submission(""), "{\"url\":,\"options\":{}}");
}

#[test]
fn status_query_gets_the_status_of_the_job() {
    let request = Backend::local().status_query("abc123");
    assert_eq!(
        request,
        Request {
            method: Method::Get,
            url: "http://localhost:8000/status/abc123".to_string(),
            payload: Payload::Empty,
        }
    );
}

#[test]
fn status_query_forwards_any_handle() {
    let request = Backend::local().status_query("no such job/../x y");
    assert_eq!(request.url, "http://localhost:8000/status/no such job/../x y");
    let request = Backend::local().status_query("");
    assert_eq!(request.url, "http://localhost:8000/status/");
}

#[test]
fn download_query_gets_job_and_format() {
    let request = Backend::local().download_query("abc123", "mp4");
    assert_eq!(
        request,
        Request {
            method: Method::Get,
            url: "http://localhost:8000/download/abc123/mp4".to_string(),
            payload: Payload::Empty,
        }
    );
}

#[test]
fn cancellation_deletes_the_job() {
    let request = Backend::local().cancellation("abc123");
    assert_eq!(
        request,
        Request {
            method: Method::Delete,
            url: "http://localhost:8000/job/abc123".to_string(),
            payload: Payload::Empty,
        }
    );
}

#[test]
fn requests_go_to_the_backend_given() {
    let backend = Backend::at("http://10.0.0.7:9000".to_string());
    assert_eq!(backend.status_query("j").url, "http://10.0.0.7:9000/status/j");
    assert_eq!(backend.download_query("j", "wav").url, "http://10.0.0.7:9000/download/j/wav");
    assert_eq!(backend.cancellation("j").url, "http://10.0.0.7:9000/job/j");
    assert_eq!(backend.url_submission("u").url, "http://10.0.0.7:9000/process/url");
    assert_eq!(
        backend.file_submission("f".to_string(), vec![]).url,
        "http://10.0.0.7:9000/process/file"
    );
}
