use ffpipeline::input::{FfmpegInputArgs, HttpInputOptions, HttpInputSource, InputSource, LavfiInputSource, LocalInputSource};

#[test]
fn local_input_has_no_arguments() {
    let source = InputSource::Local(LocalInputSource { path: String::from("/media/a.mkv") });
    assert!(source.args_for_input().is_empty());
}

#[test]
fn lavfi_input_sets_the_format() {
    let source = InputSource::Lavfi(LavfiInputSource { params: String::from("testsrc") });
    assert_eq!(source.args_for_input(), vec!["-f", "lavfi"]);
}

#[test]
fn http_input_arguments() {
    let source = HttpInputSource {
        uri: String::from("http://example.com/live.ts"),
        options: HttpInputOptions {
            headers: vec![String::from("A: 1"), String::from("B: 2")],
            user_agent: Some(String::from("ffpipeline")),
            timeout_us: Some(5_000_000),
            reconnect: true,
            reconnect_delay_max: Some(4),
        },
    };
    assert_eq!(
        source.args_for_input(),
        vec![
            "-reconnect",
            "1",
            "-reconnect_on_network_error",
            "1",
            "-reconnect_streamed",
            "1",
            "-multiple_requests",
            "1",
            "-reconnect_delay_max",
            "4",
            "-timeout",
            "5000000",
            "-user_agent",
            "ffpipeline",
            "-headers",
            "A: 1\r\nB: 2\r\n",
            "-protocol_whitelist",
            "file,http,https,tcp,tls,crypto",
        ]
    );
}

#[test]
fn http_input_without_options_only_allows_protocols() {
    let source = InputSource::Http(HttpInputSource {
        uri: String::from("http://example.com/a.ts"),
        options: HttpInputOptions {
            headers: vec![],
            user_agent: None,
            timeout_us: None,
            reconnect: false,
            reconnect_delay_max: Some(4),
        },
    });
    assert_eq!(source.args_for_input(), vec!["-protocol_whitelist", "file,http,https,tcp,tls,crypto"]);
}

#[test]
fn expand_path_keeps_a_plain_path() {
    let source = LocalInputSource { path: String::from("/media/movies/a.mkv") };
    assert_eq!(source.expand_path(), Some(String::from("/media/movies/a.mkv")));
}

#[test]
fn expand_path_replaces_a_leading_tilde() {
    let source = LocalInputSource { path: String::from("~/movies/a.mkv") };
    let expanded = source.expand_path();
    assert_ne!(expanded, Some(String::from("~/movies/a.mkv")));
    if let Some(p) = expanded {
        assert!(p.ends_with("/movies/a.mkv"), "{p}");
        assert!(!p.starts_with('~'), "{p}");
    }
}
