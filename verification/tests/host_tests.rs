use miaogu_notepad::host::{
    app_path_info, argument_names_document, document_arguments, proxy_rules, AppPathInfo,
    ImageLoadResult, ProxyConfig, ProxyRule,
};

fn s(text: &str) -> String {
    text.to_string()
}

#[test]
fn default_proxy_config_is_direct() {
    let c = ProxyConfig::default();
    assert_eq!(
        c,
        ProxyConfig { enabled: false, http_proxy: None, https_proxy: None, no_proxy: None }
    );
}

#[test]
fn proxy_config_from_environment() {
    let c = ProxyConfig::from_environment(Some(s("http://p:1")), None, Some(s("localhost")));
    assert!(c.enabled);
    assert_eq!(c.http_proxy, Some(s("http://p:1")));
    assert_eq!(c.https_proxy, None);
    assert_eq!(c.no_proxy, Some(s("localhost")));
    assert!(ProxyConfig::from_environment(None, Some(s("http://q:2")), None).enabled);
    assert!(!ProxyConfig::from_environment(None, None, Some(s("localhost"))).enabled);
    assert!(!ProxyConfig::from_environment(None, None, None).enabled);
}

#[test]
fn proxy_rules_in_order() {
    let c = ProxyConfig {
        enabled: true,
        http_proxy: Some(s("http://p:1")),
        https_proxy: Some(s("http://q:2")),
        no_proxy: Some(s("localhost,10.0.0.0/8")),
    };
    assert_eq!(
        proxy_rules(Some(c)),
        vec![
            ProxyRule::Http(s("http://p:1")),
            ProxyRule::Https(s("http://q:2")),
            ProxyRule::AllExcept { proxy: s("http://q:2"), no_proxy: s("localhost,10.0.0.0/8") },
        ]
    );
}

#[test]
fn proxy_rules_of_partial_configs() {
    let only_no_proxy = ProxyConfig {
        enabled: true,
        http_proxy: Some(s("http://p:1")),
        https_proxy: None,
        no_proxy: Some(s("localhost")),
    };
    assert_eq!(proxy_rules(Some(only_no_proxy)), vec![ProxyRule::Http(s("http://p:1"))]);
    let disabled = ProxyConfig {
        enabled: false,
        http_proxy: Some(s("http://p:1")),
        https_proxy: Some(s("http://q:2")),
        no_proxy: None,
    };
    assert_eq!(proxy_rules(Some(disabled)), Vec::<ProxyRule>::new());
    assert_eq!(proxy_rules(None), Vec::<ProxyRule>::new());
    assert_eq!(proxy_rules(Some(ProxyConfig::default())), Vec::<ProxyRule>::new());
}

#[test]
fn document_argument_filter() {
    assert!(argument_names_document("notes.txt"));
    assert!(argument_names_document("-"));
    assert!(argument_names_document("---"));
    assert!(argument_names_document("--verbose"));
    assert!(!argument_names_document(""));
    assert!(!argument_names_document("--"));
    assert!(!argument_names_document("--color"));
    assert!(!argument_names_document("--color=always"));
    assert!(!argument_names_document("--no-default-features"));
    assert!(!argument_names_document("--no-default-features-x"));
    assert!(argument_names_document("--colo"));
}

#[test]
fn document_arguments_skip_the_program() {
    let args = vec![s("notepad"), s("a.txt"), s("--"), s(""), s("--color=never"), s("b.md")];
    assert_eq!(document_arguments(&args), vec![s("a.txt"), s("b.md")]);
    assert_eq!(document_arguments(&vec![s("a.txt")]), Vec::<String>::new());
    assert_eq!(document_arguments(&Vec::new()), Vec::<String>::new());
}

#[test]
fn app_path_info_is_put_together() {
    assert_eq!(
        app_path_info(Ok(s("/opt/app/notepad")), Some(s("/opt/app")), Some(s("notepad"))),
        Ok(AppPathInfo {
            current_exe_path: s("/opt/app/notepad"),
            app_dir: s("/opt/app"),
            app_name: s("notepad"),
        })
    );
}

#[test]
fn app_path_info_errors() {
    assert_eq!(
        app_path_info(Err(s("gone")), Some(s("/opt/app")), Some(s("notepad"))),
        Err(s("Failed to get current exe path: gone"))
    );
    assert_eq!(
        app_path_info(Ok(s("/")), None, None),
        Err(s("Failed to get application directory"))
    );
    assert_eq!(
        app_path_info(Ok(s("/opt/..")), Some(s("/opt")), None),
        Err(s("Failed to get application name"))
    );
}

#[test]
fn image_failures() {
    assert_eq!(
        ImageLoadResult::request_failed("timed out"),
        ImageLoadResult {
            success: false,
            data: None,
            content_type: None,
            error: Some(s("Request failed: timed out")),
        }
    );
    assert_eq!(
        ImageLoadResult::body_failed("reset").error,
        Some(s("Failed to read response body: reset"))
    );
    assert_eq!(ImageLoadResult::for_status(200, "200 OK"), None);
    assert_eq!(ImageLoadResult::for_status(299, "299"), None);
    assert_eq!(
        ImageLoadResult::for_status(404, "404 Not Found"),
        Some(ImageLoadResult {
            success: false,
            data: None,
            content_type: None,
            error: Some(s("HTTP error: 404 Not Found")),
        })
    );
}

#[test]
fn image_loaded() {
    assert_eq!(
        ImageLoadResult::loaded(s("aGk="), Some(s("image/png"))),
        ImageLoadResult {
            success: true,
            data: Some(s("aGk=")),
            content_type: Some(s("image/png")),
            error: None,
        }
    );
}

#[test]
fn image_bytes_are_written_in_base64() {
    let r = ImageLoadResult::from_bytes(b"hi", Some(s("image/png")));
    assert!(r.success);
    assert_eq!(r.data, Some(s("aGk=")));
    assert_eq!(r.content_type, Some(s("image/png")));
    assert_eq!(r.error, None);
    assert_eq!(ImageLoadResult::from_bytes(b"", None).data, Some(s("")));
    assert_eq!(ImageLoadResult::from_bytes(&[0xff, 0xfe, 0xfd], None).data, Some(s("//79")));
    assert_eq!(ImageLoadResult::from_bytes(b"any carnal pleas", None).data, Some(s("YW55IGNhcm5hbCBwbGVhcw==")));
}
