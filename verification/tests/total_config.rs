use adp_config::total_config::{log_level, min_tls_version, non_empty, proxy_config, TlsVersion};

#[test]
fn logs_level_is_set() {
    assert_eq!(log_level("debug"), "debug");
}

#[test]
fn log_level_is_lowercased() {
    assert_eq!(log_level("WARN"), "warn");
    assert_eq!(log_level("Info"), "info");
}

#[test]
fn min_tls_version_clamps_old_versions_to_1_2() {
    // 1.0 and 1.1 are accepted for compatibility but clamped up to 1.2.
    for v in ["tlsv1.0", "TLSv1.0", "tlsv1.1"] {
        assert_eq!(min_tls_version(v), TlsVersion::Tls12, "{v} should clamp to 1.2");
    }
}

#[test]
fn min_tls_version_passes_through_1_2_and_1_3() {
    assert_eq!(min_tls_version("tlsv1.2"), TlsVersion::Tls12);
    assert_eq!(min_tls_version("TLSv1.3"), TlsVersion::Tls13);
}

#[test]
fn min_tls_version_unknown_falls_back_to_1_2() {
    assert_eq!(min_tls_version("bogus"), TlsVersion::Tls12);
}

#[test]
fn min_tls_version_trims_whitespace_and_case() {
    assert_eq!(min_tls_version("  TLSv1.3 "), TlsVersion::Tls13);
}

#[test]
fn proxy_three_fields_assemble_into_one_struct() {
    let proxy = proxy_config(
        "http://proxy:3128".to_string(),
        "https://proxy:3129".to_string(),
        vec!["localhost".to_string(), "169.254.169.254".to_string()],
    );
    assert_eq!(proxy.http.as_deref(), Some("http://proxy:3128"));
    assert_eq!(proxy.https.as_deref(), Some("https://proxy:3129"));
    assert_eq!(proxy.no_proxy, vec!["localhost".to_string(), "169.254.169.254".to_string()]);
}

#[test]
fn proxy_empty_strings_become_none() {
    // The schema uses "" as the unset sentinel for proxy URLs.
    let proxy = proxy_config(String::new(), String::new(), Vec::new());
    assert_eq!(proxy.http, None);
    assert_eq!(proxy.https, None);
}

#[test]
fn dogstatsd_socket_empty_string_is_none() {
    // An explicit empty socket path disables UDS, same as absence.
    assert_eq!(non_empty(String::new()), None);
    assert_eq!(non_empty("/var/run/dsd.sock".to_string()).as_deref(), Some("/var/run/dsd.sock"));
}
