use std::path::PathBuf;
use std::time::Duration;

use adp_config::config::cli::DogStatsDCliConfiguration;
use adp_config::config::native::{ControlPlaneConfiguration, EnvironmentConfiguration};
use adp_config::json::{lookup, read_bool, JsonValue};
use adp_config::remote_config::error::Error;
use adp_config::schema::fields::{parse_value_type, schema_settings, yaml_value_to_json_str, FieldType};
use adp_config::schema::prelude::{classify, Shorten};
use adp_config::schema::registry::yaml_path_to_const;
use adp_config::text::{decimal_string, to_ascii_lowercase, trim};
use adp_config::total_config::log_level;

fn obj(members: Vec<(&str, JsonValue)>) -> JsonValue {
    JsonValue::Object(members.into_iter().map(|(k, v)| (k.to_string(), v)).collect())
}

fn s(text: &str) -> JsonValue {
    JsonValue::String(text.to_string())
}

#[test]
fn text_helpers_match_std() {
    assert_eq!(trim("\u{3000} a b \n"), "a b");
    assert_eq!(to_ascii_lowercase("ÄbC"), "Äbc");
    assert_eq!(log_level("ÄbC"), "äbc");
    assert_eq!(yaml_path_to_const("straße.x"), "STRASSE_X");
    assert_eq!(decimal_string(0), "0");
    assert_eq!(decimal_string(18446744073709551615), "18446744073709551615");
}

#[test]
fn error_messages_format_durations() {
    assert_eq!(
        Error::InvalidPollInterval { poll_interval: Duration::from_millis(500) }.message(),
        "poll_interval must be at least one second; got 500ms."
    );
    assert_eq!(
        Error::InvalidMaxBackoff { poll_interval: Duration::from_secs(5), max_backoff: Duration::from_secs(1) }.message(),
        "max_backoff must be at least poll_interval (5s); got 1s."
    );
    assert_eq!(
        Error::AlreadySubscribed { product: "APM_SEMANTIC_CORE_DD".to_string() }.message(),
        "Product APM_SEMANTIC_CORE_DD is already subscribed on this client."
    );
}

#[test]
fn json_lookup_follows_object_keys() {
    let doc = obj(vec![("a", obj(vec![("b", JsonValue::Bool(true))])), ("a", JsonValue::Null)]);
    assert_eq!(lookup(&doc, &vec!["a", "b"]), Some(&JsonValue::Bool(true)));
    assert_eq!(lookup(&doc, &vec!["a", "c"]), None);
    assert_eq!(lookup(&doc, &vec![]), Some(&doc));
    assert!(read_bool(&doc, &vec!["a", "b"], false));
    assert!(read_bool(&doc, &vec!["x"], true));
}

#[test]
fn schema_value_types_follow_the_type_key() {
    assert_eq!(parse_value_type(&obj(vec![("type", s("boolean"))])), FieldType::Bool);
    assert_eq!(parse_value_type(&obj(vec![("type", s("number"))])), FieldType::Float);
    assert_eq!(parse_value_type(&obj(vec![("type", s("array")), ("items", obj(vec![("type", s("string"))]))])), FieldType::StringList);
    assert_eq!(parse_value_type(&obj(vec![("type", s("array")), ("items", obj(vec![("type", s("integer"))]))])), FieldType::Unknown);
    assert_eq!(parse_value_type(&obj(vec![])), FieldType::Unknown);
}

#[test]
fn schema_defaults_are_written_as_json() {
    assert_eq!(yaml_value_to_json_str(&JsonValue::Null), None);
    assert_eq!(yaml_value_to_json_str(&JsonValue::Bool(true)).as_deref(), Some("true"));
    assert_eq!(yaml_value_to_json_str(&JsonValue::Number("8125".to_string())).as_deref(), Some("8125"));
    assert_eq!(yaml_value_to_json_str(&s("a\"b")).as_deref(), Some("\"a\\\"b\""));
    assert_eq!(
        yaml_value_to_json_str(&JsonValue::Array(vec![s("x"), JsonValue::Bool(false)])).as_deref(),
        Some("[\"x\",false]")
    );
    assert_eq!(yaml_value_to_json_str(&JsonValue::Array(vec![JsonValue::Null])), None);
    assert_eq!(yaml_value_to_json_str(&obj(vec![])).as_deref(), Some("{}"));
    assert_eq!(yaml_value_to_json_str(&obj(vec![("k", JsonValue::Null)])), None);
}

#[test]
fn schema_settings_are_collected_in_path_order() {
    let doc = obj(vec![(
        "properties",
        obj(vec![
            (
                "zeta",
                obj(vec![
                    ("node_type", s("setting")),
                    ("type", s("integer")),
                    ("env_vars", JsonValue::Array(vec![s("DD_ZETA")])),
                    ("default", JsonValue::Number("3".to_string())),
                ]),
            ),
            (
                "alpha",
                obj(vec![
                    ("node_type", s("section")),
                    (
                        "properties",
                        obj(vec![(
                            "beta",
                            obj(vec![
                                ("node_type", s("setting")),
                                ("type", s("string")),
                                ("tags", JsonValue::Array(vec![s("no-env")])),
                                ("env_vars", JsonValue::Array(vec![s("DD_ALPHA_BETA")])),
                            ]),
                        )]),
                    ),
                ]),
            ),
        ]),
    )]);
    let settings = schema_settings(&doc).unwrap();
    let paths: Vec<&str> = settings.iter().map(|(p, _)| p.as_str()).collect();
    assert_eq!(paths, vec!["alpha.beta", "zeta"]);
    assert_eq!(settings[0].1.value_type, FieldType::String);
    assert!(settings[0].1.env_vars.is_empty());
    assert_eq!(settings[1].1.env_vars, vec!["DD_ZETA".to_string()]);
    assert_eq!(settings[1].1.default.as_deref(), Some("3"));
    assert!(schema_settings(&obj(vec![])).is_none());
}

#[test]
fn std_paths_are_shortened() {
    assert_eq!(classify(&vec!["std", "option", "Option"]), Shorten::Yes);
    assert_eq!(classify(&vec!["std", "collections", "HashMap"]), Shorten::YesHashMap);
    assert_eq!(classify(&vec!["std", "collections", "BTreeMap"]), Shorten::No);
    assert_eq!(classify(&vec!["Option"]), Shorten::No);
}

#[test]
fn configuration_values_are_returned_as_given() {
    let cli = DogStatsDCliConfiguration::new(Some(PathBuf::from("/tmp/dsd.sock")));
    assert_eq!(cli.dogstatsd_socket_path(), Some(&PathBuf::from("/tmp/dsd.sock")));
    assert_eq!(DogStatsDCliConfiguration::new(None).dogstatsd_socket_path(), None);
    let cp = ControlPlaneConfiguration::new(PathBuf::from("/etc/ipc.crt"));
    assert_eq!(cp.ipc_cert_file_path(), &PathBuf::from("/etc/ipc.crt"));
    let env = EnvironmentConfiguration::new("host-1".to_string(), Duration::from_secs(60));
    assert_eq!(env.hostname(), "host-1");
    assert_eq!(env.host_tags_expected_tags_duration(), Duration::from_secs(60));
}

#[test]
fn trim_removes_unicode_white_space_only() {
    let text = "\u{a0}\u{85}\u{2009}x\u{180e}\u{202f}";
    assert_eq!(trim(text), "x\u{180e}");
    assert_eq!(trim(text), text.trim());
}

#[test]
fn default_dogstatsd_cli_configuration_has_no_socket_path() {
    assert_eq!(DogStatsDCliConfiguration::default().dogstatsd_socket_path(), None);
}
