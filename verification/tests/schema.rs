use std::collections::BTreeMap;

use adp_config::config_system::validate::{Pipeline, PipelineAffinity, Severity};
use adp_config::schema::classifier;
use adp_config::schema::docs::{
    classify_pipeline, collect_issue, parse_issue_number, parse_u64, render_docs_block, render_documentation,
    render_three_col_table, render_two_col_table, ThreeColRow, TwoColRow,
};
use adp_config::schema::fields::{escape_str, FieldInfo, FieldType};
use adp_config::schema::overlay::{
    Investigate, OverlaySupportLevel, OverlayValueType, SchemaOverlay, Supported, Unsupported,
};
use adp_config::schema::registry::{
    emit_datadog_annotation, emit_saluki_annotation, generate, generate_in_tree, generate_mod_rs_in_tree,
    generate_unsupported_rs, registry_files, saluki_entries, stem_of, validate_saluki_entries,
    yaml_path_to_const, SalukiEntry,
};

fn strings(items: &[&str]) -> Vec<String> {
    items.iter().map(|s| s.to_string()).collect()
}

fn port_entry() -> Supported {
    Supported {
        support_level: OverlaySupportLevel::Full,
        pipelines: PipelineAffinity::Pipelines(vec![Pipeline::DogStatsD]),
        description: "The port.".to_string(),
        documentation: Some("  Listens on UDP.  ".to_string()),
        issue: Some("#0007".to_string()),
        additional_yaml_paths: strings(&["dsd.port"]),
        env_var_override: Some(strings(&["DD_X\"Y"])),
        used_by: strings(&["DOGSTATSD_CONFIGURATION"]),
        value_type_override: Some(OverlayValueType::Integer),
        test_json: Some("{\"a\":1}".to_string()),
        registry_filename: Some("dogstatsd.rs".to_string()),
    }
}

fn overlay_with(supported: Vec<(String, Supported)>) -> SchemaOverlay {
    SchemaOverlay {
        supported,
        unsupported: vec![(
            "secret_backend".to_string(),
            Unsupported {
                severity: Severity::High,
                pipelines: PipelineAffinity::CrossCutting,
                description: "Secrets.".to_string(),
                documentation: None,
                issue: Some("#12".to_string()),
                planned: true,
            },
        )],
        investigate: vec![
            (
                "odd.key".to_string(),
                Investigate { severity: Some(Severity::Low), description: "Odd.".to_string(), issue: None },
            ),
            ("unknown.key".to_string(), Investigate { severity: None, description: "Unknown.".to_string(), issue: None }),
        ],
        ignored: strings(&["ignored.key"]),
    }
}

#[test]
fn constant_names_uppercase_the_path() {
    assert_eq!(yaml_path_to_const("apm_config.obfuscation-sql.dbms"), "APM_CONFIG_OBFUSCATION_SQL_DBMS");
    assert_eq!(yaml_path_to_const("dogstatsd_port"), "DOGSTATSD_PORT");
}

#[test]
fn stems_drop_every_trailing_rs_suffix() {
    assert_eq!(stem_of("dogstatsd.rs"), "dogstatsd");
    assert_eq!(stem_of("a.rs.rs"), "a");
    assert_eq!(stem_of("notes.txt"), "notes.txt");
    assert_eq!(stem_of(".rs"), "");
}

#[test]
fn datadog_annotation_lists_every_field() {
    let mut out = String::new();
    emit_datadog_annotation(&mut out, "dogstatsd_port", &port_entry());
    let expected = r#"    /// `dogstatsd_port`-The port.
    DOGSTATSD_PORT = SalukiAnnotation {
        schema: &super::schema::DOGSTATSD_PORT,
        support_level: SupportLevel::Full,
        additional_yaml_paths: &["dsd.port"],
        env_var_override: Some(&["DD_X\"Y"]),
        used_by: &[structs::DOGSTATSD_CONFIGURATION],
        value_type_override: Some(ValueType::Integer),
        test_json: Some("{\"a\":1}"),
        pipeline_affinity: PipelineAffinity::Pipelines(&[Pipeline::DogStatsD]),
    };
"#;
    assert_eq!(out, expected);
}

#[test]
fn saluki_annotation_points_at_its_own_schema_entry() {
    let entries = saluki_entries();
    let counter = entries.iter().find(|e| e.yaml_path == "counter_expiry_seconds").unwrap();
    let mut out = String::new();
    emit_saluki_annotation(&mut out, counter);
    let expected = r#"    /// `counter_expiry_seconds`
    COUNTER_EXPIRY_SECONDS = SalukiAnnotation {
        schema: &COUNTER_EXPIRY_SECONDS_SCHEMA,
        support_level: SupportLevel::Full,
        additional_yaml_paths: &["dogstatsd_expiry_seconds"],
        env_var_override: None,
        used_by: &[structs::AGGREGATE_CONFIGURATION],
        value_type_override: None,
        test_json: None,
        pipeline_affinity: PipelineAffinity::Pipelines(&[Pipeline::DogStatsD, Pipeline::Checks]),
    };
"#;
    assert_eq!(out, expected);
}

#[test]
fn saluki_table_has_thirty_keys() {
    assert_eq!(saluki_entries().len(), 30);
}

#[test]
fn unsupported_source_covers_investigated_keys_with_a_severity() {
    let overlay = overlay_with(Vec::new());
    let text = generate_unsupported_rs(&overlay, "");
    assert!(text.starts_with("// @generated by build.rs from schema_overlay.yaml — DO NOT EDIT\ncrate::declare_annotations! {\n"));
    assert!(text.contains("        support_level: SupportLevel::Incompatible(Severity::High),\n"));
    assert!(text.contains("    ODD_KEY = SalukiAnnotation {\n"));
    assert!(text.contains("        support_level: SupportLevel::Incompatible(Severity::Low),\n"));
    assert!(!text.contains("UNKNOWN_KEY"));
    assert!(text.ends_with("    };\n}\n"));
}

#[test]
fn registry_files_are_sorted_and_distinct() {
    let overlay = overlay_with(vec![
        ("dogstatsd_port".to_string(), port_entry()),
        ("other".to_string(), Supported { registry_filename: Some("dogstatsd.rs".to_string()), ..port_entry() }),
    ]);
    let files = registry_files(&overlay, &saluki_entries());
    assert_eq!(
        files,
        strings(&["aggregate.rs", "dogstatsd.rs", "dogstatsd_mapper.rs", "encoders.rs", "otlp.rs", "trace_obfuscation.rs"])
    );
}

#[test]
fn in_tree_module_declares_each_file() {
    let overlay = overlay_with(vec![("dogstatsd_port".to_string(), port_entry())]);
    let text = generate_mod_rs_in_tree(&overlay, &Vec::new());
    assert!(text.contains("#[allow(dead_code)]\nmod schema;\n\nmod dogstatsd;\n\npub(super) mod unsupported;\n"));
    assert!(text.contains("    v.extend_from_slice(dogstatsd::ALL);\n"));
}

#[test]
fn saluki_keys_may_not_collide_with_overlay_keys() {
    let entries = saluki_entries();
    let clean = overlay_with(Vec::new());
    assert!(validate_saluki_entries(&clean, &entries).is_ok());

    let mut clashing = overlay_with(Vec::new());
    clashing.ignored.push("otlp_cached_tagsets_limit".to_string());
    assert_eq!(
        validate_saluki_entries(&clashing, &entries).unwrap_err(),
        "Saluki entry 'otlp_cached_tagsets_limit' collides with a vendored schema key in the overlay — it should use the schema entry instead of a hard-coded SchemaEntry"
    );
}

#[test]
fn generation_writes_every_source_in_order() {
    let overlay = overlay_with(vec![("dogstatsd_port".to_string(), port_entry())]);
    let settings = vec![
        ("zeta".to_string(), FieldInfo { value_type: FieldType::Unknown, env_vars: Vec::new(), default: None }),
        (
            "dogstatsd_port".to_string(),
            FieldInfo { value_type: FieldType::Integer, env_vars: strings(&["DD_DOGSTATSD_PORT"]), default: Some("8125".to_string()) },
        ),
    ];
    let files = generate(&overlay, settings, &saluki_entries()).unwrap();
    let names: Vec<&str> = files.iter().map(|(n, _)| n.as_str()).collect();
    assert_eq!(
        names,
        vec![
            "schema.rs",
            "aggregate.rs",
            "dogstatsd.rs",
            "dogstatsd_mapper.rs",
            "encoders.rs",
            "otlp.rs",
            "trace_obfuscation.rs",
            "unsupported.rs",
            "mod.rs"
        ]
    );
    let schema = &files[0].1;
    let expected_schema = "// @generated by build.rs from core_schema.yaml + schema_overlay.yaml — DO NOT EDIT\n\npub const DOGSTATSD_PORT: SchemaEntry = SchemaEntry {\n    schema: Schema::Datadog,\n    yaml_path: \"dogstatsd_port\",\n    env_vars: &[\"DD_DOGSTATSD_PORT\"],\n    value_type: ValueType::Integer,\n    default: Some(\"8125\"),\n};\n\n// TODO: unknown type for 'zeta' — set value_type_override in the annotation\npub const ZETA: SchemaEntry = SchemaEntry {\n    schema: Schema::Datadog,\n    yaml_path: \"zeta\",\n    env_vars: &[],\n    value_type: ValueType::String,\n    default: None,\n};\n\n";
    assert_eq!(schema, expected_schema);
    let dogstatsd = &files[2].1;
    assert!(dogstatsd.contains("static DOGSTATSD_TCP_PORT_SCHEMA: SchemaEntry = SchemaEntry {\n    schema: Schema::Saluki,\n"));
    assert!(dogstatsd.contains("    DOGSTATSD_PORT = SalukiAnnotation {\n"));
    assert!(files[8].1.contains("mod dogstatsd_mapper {\n"));

    let in_tree = generate_in_tree(&overlay, Vec::new(), &saluki_entries()).unwrap();
    assert!(in_tree[0].1.contains("DO NOT EDIT\n#[allow(unused_imports)]\nuse super::*;\n\n\n"));
}

#[test]
fn generation_requires_a_registry_file_for_each_supported_key() {
    let unfiled = Supported { registry_filename: None, ..port_entry() };
    let overlay = overlay_with(vec![("dogstatsd_port".to_string(), unfiled)]);
    assert_eq!(
        generate(&overlay, Vec::new(), &Vec::new()).unwrap_err(),
        "supported key 'dogstatsd_port' missing config_registry_filename"
    );
}

#[test]
fn classifier_lists_each_classified_key() {
    let overlay = overlay_with(vec![("dogstatsd_port".to_string(), port_entry())]);
    let settings = vec![(
        "dogstatsd_port".to_string(),
        FieldInfo { value_type: FieldType::Integer, env_vars: Vec::new(), default: Some("8125".to_string()) },
    )];
    let no_saluki: Vec<SalukiEntry> = Vec::new();
    let text = classifier::generate(&overlay, &settings, &no_saluki).unwrap();
    let expected = r#"// @generated by build.rs from core_schema.yaml + schema_overlay.yaml — DO NOT EDIT

pub(crate) static CLASSIFIER_ENTRIES: &[ClassifierEntry] = &[
    ClassifierEntry {
        yaml_path: "dogstatsd_port",
        aliases: &["dsd.port"],
        support_level: SupportLevel::Full,
        pipeline_affinity: PipelineAffinity::Pipelines(&[Pipeline::DogStatsD]),
        default: Some("8125"),
    },
    ClassifierEntry {
        yaml_path: "secret_backend",
        aliases: &[],
        support_level: SupportLevel::Incompatible(Severity::High),
        pipeline_affinity: PipelineAffinity::CrossCutting,
        default: None,
    },
    ClassifierEntry {
        yaml_path: "odd.key",
        aliases: &[],
        support_level: SupportLevel::Incompatible(Severity::Low),
        pipeline_affinity: PipelineAffinity::CrossCutting,
        default: None,
    },
];
"#;
    assert_eq!(text, expected);
}

#[test]
fn classifier_refuses_saluki_keys_under_investigation() {
    let mut overlay = overlay_with(Vec::new());
    overlay.investigate.push(("flush_timeout_secs".to_string(), Investigate { severity: None, description: String::new(), issue: None }));
    let err = classifier::generate(&overlay, &Vec::new(), &saluki_entries()).unwrap_err();
    assert!(err.starts_with("Saluki entry 'flush_timeout_secs' collides"));
    assert!(err.ends_with("instead of a hard-coded entry"));
    // The registry checks only supported, unsupported and ignored keys.
    assert!(validate_saluki_entries(&overlay, &saluki_entries()).is_ok());
}

#[test]
fn escaping_handles_quotes_and_backslashes() {
    assert_eq!(escape_str(r#"a"b\c"#), r#"a\"b\\c"#);
}

#[test]
fn pipelines_choose_a_section() {
    assert_eq!(classify_pipeline(&PipelineAffinity::CrossCutting), "cross_cutting");
    assert_eq!(classify_pipeline(&PipelineAffinity::Pipelines(vec![Pipeline::Otlp])), "otlp");
    assert_eq!(classify_pipeline(&PipelineAffinity::Pipelines(vec![Pipeline::Otlp, Pipeline::Traces])), "cross_cutting");
}

#[test]
fn tables_pad_each_column_to_its_widest_cell() {
    let rows = vec![
        TwoColRow { key: "`a`".to_string(), description: "Alpha".to_string() },
        TwoColRow { key: "`bb`".to_string(), description: "B".to_string() },
    ];
    assert_eq!(
        render_two_col_table(["Config Key", "Description"], &rows),
        "| Config Key | Description |\n| ---------- | ----------- |\n| `a`        | Alpha       |\n| `bb`       | B           |\n"
    );
    assert_eq!(render_two_col_table(["Config Key", "Description"], &Vec::new()), "");
    let rows3 = vec![ThreeColRow { key: "k".to_string(), description: "d".to_string(), extra: "[#1]".to_string() }];
    assert_eq!(render_three_col_table(["A", "B", "Issue"], &rows3), "| A | B | Issue |\n| - | - | ----- |\n| k | d | [#1]  |\n");
}

#[test]
fn issue_numbers_follow_the_hash() {
    assert_eq!(parse_issue_number("#0001"), Some(1));
    assert_eq!(parse_issue_number("#+5"), Some(5));
    assert_eq!(parse_issue_number("0001"), None);
    assert_eq!(parse_issue_number("#x"), None);
    assert_eq!(parse_u64("18446744073709551615"), Some(u64::MAX));
    assert_eq!(parse_u64("18446744073709551616"), None);
    assert_eq!(parse_u64(""), None);
}

#[test]
fn the_first_reference_to_an_issue_is_kept() {
    let mut issues = BTreeMap::new();
    assert_eq!(collect_issue(&Some("#0003".to_string()), &mut issues), "[#0003]");
    assert_eq!(collect_issue(&Some("#3".to_string()), &mut issues), "[#3]");
    assert_eq!(collect_issue(&None, &mut issues), "");
    assert_eq!(issues.get(&3).map(|s| s.as_str()), Some("#0003"));
    assert_eq!(issues.len(), 1);
}

#[test]
fn docs_blocks_trim_each_documentation() {
    assert_eq!(render_docs_block(&vec![("k", "  text \n")]), "### `k`\n\ntext\n\n");
}

#[test]
fn documentation_renders_the_template_context() {
    let overlay = overlay_with(vec![("dogstatsd_port".to_string(), port_entry())]);
    let rendered = render_documentation(
        "{dogstatsd_transparent_table}--{dogstatsd_transparent_docs}--{cross_cutting_working_on_table}--{issue_references}",
        &overlay,
    )
    .unwrap();
    assert_eq!(
        rendered,
        "| Config Key       | Description |\n| ---------------- | ----------- |\n| `dogstatsd_port` | The port.   |\n--### `dogstatsd_port`\n\nListens on UDP.\n\n--| Config Key       | Description | Issue |\n| ---------------- | ----------- | ----- |\n| `secret_backend` | Secrets.    | [#12] |\n--[#0007]: https://github.com/DataDog/saluki/issues/7\n[#12]: https://github.com/DataDog/saluki/issues/12\n"
    );
    assert!(render_documentation("{unclosed", &overlay).is_err());
}

#[test]
fn saluki_table_spells_out_each_key() {
    let entries = saluki_entries();

    let first = &entries[0];
    assert_eq!(first.yaml_path, "dogstatsd_allow_context_heap_allocs");
    assert_eq!(first.value_type, "ValueType::Bool");
    assert_eq!(first.schema_default.as_deref(), Some("true"));
    assert!(first.env_vars.is_empty());
    assert!(first.env_var_override.is_none());
    assert_eq!(first.used_by, vec!["DOGSTATSD_CONFIGURATION".to_string()]);
    assert_eq!(first.filename, "dogstatsd.rs");

    let flush = entries.iter().find(|e| e.yaml_path == "aggregate_flush_interval").unwrap();
    assert_eq!(flush.test_json.as_deref(), Some(r#"{"secs": 42, "nanos": 0}"#));
    assert_eq!(flush.filename, "aggregate.rs");

    let timeout = entries.iter().find(|e| e.yaml_path == "flush_timeout_secs").unwrap();
    assert_eq!(timeout.used_by.len(), 3);
    assert_eq!(
        timeout.pipeline_affinity,
        "PipelineAffinity::Pipelines(&[Pipeline::Checks, Pipeline::Traces, Pipeline::DogStatsD])"
    );
    assert_eq!(timeout.filename, "encoders.rs");

    let last = &entries[29];
    assert_eq!(last.yaml_path, "dogstatsd_mapper_string_interner_size");
    assert_eq!(last.filename, "dogstatsd_mapper.rs");
}
