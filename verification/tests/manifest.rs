use tokio::runtime::Runtime;

fn runtime() -> Runtime {
    tokio::runtime::Builder::new_current_thread().build().expect("a runtime starts")
}

fn source_files(runtime: &Runtime, dir: &str, out: &mut Vec<String>) {
    let mut entries = runtime.block_on(tokio::fs::read_dir(dir)).expect("the directory is readable");
    while let Some(entry) = runtime.block_on(entries.next_entry()).expect("an entry is readable") {
        let path = entry.path();
        let name = path.to_string_lossy().to_string();
        if runtime.block_on(entry.file_type()).expect("a file type").is_dir() {
            source_files(runtime, &name, out);
        } else if name.ends_with(".rs") {
            out.push(name);
        }
    }
}

#[test]
fn cargo_toml_does_not_take_source_model_dependencies() {
    let runtime = runtime();
    // The manifest, where the crate is built from its package directory.
    if let Ok(manifest) = runtime.block_on(tokio::fs::read_to_string("Cargo.toml")) {
        assert!(!manifest.contains("datadog-agent-config"));
        assert!(!manifest.contains("saluki-config"));
    }
    // The library's sources name neither crate.
    let mut files = Vec::new();
    source_files(&runtime, "src", &mut files);
    assert!(!files.is_empty());
    for file in files {
        let text = runtime.block_on(tokio::fs::read_to_string(&file)).expect("a source file is readable");
        assert!(!text.contains("datadog_agent_config::"), "{file}");
        assert!(!text.contains("saluki_config::"), "{file}");
    }
}
