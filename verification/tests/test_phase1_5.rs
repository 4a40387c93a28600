use codetwin::config::{Config, ConfigDocument, ConfigError, Layer, LayerDocument};
use codetwin::toml_source::Entry;
use glob::Pattern;
use std::path::PathBuf;

#[test]
fn test_config_defaults() {
    let config = Config::defaults();

    assert!(
        !config.source_dirs.is_empty(),
        "Should have default source dirs"
    );
    assert!(
        !config.output_file.is_empty(),
        "Should have default output file"
    );
    assert!(!config.layout.is_empty(), "Should have default layout");
}

#[test]
fn test_config_has_exclude_patterns() {
    let config = Config::defaults();

    assert!(
        !config.exclude_patterns.is_empty() || !config.layers.is_empty(),
        "Should have some patterns configured"
    );
}

#[test]
fn test_pathbuf_conversion() {
    let path = PathBuf::from("src/drivers/rust.rs");
    let lossy_str = path.to_string_lossy();

    assert!(lossy_str.len() > 0, "Should convert to string");
    assert!(lossy_str.contains("src"), "Should preserve path components");
}

#[test]
fn config_defaults_in_full() {
    let config = Config::defaults();
    assert_eq!(config.source_dirs, vec!["src".to_string()]);
    assert_eq!(config.output_file, "docs/architecture.md");
    assert_eq!(config.layout, "dependency-graph");
    assert_eq!(
        config.exclude_patterns,
        vec![
            "**/target/**".to_string(),
            "**/node_modules/**".to_string(),
            "**/.git/**".to_string(),
            "**/tests/**".to_string(),
        ]
    );
    assert!(config.layers.is_empty());
}

#[test]
fn config_from_parts_fills_in_defaults() {
    let partial = Config::from_parts(None, Some("out/a.md".to_string()), None, None, vec![]);
    assert_eq!(partial.source_dirs, vec!["src".to_string()]);
    assert_eq!(partial.output_file, "out/a.md");
    assert_eq!(partial.layout, "dependency-graph");
    assert_eq!(partial.exclude_patterns.len(), 4);
    let full = Config::from_parts(
        Some(vec!["lib".to_string()]),
        None,
        Some("layered".to_string()),
        Some(vec![]),
        vec![Layer { name: "Core".to_string(), patterns: vec!["src/core/**".to_string()] }],
    );
    assert_eq!(full.source_dirs, vec!["lib".to_string()]);
    assert_eq!(full.output_file, "docs/architecture.md");
    assert_eq!(full.layout, "layered");
    assert!(full.exclude_patterns.is_empty());
    assert_eq!(full.layers.len(), 1);
}

#[test]
fn config_is_read_from_toml() {
    let text = r#"
source_dirs = ["src", 3, "lib"]
output_file = "out/arch.md"
exclude_patterns = []

[[layers]]
name = "Core"
patterns = ["src/core/**", "src/lib.rs"]

[[layers]]
patterns = "oops"
"#;
    let config = Config::load(text).expect("valid toml");
    assert_eq!(config.source_dirs, vec!["src".to_string(), "lib".to_string()]);
    assert_eq!(config.output_file, "out/arch.md");
    assert_eq!(config.layout, "dependency-graph");
    assert!(config.exclude_patterns.is_empty());
    assert_eq!(
        config.layers,
        vec![
            Layer {
                name: "Core".to_string(),
                patterns: vec!["src/core/**".to_string(), "src/lib.rs".to_string()],
            },
            Layer { name: "Unknown".to_string(), patterns: vec![] },
        ]
    );
    assert_eq!(Config::load(""), Ok(Config::defaults()));
    assert_eq!(Config::load("layout = [broken"), Err(ConfigError::Syntax));
    assert_eq!(Config::load("layout = 7"), Ok(Config::defaults()));
}

#[test]
fn config_round_trips_through_its_toml_text() {
    let mut config = Config::defaults();
    config.layout = "layered".to_string();
    config.source_dirs = vec!["src".to_string(), "python".to_string()];
    config.layers = vec![Layer {
        name: "Drivers".to_string(),
        patterns: vec!["src/drivers/**".to_string()],
    }];
    assert_eq!(Config::load(&config.to_toml()), Ok(config));
}

#[test]
fn config_falls_back_to_defaults() {
    assert_eq!(Config::load_or_defaults(None), Config::defaults());
    assert_eq!(Config::load_or_defaults(Some("not [ toml")), Config::defaults());
    let loaded = Config::load_or_defaults(Some("layout = \"layered\""));
    assert_eq!(loaded.layout, "layered");
    assert_eq!(loaded.source_dirs, vec!["src".to_string()]);
}

#[test]
fn config_from_document_keeps_texts_only() {
    let doc = ConfigDocument {
        source_dirs: Entry::Found(vec![None, Some("a".to_string())]),
        output_file: Entry::Other,
        layout: Entry::Found("layered".to_string()),
        exclude_patterns: Entry::Absent,
        layers: Entry::Found(vec![
            None,
            Some(LayerDocument {
                name: Entry::Absent,
                patterns: Entry::Found(vec![Some("x/**".to_string()), None]),
            }),
        ]),
    };
    let config = Config::from_document(&doc);
    assert_eq!(config.source_dirs, vec!["a".to_string()]);
    assert_eq!(config.output_file, "docs/architecture.md");
    assert_eq!(config.layout, "layered");
    assert_eq!(config.exclude_patterns.len(), 4);
    assert_eq!(
        config.layers,
        vec![Layer { name: "Unknown".to_string(), patterns: vec!["x/**".to_string()] }]
    );
}

#[test]
fn config_is_saved_only_where_allowed() {
    assert_eq!(Config::may_save(false, false), Ok(()));
    assert_eq!(Config::may_save(false, true), Ok(()));
    assert_eq!(Config::may_save(true, true), Ok(()));
    assert_eq!(Config::may_save(true, false), Err(ConfigError::AlreadyInitialized));
    assert_eq!(
        ConfigError::AlreadyInitialized.message(),
        "codetwin.toml already initialized. Use --force to overwrite."
    );
    assert_eq!(ConfigError::Syntax.message(), "Failed to parse configuration");
    assert_eq!(ConfigError::MissingField.message(), "Missing field in configuration");
    assert_eq!(ConfigError::WrongType.message(), "Invalid type in configuration");
}

#[test]
fn config_as_toml() {
    let mut config = Config::defaults();
    config.layers = vec![Layer {
        name: "Core".to_string(),
        patterns: vec!["src/lib.rs".to_string(), "src/core/**".to_string()],
    }];
    let toml = config.to_toml();
    assert!(toml.starts_with("# CodeTwin Configuration\n# Code \u{2192} Diagram/Documentation Generator\n"));
    assert!(toml.contains("\nsource_dirs = [\"src\"]\n"));
    assert!(toml.contains("\noutput_file = \"docs/architecture.md\"\n"));
    assert!(toml.contains("\nlayout = \"dependency-graph\"\n"));
    assert!(toml.contains(
        "\nexclude_patterns = [\"**/target/**\", \"**/node_modules/**\", \"**/.git/**\", \"**/tests/**\"]\n"
    ));
    assert!(toml.ends_with(
        "\n# Layer configuration (for layered layout)\n\n[[layers]]\nname = \"Core\"\npatterns = [\"src/lib.rs\", \"src/core/**\"]\n"
    ));
    let plain = Config::defaults().to_toml();
    assert!(plain.ends_with("# patterns = [\"src/drivers/**\"]\n"));
    assert!(!plain.contains("# Layer configuration"));
}

#[test]
fn test_error_context_chains() {
    let result = Config::load("non_existent_path/codetwin.toml");

    assert!(
        result.is_err(),
        "Should fail when config file doesn't exist"
    );

    let err_msg = result.unwrap_err().message();
    assert!(
        err_msg.contains("Failed to") || err_msg.contains("toml"),
        "Error should provide context about failure: {}",
        err_msg
    );
}

#[test]
fn test_glob_pattern_matching() {
    let patterns = vec![
        ("**/target/**", true),
        ("**/.git/**", true),
        ("**/tests/**", true),
        ("**/.hidden/*", true),
    ];

    for (pattern_str, should_compile) in patterns {
        let result = Pattern::new(pattern_str);
        if should_compile {
            assert!(result.is_ok(), "Pattern '{}' should compile", pattern_str);
        }
    }
}
