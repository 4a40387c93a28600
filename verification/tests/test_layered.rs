use codetwin::config::Layer;
use codetwin::ir::Blueprint;
use codetwin::layouts::layered::{
    assign_homes, assign_layer, auto_detect_layers, extract_module_name, sanitize_id,
    LayeredLayout,
};
use codetwin::layouts::Layout;
use codetwin::patterns::{decide_match, matches_pattern, normalize_pattern};

fn blueprint(path: &str, deps: &[&str]) -> Blueprint {
    Blueprint {
        source_path: path.to_string(),
        language: "rust".to_string(),
        elements: vec![],
        dependencies: deps.iter().map(|d| d.to_string()).collect(),
    }
}

fn layer(name: &str, patterns: &[&str]) -> Layer {
    Layer {
        name: name.to_string(),
        patterns: patterns.iter().map(|p| p.to_string()).collect(),
    }
}

#[test]
fn test_matches_pattern_simple() {
    assert!(matches_pattern("src/lib.rs", "src/lib.rs"));
    assert!(!matches_pattern("src/main.rs", "src/lib.rs"));
}

#[test]
fn test_matches_pattern_glob() {
    assert!(matches_pattern("src/drivers/rust.rs", "src/drivers/**"));
    assert!(matches_pattern("src/drivers/python.rs", "src/drivers/**"));
    assert!(!matches_pattern("src/main.rs", "src/drivers/**"));
}

#[test]
fn layered_test_extract_module_name() {
    assert_eq!(extract_module_name("src/lib.rs"), "lib");
    assert_eq!(extract_module_name("src/engine.rs"), "engine");
    assert_eq!(extract_module_name("src/drivers/rust.rs"), "rust");
}

#[test]
fn layered_test_sanitize_id() {
    assert_eq!(sanitize_id("Core"), "Core");
    assert_eq!(sanitize_id("User Interface"), "User_Interface");
    assert_eq!(sanitize_id("I/O"), "I_O");
}

#[test]
fn test_defaults_empty() {
    let defaults = LayeredLayout::defaults();
    assert!(defaults.is_empty());
}

#[test]
fn relative_patterns_are_tried_under_src() {
    assert_eq!(normalize_pattern("lib.rs"), "src/lib.rs");
    assert_eq!(normalize_pattern("src/lib.rs"), "src/lib.rs");
    assert_eq!(normalize_pattern("drivers/**"), "drivers/**");
    assert!(matches_pattern("src/lib.rs", "lib.rs"));
    assert!(!matches_pattern("src/lib.rs", "[unclosed"));
}

#[test]
fn one_true_outcome_decides_a_match() {
    assert!(decide_match(Some(true), None));
    assert!(decide_match(None, Some(true)));
    assert!(decide_match(Some(false), Some(true)));
    assert!(!decide_match(Some(false), Some(false)));
    assert!(!decide_match(None, None));
    assert!(!decide_match(Some(false), None));
}

#[test]
fn first_matching_layer_wins() {
    let layers = vec![
        layer("Drivers", &["src/drivers/**"]),
        layer("All", &["src/**"]),
    ];
    assert_eq!(assign_layer(&layers, "src/drivers/rust.rs"), Some(0));
    assert_eq!(assign_layer(&layers, "src/lib.rs"), Some(1));
    assert_eq!(assign_layer(&layers, "docs/readme.md"), None);
}

#[test]
fn layers_are_detected_from_directories() {
    let blueprints = vec![
        blueprint("src/core/x.rs", &[]),
        blueprint("src/util.rs", &[]),
        blueprint("src/core/y.rs", &[]),
        blueprint("src/app/z.rs", &[]),
    ];
    let layers = auto_detect_layers(&blueprints);
    let names: Vec<&str> = layers.iter().map(|l| l.name.as_str()).collect();
    assert_eq!(names, vec!["app", "core", "src"]);
    assert_eq!(layers[1].patterns, vec!["core/**".to_string()]);

    let homes = assign_homes(&vec![], &blueprints);
    assert_eq!(homes[0].as_deref(), Some("core"));
    assert_eq!(homes[2].as_deref(), Some("core"));
    assert_eq!(homes[1].as_deref(), Some("src"));
    assert_ne!(homes[1].as_deref(), Some("core"));
}

#[test]
fn a_file_without_a_directory_is_unassigned() {
    let blueprints = vec![blueprint("main.rs", &[])];
    let docs = LayeredLayout::new(vec![]).format(&blueprints).unwrap();
    assert!(docs[0].1.contains("### Unassigned\n\nFiles not explicitly matched to a layer:\n\n- `main`\n\n"));
}

#[test]
fn layered_document_with_declared_layers() {
    let blueprints = vec![
        blueprint("src/ui/view.rs", &["client", "serde"]),
        blueprint("src/api/client.rs", &[]),
        blueprint("README.md", &[]),
    ];
    let layout = LayeredLayout::new(vec![
        layer("UI", &["src/ui/**"]),
        layer("API", &["src/api/**"]),
        layer("Empty", &["src/none/**"]),
    ]);
    let docs = layout.format(&blueprints).unwrap();
    assert_eq!(docs.len(), 1);
    assert_eq!(docs[0].0, "architecture.md");
    let expected = "## Layer Diagram\n\n```mermaid\ngraph TD\n    subgraph UI [UI]\n        UI_view[view]\n    end\n    subgraph API [API]\n        API_client[client]\n    end\n    UI --> API\n```\n\n\n## Layered Architecture\n\nThis document shows the architecture organized into logical layers.\nEach layer represents a distinct responsibility area.\n\n### Layer: UI\n\n**Pattern(s)**: src/ui/**\n\n**Modules**:\n\n- `view` (0 structs, 0 functions)\n\n**Internal Dependencies**: client, serde\n\n### Layer: API\n\n**Pattern(s)**: src/api/**\n\n**Modules**:\n\n- `client` (0 structs, 0 functions)\n\n### Unassigned\n\nFiles not explicitly matched to a layer:\n\n- `README`\n\n";
    assert_eq!(docs[0].1, expected);
}

#[test]
fn layered_format_is_repeatable() {
    let blueprints = vec![
        blueprint("src/a/x.rs", &["y"]),
        blueprint("src/b/y.rs", &["x"]),
    ];
    let layout = LayeredLayout::new(vec![]);
    let first = layout.format(&blueprints).unwrap();
    let second = layout.format(&blueprints).unwrap();
    assert_eq!(first, second);
    assert!(first[0].1.contains("    a --> b\n    b --> a\n"));
}
