use codetwin::ir::Blueprint;
use codetwin::layouts::dependency_graph::{
    extract_module_name, generate_footer, generate_module_list, sanitize_id, DependencyGraphLayout,
};
use codetwin::layouts::{Layout, LayoutError};

fn blueprint(path: &str, deps: &[&str]) -> Blueprint {
    Blueprint {
        source_path: path.to_string(),
        language: "rust".to_string(),
        elements: vec![],
        dependencies: deps.iter().map(|d| d.to_string()).collect(),
    }
}

#[test]
fn dependency_graph_test_extract_module_name() {
    assert_eq!(extract_module_name("src/engine.rs"), "engine");
    assert_eq!(extract_module_name("main.rs"), "main");
    assert_eq!(extract_module_name("src/drivers/rust.rs"), "rust");
}

#[test]
fn dependency_graph_test_sanitize_id() {
    assert_eq!(sanitize_id("engine"), "engine");
    assert_eq!(sanitize_id("std-lib"), "std_lib");
    assert_eq!(sanitize_id("my.module"), "my_module");
    assert_eq!(sanitize_id("some-module!"), "some_module");
}

#[test]
fn test_dependency_graph_format() {
    let mut blueprints = vec![];

    let bp1 = Blueprint {
        source_path: "src/main.rs".to_string(),
        language: "rust".to_string(),
        elements: vec![],
        dependencies: vec!["engine".to_string()],
    };

    let bp2 = Blueprint {
        source_path: "src/engine.rs".to_string(),
        language: "rust".to_string(),
        elements: vec![],
        dependencies: vec!["config".to_string()],
    };

    blueprints.push(bp1);
    blueprints.push(bp2);

    let layout = DependencyGraphLayout;
    let result = layout.format(&blueprints).unwrap();

    assert_eq!(result.len(), 1);
    assert_eq!(result[0].0, "architecture.md");

    let content = &result[0].1;
    assert!(content.contains("graph TD"));
    assert!(content.contains("main"));
    assert!(content.contains("engine"));
    assert!(content.contains("config"));
}

#[test]
fn test_no_cycles() {
    let blueprints = vec![
        Blueprint {
            source_path: "src/a.rs".to_string(),
            language: "rust".to_string(),
            elements: vec![],
            dependencies: vec!["b".to_string()],
        },
        Blueprint {
            source_path: "src/b.rs".to_string(),
            language: "rust".to_string(),
            elements: vec![],
            dependencies: vec![],
        },
    ];

    let layout = DependencyGraphLayout;
    let result = layout.format(&blueprints).unwrap();
    let content = &result[0].1;

    assert!(content.contains("No circular dependencies detected"));
}

#[test]
fn two_modules_in_a_cycle_are_reported() {
    let blueprints = vec![blueprint("src/a.rs", &["b"]), blueprint("src/b.rs", &["a"])];
    let result = DependencyGraphLayout.format(&blueprints).unwrap();
    let content = &result[0].1;
    assert!(content.contains("    a --> b\n"));
    assert!(content.contains("    b --> a\n"));
    assert!(content.contains("**Circular Dependencies Detected**"));
    assert!(!content.contains("No circular dependencies detected"));
}

#[test]
fn a_chain_of_three_modules_has_no_cycle() {
    let blueprints = vec![
        blueprint("src/a.rs", &["b"]),
        blueprint("src/b.rs", &["c"]),
        blueprint("src/c.rs", &[]),
    ];
    let result = DependencyGraphLayout.format(&blueprints).unwrap();
    assert!(result[0].1.ends_with("\u{2705} No circular dependencies detected."));
}

#[test]
fn a_module_that_depends_on_itself_is_a_cycle() {
    let blueprints = vec![blueprint("src/a.rs", &["a"])];
    let result = DependencyGraphLayout.format(&blueprints).unwrap();
    assert!(result[0].1.contains("**Circular Dependencies Detected**"));
}

#[test]
fn dependency_graph_end_to_end() {
    let blueprints = vec![blueprint("a.rs", &["b"]), blueprint("b.rs", &[])];
    let result = DependencyGraphLayout.format(&blueprints).unwrap();
    assert_eq!(result.len(), 1);
    let expected = "## Dependency Graph\n\n```mermaid\ngraph TD\n    a[a]\n    b[b]\n    a --> b\n```\n\n\n## Modules\n\n### `a`\n\n**File**: a.rs\n\n**Contents**: 0 structs, 0 fns\n\n**Dependencies**: b\n\n### `b`\n\n**File**: b.rs\n\n**Contents**: 0 structs, 0 fns\n\n\n\n\u{2705} No circular dependencies detected.";
    assert_eq!(result[0].1, expected);
}

#[test]
fn unmatched_dependencies_give_no_edge() {
    let blueprints = vec![blueprint("src/a.rs", &["serde", "b"]), blueprint("src/b.rs", &[])];
    let result = DependencyGraphLayout.format(&blueprints).unwrap();
    let content = &result[0].1;
    assert!(content.contains("    a --> b\n"));
    assert!(!content.contains("--> serde"));
    assert!(content.contains("**Dependencies**: serde, b\n"));
}

#[test]
fn files_of_one_name_share_a_node() {
    let blueprints = vec![blueprint("src/x/mod.rs", &[]), blueprint("src/y/mod.rs", &[])];
    let result = DependencyGraphLayout.format(&blueprints).unwrap();
    let content = &result[0].1;
    assert_eq!(content.matches("    mod[mod]\n").count(), 1);
}

#[test]
fn format_twice_gives_the_same_bytes() {
    let blueprints = vec![blueprint("src/a.rs", &["b"]), blueprint("src/b.rs", &["a"])];
    let first = DependencyGraphLayout.format(&blueprints).unwrap();
    let second = DependencyGraphLayout.format(&blueprints).unwrap();
    assert_eq!(first, second);
}

#[test]
fn footer_and_module_list_texts() {
    assert_eq!(generate_footer(false), "\u{2705} No circular dependencies detected.");
    assert!(generate_footer(true).starts_with("\u{26a0}\u{fe0f} **Circular Dependencies Detected**\n\n"));
    assert_eq!(generate_module_list(&[]), "## Modules\n\n");
}

#[test]
fn layout_error_messages() {
    assert_eq!(
        LayoutError::UnknownLayout("x".to_string()).message(),
        "Unknown layout 'x'"
    );
    assert_eq!(LayoutError::NoBlueprints.message(), "No elements found to format");
}

#[test]
fn module_list_is_in_alphabetical_order() {
    let one = vec![
        blueprint("src/b.rs", &["a"]),
        blueprint("src/a.rs", &[]),
        blueprint("lib/b.rs", &[]),
        blueprint("src/B.rs", &[]),
    ];
    let list = generate_module_list(&one);
    let headings: Vec<&str> = list.lines().filter(|l| l.starts_with("### ")).collect();
    assert_eq!(headings, vec!["### `B`", "### `a`", "### `b`", "### `b`"]);
    let files: Vec<&str> = list.lines().filter(|l| l.starts_with("**File**")).collect();
    assert_eq!(
        files,
        vec!["**File**: src/B.rs", "**File**: src/a.rs", "**File**: src/b.rs", "**File**: lib/b.rs"]
    );
    let other = vec![one[3].clone(), one[0].clone(), one[2].clone(), one[1].clone()];
    assert_eq!(generate_module_list(&other), list);
    let document = &DependencyGraphLayout.format(&one).unwrap()[0].1;
    assert!(document.contains(&list));
}
