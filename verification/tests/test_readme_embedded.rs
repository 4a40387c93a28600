use codetwin::ir::{Blueprint, Class, Documentation, Element, Function, Method, Module, Signature, Visibility};
use codetwin::layouts::readme_embedded::{
    extract_key_functions, extract_module_name, generate_compact_diagram, generate_component_table,
    generate_data_flow, generate_dev_guide, infer_purpose, sanitize_id, ReadmeEmbeddedLayout,
};
use codetwin::layouts::Layout;

fn no_docs() -> Documentation {
    Documentation { summary: None, description: None, examples: vec![] }
}

fn summary(text: &str) -> Documentation {
    Documentation { summary: Some(text.to_string()), description: None, examples: vec![] }
}

fn method(name: &str) -> Method {
    Method {
        name: name.to_string(),
        visibility: Visibility::Public,
        is_static: false,
        signature: Signature { parameters: vec![], return_type: None },
        documentation: no_docs(),
    }
}

fn class(name: &str, methods: &[&str], docs: Documentation) -> Element {
    Element::Class(Class {
        name: name.to_string(),
        visibility: Visibility::Public,
        methods: methods.iter().map(|m| method(m)).collect(),
        properties: vec![],
        documentation: docs,
    })
}

fn function(name: &str) -> Element {
    Element::Function(Function {
        name: name.to_string(),
        visibility: Visibility::Public,
        signature: Signature { parameters: vec![], return_type: None },
        documentation: summary("ignored for the purpose"),
    })
}

fn blueprint(path: &str, elements: Vec<Element>, deps: &[&str]) -> Blueprint {
    Blueprint {
        source_path: path.to_string(),
        language: "rust".to_string(),
        elements,
        dependencies: deps.iter().map(|d| d.to_string()).collect(),
    }
}

#[test]
fn readme_embedded_test_extract_module_name() {
    assert_eq!(extract_module_name("src/lib.rs"), "lib");
    assert_eq!(extract_module_name("src/engine.rs"), "engine");
}

#[test]
fn readme_embedded_test_sanitize_id() {
    assert_eq!(sanitize_id("MyModule"), "MyModule");
    assert_eq!(sanitize_id("my-module"), "my_module");
    assert_eq!(sanitize_id("my.module"), "my_module");
}

#[test]
fn test_infer_purpose_generic() {
    let purpose = infer_purpose(&[], "cli");
    assert_eq!(purpose, "Module");

    let purpose2 = infer_purpose(&[], "unknown_module");
    assert_eq!(purpose2, "Module");
}

#[test]
fn purpose_is_the_first_summary_cut_at_fifty_characters() {
    let long = "0123456789".repeat(6);
    let elements = vec![
        function("f"),
        class("Plain", &[], no_docs()),
        class("Documented", &[], summary(&long)),
        Element::Module(Module { name: "m".to_string(), documentation: summary("later") }),
    ];
    assert_eq!(infer_purpose(&elements, "x"), "0123456789".repeat(5));
    let short = vec![Element::Module(Module { name: "m".to_string(), documentation: summary("Short") })];
    assert_eq!(infer_purpose(&short, "x"), "Short");
}

#[test]
fn key_functions_name_functions_and_classes() {
    let elements = vec![
        function("run"),
        class("Engine", &["new", "start", "stop"], no_docs()),
        class("Empty", &[], no_docs()),
        function("late"),
    ];
    assert_eq!(
        extract_key_functions(&elements, 3),
        "`run`, Engine (`new`, `start`), `Empty`"
    );
    assert_eq!(extract_key_functions(&elements, 1), "`run`");
    assert_eq!(extract_key_functions(&[], 3), "\u{2014}");
    assert_eq!(extract_key_functions(&elements, 0), "\u{2014}");
}

#[test]
fn component_table_has_one_row_per_module() {
    let blueprints = vec![blueprint("src/engine.rs", vec![function("run")], &[])];
    assert_eq!(
        generate_component_table(&blueprints),
        "### Components\n\n| Module | Purpose | Key Functions |\n|--------|---------|----------------|\n| `engine` | Module | `run` |\n"
    );
}

#[test]
fn compact_diagram_shows_each_edge_once() {
    let blueprints = vec![
        blueprint("src/a.rs", vec![], &["b", "b", "missing"]),
        blueprint("src/b.rs", vec![], &[]),
    ];
    assert_eq!(
        generate_compact_diagram(&blueprints),
        "### Dependency Overview\n\n```mermaid\ngraph TD\n    a[a]\n    b[b]\n    a --> b\n```\n"
    );
}

#[test]
fn data_flow_numbers_the_steps_that_apply() {
    let blueprints = vec![
        blueprint("src/cli.rs", vec![], &[]),
        blueprint("src/main.rs", vec![], &[]),
        blueprint("src/engine.rs", vec![], &[]),
        blueprint("src/py_parser.rs", vec![], &[]),
    ];
    assert_eq!(
        generate_data_flow(&blueprints),
        "### Data Flow\n\n1. **Entry Point** (cli, main) - User starts the application\n\n2. **Parsing** - Extract code structure using language drivers\n\n3. **Processing** - Transform parsed code into intermediate representation\n\n4. **Output** - Write generated documentation to file\n\n"
    );
    assert_eq!(
        generate_data_flow(&[]),
        "### Data Flow\n\n1. **Output** - Write generated documentation to file\n\n"
    );
}

#[test]
fn data_flow_with_every_step() {
    let blueprints = vec![
        blueprint("src/lib.rs", vec![], &[]),
        blueprint("src/config.rs", vec![], &[]),
        blueprint("src/discovery.rs", vec![], &[]),
        blueprint("src/rust_driver.rs", vec![], &[]),
        blueprint("src/engine.rs", vec![], &[]),
        blueprint("src/layouts.rs", vec![], &[]),
    ];
    let flow = generate_data_flow(&blueprints);
    assert!(flow.contains("1. **Entry Point** (lib)"));
    assert!(flow.contains("2. **Configuration**"));
    assert!(flow.contains("3. **Discovery**"));
    assert!(flow.contains("4. **Parsing**"));
    assert!(flow.contains("5. **Processing**"));
    assert!(flow.contains("6. **Formatting**"));
    assert!(flow.contains("7. **Output**"));
}

#[test]
fn dev_guide_lists_key_files_and_extension_advice() {
    let blueprints = vec![
        blueprint(
            "src/lib.rs",
            vec![Element::Module(Module { name: "lib".to_string(), documentation: summary("The root") })],
            &[],
        ),
        blueprint("src/config.rs", vec![], &[]),
        blueprint("src/other.rs", vec![], &[]),
        blueprint("src/layout_kinds.rs", vec![], &[]),
    ];
    assert_eq!(
        generate_dev_guide(&blueprints),
        "### Development Guide\n\n#### Key Files\n\n- `config` - Core module\n- `lib` - The root\n\n#### How to Extend\n\n**This project supports extensions:**\n\n- Add output formats by implementing the layout trait\n- Follow the existing code patterns and architecture structure\n\n**General guidelines:**\n\n- Follow the existing code style\n- Add tests for new functionality\n- Ensure error handling uses `anyhow::Result`\n- Use structured logging with `tracing` macros\n\n"
    );
}

#[test]
fn readme_document_is_repeatable() {
    let blueprints = vec![
        blueprint("src/a.rs", vec![function("f")], &["b"]),
        blueprint("src/b.rs", vec![], &[]),
    ];
    let first = ReadmeEmbeddedLayout.format(&blueprints).unwrap();
    let second = ReadmeEmbeddedLayout.format(&blueprints).unwrap();
    assert_eq!(first, second);
    assert_eq!(first[0].0, "architecture.md");
    assert!(first[0].1.starts_with("## Project Architecture\n\nQuick overview of the codebase structure and key components.\n\n### Components\n\n"));
}

#[test]
fn component_rows_come_in_module_order() {
    let one = vec![
        blueprint("src/zeta.rs", vec![function("z")], &[]),
        blueprint("src/alpha.rs", vec![function("a")], &[]),
        blueprint("lib/zeta.rs", vec![function("y")], &[]),
    ];
    let other = vec![one[1].clone(), one[0].clone(), one[2].clone()];
    let table = generate_component_table(&one);
    assert_eq!(
        table,
        "### Components\n\n| Module | Purpose | Key Functions |\n|--------|---------|----------------|\n| `alpha` | Module | `a` |\n| `zeta` | Module | `z` |\n| `zeta` | Module | `y` |\n"
    );
    assert_eq!(generate_component_table(&other), table);
    let flow = generate_data_flow(&[
        blueprint("src/main.rs", vec![], &[]),
        blueprint("src/cli.rs", vec![], &[]),
    ]);
    assert!(flow.contains("1. **Entry Point** (cli, main) - User starts the application"));
}
