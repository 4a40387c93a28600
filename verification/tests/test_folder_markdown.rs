use codetwin::ir::{
    Blueprint, Class, Documentation, Element, Method, Parameter, Property, Signature, Visibility,
};
use codetwin::layouts::folder_markdown::{
    collect_sorted_modules, extract_module_name, format_module_path, generate_file_md,
    generate_index_md, generate_mermaid_diagram_multi, mermaid_visibility, sanitize_id,
    FolderMarkdownLayout,
};
use codetwin::layouts::{Layout, LayoutError};

fn no_docs() -> Documentation {
    Documentation { summary: None, description: None, examples: vec![] }
}

fn blueprint(path: &str, deps: &[&str]) -> Blueprint {
    Blueprint {
        source_path: path.to_string(),
        language: "rust".to_string(),
        elements: vec![],
        dependencies: deps.iter().map(|d| d.to_string()).collect(),
    }
}

fn account_class() -> Element {
    Element::Class(Class {
        name: "Account".to_string(),
        visibility: Visibility::Public,
        methods: vec![Method {
            name: "deposit".to_string(),
            visibility: Visibility::Public,
            is_static: false,
            signature: Signature {
                parameters: vec![
                    Parameter { name: "self".to_string(), type_annotation: None, default_value: None },
                    Parameter {
                        name: "amount".to_string(),
                        type_annotation: Some("int".to_string()),
                        default_value: None,
                    },
                    Parameter { name: "note".to_string(), type_annotation: None, default_value: None },
                ],
                return_type: None,
            },
            documentation: no_docs(),
        }],
        properties: vec![Property {
            name: "_balance".to_string(),
            visibility: Visibility::Private,
            type_annotation: Some("int".to_string()),
            documentation: no_docs(),
        }],
        documentation: no_docs(),
    })
}

#[test]
fn visibility_glyphs() {
    assert_eq!(mermaid_visibility(&Visibility::Public), "+");
    assert_eq!(mermaid_visibility(&Visibility::Private), "-");
    assert_eq!(mermaid_visibility(&Visibility::Protected), "#");
    assert_eq!(mermaid_visibility(&Visibility::Internal), "~");
}

#[test]
fn folder_names_and_ids() {
    assert_eq!(extract_module_name("src/drivers/rust.rs"), "rust");
    assert_eq!(extract_module_name(""), "unknown");
    assert_eq!(sanitize_id("my-mod.v2/a b!"), "my_mod_v2_a_b!");
    assert_eq!(format_module_path("engine"), "engine.md");
}

#[test]
fn private_property_and_public_method_in_the_diagram() {
    let bp = Blueprint {
        source_path: "src/bank/account.py".to_string(),
        language: "python".to_string(),
        elements: vec![account_class()],
        dependencies: vec![],
    };
    let docs = FolderMarkdownLayout::new("architecture.md").format(&[bp]).unwrap();
    assert_eq!(docs.len(), 2);
    assert_eq!(docs[0].0, "bank.md");
    let expected = "# bank\n\n> Language: **python**\n\n## Files\n\n- `src/bank/account.py`\n\n---\n\n## classes & defs\n\n```mermaid\nclassDiagram\n    %% File: src/bank/account.py\n    class Account {\n        -_balance int\n        +deposit(amount: int, note: _) None\n    }\n```\n\n";
    assert_eq!(docs[0].1, expected);
    assert_eq!(docs[1].0, "architecture.md");
}

#[test]
fn class_diagram_of_several_files() {
    let a = Blueprint {
        source_path: "a.rs".to_string(),
        language: "rust".to_string(),
        elements: vec![account_class()],
        dependencies: vec![],
    };
    let b = blueprint("b.rs", &[]);
    let diagram = generate_mermaid_diagram_multi(&[a, b]).unwrap();
    assert_eq!(
        diagram,
        "classDiagram\n    %% File: a.rs\n    class Account {\n        -_balance int\n        +deposit(amount: int, note: _) ()\n    }\n    %% File: b.rs\n"
    );
    assert_eq!(generate_mermaid_diagram_multi(&[]).unwrap(), "classDiagram\n");
}

#[test]
fn file_document_of_no_files_is_empty() {
    assert_eq!(generate_file_md(&[]), "");
    let doc = generate_file_md(&[blueprint("lonely.rs", &[])]);
    assert!(doc.starts_with("# Unknown\n\n> Language: **rust**\n\n## Files\n\n- `lonely.rs`\n"));
    assert!(doc.contains("## structs & fns\n\n```mermaid\nclassDiagram\n"));
}

#[test]
fn index_lists_modules_in_order() {
    let blueprints = vec![
        blueprint("src/zeta.rs", &["alpha", "serde"]),
        blueprint("src/alpha.rs", &[]),
        blueprint("lib/zeta.rs", &["mid-dle"]),
        blueprint("src/mid-dle.rs", &[]),
    ];
    let expected = "# Project Architecture\n\n## Module Dependencies\n\n```mermaid\ngraph TD\n    alpha[alpha]\n    mid_dle[mid-dle]\n    zeta[zeta]\n    zeta --> alpha\n    zeta --> mid_dle\n```\n\n---\n\n## Modules\n\n- [alpha](alpha.md)\n- [mid-dle](mid-dle.md)\n- [zeta](zeta.md)\n";
    assert_eq!(generate_index_md(&blueprints), expected);
    assert_eq!(
        collect_sorted_modules(&blueprints),
        vec!["alpha".to_string(), "mid-dle".to_string(), "zeta".to_string()]
    );
}

#[test]
fn folder_documents_do_not_depend_on_slot_order() {
    let one = vec![
        blueprint("src/b/x.rs", &[]),
        blueprint("src/a/p.rs", &[]),
        blueprint("src/b/y.rs", &[]),
        blueprint("top.rs", &[]),
    ];
    let other = vec![
        blueprint("top.rs", &[]),
        blueprint("src/b/x.rs", &[]),
        blueprint("src/b/y.rs", &[]),
        blueprint("src/a/p.rs", &[]),
    ];
    let layout = FolderMarkdownLayout::new("index.md");
    let first = layout.format(&one).unwrap();
    let second = layout.format(&other).unwrap();
    let names: Vec<&str> = first.iter().map(|d| d.0.as_str()).collect();
    assert_eq!(names, vec!["a.md", "b.md", "root.md", "index.md"]);
    assert_eq!(first, second);
    assert!(first[1].1.contains("- `src/b/x.rs`\n- `src/b/y.rs`\n"));
}

#[test]
fn folder_layout_needs_blueprints() {
    let layout = FolderMarkdownLayout::new("index.md");
    assert_eq!(layout.format(&[]), Err(LayoutError::NoBlueprints));
    let blueprints = vec![blueprint("src/a.rs", &[])];
    assert_eq!(layout.format(&blueprints), layout.format(&blueprints));
}

#[test]
fn index_edges_come_in_module_order() {
    let one = vec![
        blueprint("src/zeta.rs", &["alpha"]),
        blueprint("src/alpha.rs", &["zeta", "beta"]),
        blueprint("src/beta.rs", &["zeta"]),
    ];
    let other = vec![one[2].clone(), one[0].clone(), one[1].clone()];
    let index = generate_index_md(&one);
    assert!(index.contains(
        "    alpha --> zeta\n    alpha --> beta\n    beta --> zeta\n    zeta --> alpha\n```"
    ));
    assert_eq!(generate_index_md(&other), index);
}
