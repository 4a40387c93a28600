use codetwin::drivers::markdown::{generate_file_md, generate_mermaid_diagram, MarkdownDriver};
use codetwin::drivers::trait_def::{Driver, DriverError};
use codetwin::drivers::typescript::TypeScriptDriver;
use codetwin::drivers::{get_driver_for_file, DriverKind};
use codetwin::ir::{
    Blueprint, Class, Documentation, Element, Function, Method, Parameter, Property, Signature,
    Visibility,
};

#[test]
fn test_generate_struct_md() {
    let blueprint = Blueprint {
        source_path: "src/example.rs".to_string(),
        language: "rust".to_string(),
        elements: vec![
            Element::Function(Function {
                name: "greet".to_string(),
                visibility: Visibility::Public,
                signature: Signature {
                    parameters: vec![Parameter {
                        name: "name".to_string(),
                        type_annotation: Some("&str".to_string()),
                        default_value: None,
                    }],
                    return_type: Some("String".to_string()),
                },
                documentation: Documentation {
                    summary: Some("Greets a user by name".to_string()),
                    description: None,
                    examples: vec![],
                },
            }),
            Element::Class(Class {
                name: "User".to_string(),
                visibility: Visibility::Public,
                methods: vec![Method {
                    name: "new".to_string(),
                    visibility: Visibility::Public,
                    is_static: true,
                    signature: Signature {
                        parameters: vec![Parameter {
                            name: "name".to_string(),
                            type_annotation: Some("String".to_string()),
                            default_value: None,
                        }],
                        return_type: Some("Self".to_string()),
                    },
                    documentation: Documentation {
                        summary: Some("Creates a new User instance".to_string()),
                        description: None,
                        examples: vec![],
                    },
                }],
                properties: vec![Property {
                    name: "name".to_string(),
                    visibility: Visibility::Public,
                    type_annotation: Some("String".to_string()),
                    documentation: Documentation {
                        summary: None,
                        description: None,
                        examples: vec![],
                    },
                }],
                documentation: Documentation {
                    summary: Some("Represents a user in the system".to_string()),
                    description: None,
                    examples: vec![],
                },
            }),
        ],
        dependencies: vec![],
    };

    let driver = MarkdownDriver;
    let result = driver.generate(&blueprint);

    assert!(result.is_ok());
    let markdown = result.unwrap();

    assert!(markdown.contains("# src"));
    assert!(markdown.contains("Language: **rust**"));
    assert!(markdown.contains("src/example.rs"));
    assert!(markdown.contains("class User"));

    println!("{}", markdown);

    let small = Blueprint {
        source_path: "src/shapes/point.py".to_string(),
        language: "python".to_string(),
        elements: vec![Element::Class(Class {
            name: "Point".to_string(),
            visibility: Visibility::Public,
            methods: vec![Method {
                name: "norm".to_string(),
                visibility: Visibility::Protected,
                is_static: false,
                signature: Signature { parameters: vec![], return_type: None },
                documentation: Documentation { summary: None, description: None, examples: vec![] },
            }],
            properties: vec![],
            documentation: Documentation { summary: None, description: None, examples: vec![] },
        })],
        dependencies: vec![],
    };
    assert_eq!(
        MarkdownDriver.generate(&small).unwrap(),
        "# shapes\n\n> Language: **python**\n\n## Files\n\n- `src/shapes/point.py`\n\n---\n\n## Classes & Functions\n\n```mermaid\nclassDiagram\n    %% File: src/shapes/point.py\n    class Point {\n        #norm() void\n    }\n```\n\n"
    );
    assert_eq!(generate_file_md(&[]), "");
    assert_eq!(
        generate_mermaid_diagram(&small).unwrap(),
        "classDiagram\n    class Point {\n        #norm() void\n    }\n"
    );
    assert_eq!(generate_mermaid_diagram(&blueprint_without_elements()), None);
}

fn blueprint_without_elements() -> Blueprint {
    Blueprint {
        source_path: "a.rs".to_string(),
        language: "rust".to_string(),
        elements: vec![],
        dependencies: vec![],
    }
}

#[test]
fn markdown_and_typescript_do_not_parse() {
    assert_eq!(MarkdownDriver.parse("a.md", "# Title"), Err(DriverError::NotSupported));
    assert_eq!(TypeScriptDriver.parse("a.ts", "let x = 1;"), Err(DriverError::NotSupported));
    assert_eq!(TypeScriptDriver.terminology().function_label, "method");
    assert_eq!(MarkdownDriver.terminology().function_label, "item");
    assert_eq!(DriverError::NotSupported.message(), "Not implemented yet");
    assert_eq!(DriverError::MissingName.message(), "Missing identifier");
    assert_eq!(DriverError::MissingBody.message(), "Missing class body");
    assert_eq!(DriverError::Parse.message(), "Failed to parse source");
    assert_eq!(
        DriverError::TooDeep.message(),
        "Failed to parse source: syntax tree is too deep"
    );
    assert_eq!(DriverError::Language.message(), "Failed to set language");
}

#[test]
fn drivers_are_chosen_by_extension() {
    assert!(matches!(get_driver_for_file("src/a.rs"), Some(DriverKind::Rust(_))));
    assert!(matches!(get_driver_for_file("src/a.py"), Some(DriverKind::Python(_))));
    assert!(matches!(get_driver_for_file("src/a.ts"), Some(DriverKind::TypeScript(_))));
    assert!(matches!(get_driver_for_file("src/a.tsx"), Some(DriverKind::TypeScript(_))));
    assert!(matches!(get_driver_for_file("README.md"), Some(DriverKind::Markdown(_))));
    assert!(get_driver_for_file("Makefile").is_none());
    assert!(get_driver_for_file("a.txt").is_none());
    let driver = get_driver_for_file("x.py").unwrap();
    let blueprint = driver.parse("x.py", "def f():\n    pass\n").unwrap();
    assert_eq!(blueprint.elements.len(), 1);
    assert_eq!(driver.terminology().return_type_default, "None");
}
