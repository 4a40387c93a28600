use codetwin::drivers::rust::{extract_function, extract_struct, extract_visibility, RustDriver};
use codetwin::drivers::syntax::SyntaxNode;
use codetwin::drivers::trait_def::{Driver, DriverError};
use codetwin::ir::{Element, Visibility};

#[test]
fn test_parse_simple_struct() {
    let code = r#"
pub struct User {
    name: String,
    age: u32,
}
"#;

    let driver = RustDriver;
    let blueprint = driver.parse("unknown.rs", code).expect("Failed to parse");

    println!("Parsed blueprint: {:?}", blueprint);
    assert_eq!(blueprint.language, "rust");
    assert!(
        !blueprint.elements.is_empty(),
        "Should have parsed the struct"
    );
}

#[test]
fn test_parse_struct_with_impl() {
    let code = r#"
pub struct Point {
    x: f64,
    y: f64,
}

impl Point {
    pub fn new(x: f64, y: f64) -> Self {
        Point { x, y }
    }

    pub fn distance(&self) -> f64 {
        (self.x * self.x + self.y * self.y).sqrt()
    }
}
"#;

    let driver = RustDriver;
    let blueprint = driver.parse("unknown.rs", code).expect("Failed to parse");

    println!("Parsed Point struct: {:?}", blueprint);
    assert!(
        !blueprint.elements.is_empty(),
        "Should have parsed Point struct"
    );
}

#[test]
fn rust_blueprint_in_full() {
    let code = r#"
pub struct Point {
    pub x: f64,
    pub(crate) y: f64,
    label: String,
}

fn helper(count: usize, name: &str) -> bool {
    true
}

impl Point {
    pub fn new(x: f64, y: f64) -> Self {
        Point { x, y, label: String::new() }
    }

    pub(super) fn distance(&self) -> f64 {
        0.0
    }
}

impl Missing {
    fn lost() {}
}
"#;
    let blueprint = RustDriver.parse("src/point.rs", code).expect("Failed to parse");
    assert_eq!(blueprint.source_path, "src/point.rs");
    assert_eq!(blueprint.language, "rust");
    assert!(blueprint.dependencies.is_empty());
    assert_eq!(blueprint.elements.len(), 2);
    let point = match &blueprint.elements[0] {
        Element::Class(c) => c,
        other => panic!("expected a class, got {:?}", other),
    };
    assert_eq!(point.name, "Point");
    assert_eq!(point.visibility, Visibility::Public);
    let fields: Vec<(&str, Visibility, Option<&str>)> = point
        .properties
        .iter()
        .map(|p| (p.name.as_str(), p.visibility, p.type_annotation.as_deref()))
        .collect();
    assert_eq!(
        fields,
        vec![
            ("x", Visibility::Public, Some("f64")),
            ("y", Visibility::Internal, Some("f64")),
            ("label", Visibility::Private, Some("String")),
        ]
    );
    let methods: Vec<(&str, Visibility, Option<&str>, usize)> = point
        .methods
        .iter()
        .map(|m| {
            (
                m.name.as_str(),
                m.visibility,
                m.signature.return_type.as_deref(),
                m.signature.parameters.len(),
            )
        })
        .collect();
    assert_eq!(
        methods,
        vec![
            ("new", Visibility::Public, Some("Self"), 2),
            ("distance", Visibility::Protected, Some("f64"), 0),
        ]
    );
    assert!(point.methods.iter().all(|m| !m.is_static));
    let helper = match &blueprint.elements[1] {
        Element::Function(f) => f,
        other => panic!("expected a function, got {:?}", other),
    };
    assert_eq!(helper.name, "helper");
    assert_eq!(helper.visibility, Visibility::Private);
    assert_eq!(helper.signature.return_type.as_deref(), Some("bool"));
    let params: Vec<(&str, Option<&str>)> = helper
        .signature
        .parameters
        .iter()
        .map(|p| (p.name.as_str(), p.type_annotation.as_deref()))
        .collect();
    assert_eq!(params, vec![("count", Some("usize")), ("name", Some("&str"))]);
}

#[test]
fn rust_driver_does_not_generate() {
    let blueprint = RustDriver.parse("a.rs", "fn main() {}\n").expect("Failed to parse");
    assert_eq!(blueprint.elements.len(), 1);
    assert!(RustDriver.generate(&blueprint).is_err());
    assert_eq!(RustDriver.terminology().element_type_plural, "structs");
}

#[test]
fn rust_items_without_a_name_are_errors() {
    let leaf = |kind: &str, field: Option<&str>, text: &str| SyntaxNode {
        kind: kind.to_string(),
        named: true,
        field: field.map(|f| f.to_string()),
        text: Some(text.to_string()),
        children: vec![],
    };
    let nameless = SyntaxNode {
        kind: "function_item".to_string(),
        named: true,
        field: None,
        text: Some("fn () {}".to_string()),
        children: vec![leaf("visibility_modifier", None, "pub(crate)")],
    };
    assert_eq!(extract_function(&nameless).err(), Some(DriverError::MissingName));
    assert_eq!(extract_struct(&nameless).err(), Some(DriverError::MissingName));
    assert_eq!(extract_visibility(&nameless), Visibility::Internal);
    let blank = SyntaxNode {
        kind: "struct_item".to_string(),
        named: true,
        field: None,
        text: None,
        children: vec![leaf("type_identifier", Some("name"), "  ")],
    };
    assert_eq!(extract_struct(&blank).err(), Some(DriverError::MissingName));
    assert_eq!(extract_visibility(&blank), Visibility::Private);
}
