use codetwin::drivers::python::PythonDriver;
use codetwin::drivers::trait_def::{Driver, DriverError};
use codetwin::ir::{Blueprint, Class, Documentation, Element, Function, Signature, Visibility};
use codetwin::layouts::dependency_graph::DependencyGraphLayout;
use codetwin::layouts::Layout;

fn parse_python(source: &str) -> Blueprint {
    let driver = PythonDriver;
    driver.parse("unknown.py", source).expect("Failed to parse Python")
}

fn sample_python() -> &'static str {
    r#"
import os, sys as system
from typing import Optional

class User:
    """User model.

    Extended description line.
    """

    count = 0

    def __init__(self, name: str, age: int = 0) -> None:
        """Create a user."""
        self.name = name
        self.age = age

    @property
    def is_adult(self) -> bool:
        """True if age is >= 18."""
        return self.age >= 18

    @staticmethod
    def normalize_name(name: str) -> str:
        return name.strip()

    @classmethod
    def from_name(cls, name: str) -> "User":
        return cls(name=name)


def helper(value: int) -> Optional[str]:
    """Convert values."""
    if value > 0:
        return str(value)
    return None


class Admin(User):
    pass
"#
}

#[test]
fn test_python_extracts_class() {
    let blueprint = parse_python(sample_python());
    let classes: Vec<&Class> = blueprint
        .elements
        .iter()
        .filter_map(|e| match e {
            Element::Class(c) => Some(c),
            _ => None,
        })
        .collect();

    assert!(!classes.is_empty(), "Should find at least one class");
    assert!(classes.iter().any(|c| c.name == "User"));
}

#[test]
fn test_python_extracts_function() {
    let blueprint = parse_python(sample_python());
    let functions: Vec<&Function> = blueprint
        .elements
        .iter()
        .filter_map(|e| match e {
            Element::Function(f) => Some(f),
            _ => None,
        })
        .collect();

    assert!(functions.iter().any(|f| f.name == "helper"));
}

#[test]
fn test_python_function_docstring() {
    let blueprint = parse_python(sample_python());
    let helper = blueprint
        .elements
        .iter()
        .find_map(|e| match e {
            Element::Function(f) if f.name == "helper" => Some(f),
            _ => None,
        })
        .expect("helper function");

    assert_eq!(
        helper.documentation.summary.as_deref(),
        Some("Convert values.")
    );
}

#[test]
fn test_python_class_docstring() {
    let blueprint = parse_python(sample_python());
    let user = blueprint
        .elements
        .iter()
        .find_map(|e| match e {
            Element::Class(c) if c.name == "User" => Some(c),
            _ => None,
        })
        .expect("User class");

    assert_eq!(user.documentation.summary.as_deref(), Some("User model."));
    assert!(
        user.documentation
            .description
            .as_deref()
            .unwrap_or("")
            .contains("Extended description")
    );
}

#[test]
fn test_python_staticmethod_detected() {
    let blueprint = parse_python(sample_python());
    let user = blueprint
        .elements
        .iter()
        .find_map(|e| match e {
            Element::Class(c) if c.name == "User" => Some(c),
            _ => None,
        })
        .expect("User class");

    let normalize = user
        .methods
        .iter()
        .find(|m| m.name == "normalize_name")
        .expect("normalize_name method");
    assert!(normalize.is_static, "staticmethod should be static");
}

#[test]
fn test_python_classmethod_detected() {
    let blueprint = parse_python(sample_python());
    let user = blueprint
        .elements
        .iter()
        .find_map(|e| match e {
            Element::Class(c) if c.name == "User" => Some(c),
            _ => None,
        })
        .expect("User class");

    let from_name = user
        .methods
        .iter()
        .find(|m| m.name == "from_name")
        .expect("from_name method");
    assert!(
        from_name.is_static,
        "classmethod should be treated as static"
    );
}

#[test]
fn test_python_property_decorator_creates_property() {
    let blueprint = parse_python(sample_python());
    let user = blueprint
        .elements
        .iter()
        .find_map(|e| match e {
            Element::Class(c) if c.name == "User" => Some(c),
            _ => None,
        })
        .expect("User class");

    assert!(user.properties.iter().any(|p| p.name == "is_adult"));
}

#[test]
fn test_python_type_annotations_in_parameters() {
    let blueprint = parse_python(sample_python());
    let user = blueprint
        .elements
        .iter()
        .find_map(|e| match e {
            Element::Class(c) if c.name == "User" => Some(c),
            _ => None,
        })
        .expect("User class");

    let init_method = user
        .methods
        .iter()
        .find(|m| m.name == "__init__")
        .expect("__init__ method");
    let name_param = init_method
        .signature
        .parameters
        .iter()
        .find(|p| p.name == "name")
        .expect("name parameter");

    assert_eq!(name_param.type_annotation.as_deref(), Some("str"));
}

#[test]
fn test_python_return_type_annotation() {
    let blueprint = parse_python(sample_python());
    let helper = blueprint
        .elements
        .iter()
        .find_map(|e| match e {
            Element::Function(f) if f.name == "helper" => Some(f),
            _ => None,
        })
        .expect("helper function");

    assert_eq!(
        helper.signature.return_type.as_deref(),
        Some("Optional[str]")
    );
}

#[test]
fn test_python_import_dependencies() {
    let blueprint = parse_python(sample_python());
    assert!(blueprint.dependencies.contains(&"os".to_string()));
    assert!(blueprint.dependencies.contains(&"sys".to_string()));
    assert!(blueprint.dependencies.contains(&"typing".to_string()));
}

#[test]
fn test_python_class_inheritance_dependency() {
    let blueprint = parse_python(sample_python());
    assert!(
        blueprint.dependencies.contains(&"User".to_string()),
        "Base class should appear as dependency"
    );
}

#[test]
fn test_python_assignment_property() {
    let blueprint = parse_python(sample_python());
    let user = blueprint
        .elements
        .iter()
        .find_map(|e| match e {
            Element::Class(c) if c.name == "User" => Some(c),
            _ => None,
        })
        .expect("User class");

    assert!(user.properties.iter().any(|p| p.name == "count"));
}

#[test]
fn test_python_visibility_private() {
    let code = r#"
class _Hidden:
    pass

def _helper():
    pass
"#;
    let blueprint = parse_python(code);
    let hidden = blueprint
        .elements
        .iter()
        .find_map(|e| match e {
            Element::Class(c) if c.name == "_Hidden" => Some(c),
            _ => None,
        })
        .expect("Hidden class");
    let helper = blueprint
        .elements
        .iter()
        .find_map(|e| match e {
            Element::Function(f) if f.name == "_helper" => Some(f),
            _ => None,
        })
        .expect("helper function");

    assert_eq!(hidden.visibility, Visibility::Private);
    assert_eq!(helper.visibility, Visibility::Private);
}

#[test]
fn test_dependency_graph_uses_python_terms() {
    let blueprint = Blueprint {
        source_path: "sample.py".to_string(),
        language: "python".to_string(),
        elements: vec![
            Element::Class(Class {
                name: "Widget".to_string(),
                visibility: Visibility::Public,
                methods: vec![],
                properties: vec![],
                documentation: Documentation {
                    summary: None,
                    description: None,
                    examples: vec![],
                },
            }),
            Element::Function(Function {
                name: "build".to_string(),
                visibility: Visibility::Public,
                signature: Signature {
                    parameters: vec![],
                    return_type: None,
                },
                documentation: Documentation {
                    summary: None,
                    description: None,
                    examples: vec![],
                },
            }),
        ],
        dependencies: vec![],
    };

    let layout = DependencyGraphLayout;
    let outputs = layout.format(&[blueprint]).expect("layout output");
    let content = outputs[0].1.as_str();

    assert!(content.contains("classes"));
    assert!(content.contains("defs"));
}

#[test]
fn python_blueprint_in_full() {
    let blueprint = parse_python(sample_python());
    assert_eq!(blueprint.source_path, "unknown.py");
    assert_eq!(blueprint.language, "python");
    assert_eq!(
        blueprint.dependencies,
        vec!["User".to_string(), "os".to_string(), "sys".to_string(), "typing".to_string()]
    );
    assert_eq!(blueprint.elements.len(), 3);
    let user = match &blueprint.elements[0] {
        Element::Class(c) => c,
        other => panic!("expected a class, got {:?}", other),
    };
    assert_eq!(user.name, "User");
    assert_eq!(user.visibility, Visibility::Public);
    assert_eq!(
        user.documentation.description.as_deref(),
        Some("Extended description line.")
    );
    let method_names: Vec<&str> = user.methods.iter().map(|m| m.name.as_str()).collect();
    assert_eq!(method_names, vec!["__init__", "normalize_name", "from_name"]);
    let property_names: Vec<&str> = user.properties.iter().map(|p| p.name.as_str()).collect();
    assert_eq!(property_names, vec!["count", "is_adult"]);
    assert_eq!(user.properties[1].type_annotation.as_deref(), Some("bool"));
    assert_eq!(
        user.properties[1].documentation.summary.as_deref(),
        Some("True if age is >= 18.")
    );
    let init = &user.methods[0];
    assert_eq!(init.visibility, Visibility::Public);
    assert!(!init.is_static);
    assert_eq!(init.signature.return_type.as_deref(), Some("None"));
    let params: Vec<(&str, Option<&str>, Option<&str>)> = init
        .signature
        .parameters
        .iter()
        .map(|p| (p.name.as_str(), p.type_annotation.as_deref(), p.default_value.as_deref()))
        .collect();
    assert_eq!(
        params,
        vec![
            ("self", None, None),
            ("name", Some("str"), None),
            ("age", Some("int"), Some("0")),
        ]
    );
    assert_eq!(user.methods[2].signature.return_type.as_deref(), Some("\"User\""));
    match &blueprint.elements[2] {
        Element::Class(c) => {
            assert_eq!(c.name, "Admin");
            assert!(c.methods.is_empty());
            assert!(c.documentation.summary.is_none());
        }
        other => panic!("expected a class, got {:?}", other),
    }
}

#[test]
fn python_parameter_kinds() {
    let code = "def f(a, b: int, c: str = 'x', d=1, *args, **kwargs):\n    pass\n";
    let blueprint = parse_python(code);
    let f = match &blueprint.elements[0] {
        Element::Function(f) => f,
        other => panic!("expected a function, got {:?}", other),
    };
    let params: Vec<(&str, Option<&str>, Option<&str>)> = f
        .signature
        .parameters
        .iter()
        .map(|p| (p.name.as_str(), p.type_annotation.as_deref(), p.default_value.as_deref()))
        .collect();
    assert_eq!(
        params,
        vec![
            ("a", None, None),
            ("b", Some("int"), None),
            ("c", Some("str"), Some("'x'")),
            ("d", None, Some("1")),
            ("*args", None, None),
            ("**kwargs", None, None),
        ]
    );
    assert_eq!(f.signature.return_type, None);
}

#[test]
fn python_relative_and_dotted_imports() {
    let code = "import os.path, self\nfrom ..pkg.mod import thing\nfrom . import sibling\nimport json as j\nimport os\n";
    let blueprint = parse_python(code);
    assert_eq!(
        blueprint.dependencies,
        vec!["json".to_string(), "os".to_string(), "pkg".to_string()]
    );
}

#[test]
fn python_parse_twice_gives_equal_blueprints() {
    let first = parse_python(sample_python());
    let second = parse_python(sample_python());
    assert_eq!(first, second);
}

#[test]
fn python_driver_does_not_generate() {
    let blueprint = parse_python("x = 1\n");
    assert!(blueprint.elements.is_empty());
    assert!(PythonDriver::new().generate(&blueprint).is_err());
    assert_eq!(PythonDriver.terminology().function_label, "def");
}

#[test]
fn blueprint_dependencies_are_kept_in_order_and_once() {
    let blueprint = Blueprint::new(
        "src/a.py".to_string(),
        "python".to_string(),
        vec![],
        vec![
            "zlib".to_string(),
            "self".to_string(),
            "abc".to_string(),
            "zlib".to_string(),
            "Abc".to_string(),
        ],
    );
    assert_eq!(
        blueprint.dependencies,
        vec!["Abc".to_string(), "abc".to_string(), "zlib".to_string()]
    );
    assert_eq!(blueprint.source_path, "src/a.py");
    assert_eq!(blueprint.count_classes(), 0);
    let parsed = parse_python(sample_python());
    assert_eq!(parsed.count_classes(), 2);
    assert_eq!(parsed.count_functions(), 1);
}

#[test]
fn deeply_nested_source_is_read() {
    let mut code = String::from("def f():\n    return ");
    for _ in 0..200 {
        code.push('(');
    }
    code.push('1');
    for _ in 0..200 {
        code.push(')');
    }
    code.push('\n');
    let blueprint = parse_python(&code);
    assert_eq!(blueprint.elements.len(), 1);
}

#[test]
fn a_tree_that_is_too_deep_is_an_error() {
    let mut code = String::from("x = ");
    for _ in 0..600 {
        code.push('(');
    }
    code.push('1');
    for _ in 0..600 {
        code.push(')');
    }
    code.push('\n');
    assert_eq!(PythonDriver.parse("deep.py", &code), Err(DriverError::TooDeep));
    assert_eq!(codetwin::engine::parse_file("deep.py", &code), None);
}
