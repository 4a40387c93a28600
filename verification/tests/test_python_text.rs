use codetwin::drivers::python::{
    argument_names, blueprint_from_tree, decorator_name_of, documentation_from_docstring,
    empty_documentation, extract_class, extract_function, extract_method, extract_parameter,
    import_from_names, import_names, normalize_dependency, strip_string_delimiters,
    visibility_from_name,
};
use codetwin::drivers::trait_def::DriverError;
use codetwin::drivers::syntax::{parse_syntax, Grammar, SyntaxNode};
use codetwin::ir::{Blueprint, Element, Visibility};

fn node(kind: &str, named: bool, field: Option<&str>, text: &str, children: Vec<SyntaxNode>) -> SyntaxNode {
    SyntaxNode {
        kind: kind.to_string(),
        named,
        field: field.map(|f| f.to_string()),
        text: Some(text.to_string()),
        children,
    }
}

#[test]
fn visibility_by_naming_convention() {
    assert_eq!(visibility_from_name("_helper"), Visibility::Private);
    assert_eq!(visibility_from_name("__init__"), Visibility::Public);
    assert_eq!(visibility_from_name("__secret"), Visibility::Private);
    assert_eq!(visibility_from_name("helper"), Visibility::Public);
    assert_eq!(visibility_from_name("helper_"), Visibility::Public);
    assert_eq!(visibility_from_name("__"), Visibility::Public);
    assert_eq!(visibility_from_name("___"), Visibility::Public);
    assert_eq!(visibility_from_name("____"), Visibility::Public);
    assert_eq!(visibility_from_name("_"), Visibility::Private);
    assert_eq!(visibility_from_name(""), Visibility::Public);
}

#[test]
fn dependencies_are_reduced_to_their_root() {
    assert_eq!(normalize_dependency(" os.path "), Some("os".to_string()));
    assert_eq!(normalize_dependency("typing"), Some("typing".to_string()));
    assert_eq!(normalize_dependency("self"), None);
    assert_eq!(normalize_dependency("self.attr"), None);
    assert_eq!(normalize_dependency("selfish"), Some("selfish".to_string()));
    assert_eq!(normalize_dependency(""), None);
    assert_eq!(normalize_dependency("   "), None);
    assert_eq!(normalize_dependency(".relative"), None);
}

#[test]
fn import_statements() {
    assert_eq!(
        import_names("import os, sys as system, a.b.c"),
        vec!["os".to_string(), "sys".to_string(), "a".to_string()]
    );
    assert!(import_names("from x import y").is_empty());
    assert!(import_names("import self, ,").is_empty());
    assert_eq!(import_from_names("from typing import Optional"), vec!["typing".to_string()]);
    assert_eq!(import_from_names("  from ..pkg.sub import a, b "), vec!["pkg".to_string()]);
    assert!(import_from_names("from . import sibling").is_empty());
    assert!(import_from_names("from x").is_empty());
    assert!(import_from_names("import os").is_empty());
}

#[test]
fn decorators_and_base_classes() {
    assert_eq!(decorator_name_of("@property"), "property");
    assert_eq!(decorator_name_of("@functools.lru_cache(maxsize=None)"), "lru_cache");
    assert_eq!(decorator_name_of(" @ app.route ('/x') "), "route");
    assert_eq!(decorator_name_of("@"), "");
    assert_eq!(
        argument_names("(Base, mixins.Loud, self, )"),
        vec!["Base".to_string(), "mixins".to_string()]
    );
    assert!(argument_names("()").is_empty());
}

#[test]
fn string_delimiters_are_taken_off() {
    assert_eq!(strip_string_delimiters("\"\"\"Doc.\"\"\""), "Doc.");
    assert_eq!(strip_string_delimiters("'''Doc.'''"), "Doc.");
    assert_eq!(strip_string_delimiters("  \"Doc.\"  "), "Doc.");
    assert_eq!(strip_string_delimiters("'Doc.'"), "Doc.");
    assert_eq!(strip_string_delimiters("r\"raw\""), "raw");
    assert_eq!(strip_string_delimiters("plain"), "plain");
    assert_eq!(strip_string_delimiters("\""), "\"");
    assert_eq!(strip_string_delimiters("\"\""), "");
    assert_eq!(strip_string_delimiters("\"\"\"\""), "\"\"");
    assert_eq!(strip_string_delimiters("\"\"\"\"\"\""), "");
    assert_eq!(strip_string_delimiters("\"open"), "\"open");
}

#[test]
fn docstrings_become_documentation() {
    let doc = documentation_from_docstring("\"\"\"Summary line.\n\n    More text.\n    Last line.\n    \"\"\"");
    assert_eq!(doc.summary.as_deref(), Some("Summary line."));
    assert_eq!(doc.description.as_deref(), Some("More text.\nLast line."));
    assert!(doc.examples.is_empty());
    let short = documentation_from_docstring("'One.'");
    assert_eq!(short.summary.as_deref(), Some("One."));
    assert_eq!(short.description, None);
    assert_eq!(documentation_from_docstring("\"\"\" \n \"\"\""), empty_documentation());
}

#[test]
fn parameters_are_read_by_kind() {
    let typed = node(
        "typed_parameter",
        true,
        None,
        "x: int",
        vec![
            node("identifier", true, None, "x", vec![]),
            node(":", false, None, ":", vec![]),
            node("type", true, Some("type"), " int ", vec![]),
        ],
    );
    let p = extract_parameter(&typed).unwrap();
    assert_eq!(p.name, "x");
    assert_eq!(p.type_annotation.as_deref(), Some("int"));
    assert_eq!(p.default_value, None);
    let splat = node(
        "dictionary_splat_pattern",
        true,
        None,
        "**kw",
        vec![node("**", false, None, "**", vec![]), node("identifier", true, None, "kw", vec![])],
    );
    assert_eq!(extract_parameter(&splat).unwrap().name, "**kw");
    let nameless = node("default_parameter", true, None, "=1", vec![]);
    assert!(extract_parameter(&nameless).is_none());
    assert!(extract_parameter(&node("comment", true, None, "# x", vec![])).is_none());
}

#[test]
fn a_definition_without_a_name_is_passed_over() {
    let nameless_function = node("function_definition", true, None, "def (): pass", vec![]);
    let good_function = node(
        "function_definition",
        true,
        None,
        "def f(): pass",
        vec![node("identifier", true, Some("name"), "f", vec![])],
    );
    let bodiless_class = node(
        "class_definition",
        true,
        None,
        "class C",
        vec![node("identifier", true, Some("name"), "C", vec![])],
    );
    let import = node("import_statement", true, None, "import zlib, self, abc", vec![]);
    let root = node("module", true, None, "", vec![nameless_function, bodiless_class, import, good_function]);
    let blueprint: Blueprint = blueprint_from_tree("pkg/m.py", &root);
    assert_eq!(blueprint.source_path, "pkg/m.py");
    assert_eq!(blueprint.language, "python");
    assert_eq!(blueprint.dependencies, vec!["abc".to_string(), "zlib".to_string()]);
    assert_eq!(blueprint.elements.len(), 1);
    assert!(matches!(&blueprint.elements[0], Element::Function(f) if f.name == "f"));
}

#[test]
fn syntax_trees_are_copied_in_source_order() {
    let root = parse_syntax(Grammar::Python, "x = 1\n").expect("a tree");
    assert_eq!(root.kind, "module");
    assert!(root.named);
    assert_eq!(root.field, None);
    assert_eq!(root.text.as_deref(), Some("x = 1\n"));
    assert_eq!(root.children.len(), 1);
    let statement = &root.children[0];
    assert_eq!(statement.kind, "expression_statement");
    let assignment = &statement.children[0];
    assert_eq!(assignment.kind, "assignment");
    let parts: Vec<(&str, bool, Option<&str>, Option<&str>)> = assignment
        .children
        .iter()
        .map(|c| (c.kind.as_str(), c.named, c.field.as_deref(), c.text.as_deref()))
        .collect();
    assert_eq!(
        parts,
        vec![
            ("identifier", true, Some("left"), Some("x")),
            ("=", false, None, Some("=")),
            ("integer", true, Some("right"), Some("1")),
        ]
    );
    assert_eq!(assignment.find_field("right"), Some(2));
    assert_eq!(assignment.find_field("type"), None);
    assert_eq!(assignment.find_kind("=", false), Some(1));
    assert_eq!(assignment.find_kind("=", true), None);
    assert_eq!(assignment.find_named(), Some(0));
    assert_eq!(assignment.read_field("left"), Some("x".to_string()));
    let rust = parse_syntax(Grammar::Rust, "fn main() {}").expect("a tree");
    assert_eq!(rust.kind, "source_file");
    assert_eq!(rust.children[0].kind, "function_item");
}

#[test]
fn definitions_without_name_or_body_are_errors() {
    let nameless = node("function_definition", true, None, "def (): pass", vec![]);
    assert_eq!(extract_function(&nameless).err(), Some(DriverError::MissingName));
    assert_eq!(extract_method(&nameless, &vec![]).err(), Some(DriverError::MissingName));
    let nameless_class = node("class_definition", true, None, "class : pass", vec![]);
    assert_eq!(extract_class(&nameless_class).err(), Some(DriverError::MissingName));
    let bodiless = node(
        "class_definition",
        true,
        None,
        "class C",
        vec![node("identifier", true, Some("name"), "C", vec![])],
    );
    assert_eq!(extract_class(&bodiless).err(), Some(DriverError::MissingBody));
    let with_bad_method = node(
        "class_definition",
        true,
        None,
        "class C: def (): pass",
        vec![
            node("identifier", true, Some("name"), "C", vec![]),
            node("block", true, Some("body"), "def (): pass", vec![nameless]),
        ],
    );
    assert_eq!(extract_class(&with_bad_method).err(), Some(DriverError::MissingName));
    let named = node(
        "function_definition",
        true,
        None,
        "def _f(): pass",
        vec![node("identifier", true, None, "_f", vec![])],
    );
    let method = extract_method(&named, &vec!["classmethod".to_string()]).unwrap();
    assert_eq!(method.name, "_f");
    assert!(method.is_static);
    assert_eq!(method.visibility, Visibility::Private);
}
