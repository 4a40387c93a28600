use codetwin::config::{Config, ConfigError};
use codetwin::ir::Blueprint;
use codetwin::layouts::one_per_file::OnePerFileLayout;
use codetwin::layouts::{
    get_layout, load_custom_layout, CustomLayout, CustomLayoutConfig, CustomLayoutDocument,
    Layout, LayoutError, LayoutKind, TemplateConfig, TemplateDocument,
};
use codetwin::toml_source::Entry;

fn blueprint(path: &str, language: &str) -> Blueprint {
    Blueprint {
        source_path: path.to_string(),
        language: language.to_string(),
        elements: vec![],
        dependencies: vec![],
    }
}

fn template(header: Option<&str>, module: Option<&str>, footer: Option<&str>) -> TemplateConfig {
    TemplateConfig {
        header: header.map(|s| s.to_string()),
        module: module.map(|s| s.to_string()),
        class: None,
        function: None,
        footer: footer.map(|s| s.to_string()),
    }
}

#[test]
fn substitute_replaces_every_placeholder() {
    assert_eq!(
        CustomLayout::substitute(
            "{{a}} and {{b}} and {{a}} but {{c}}",
            &[("a", "1"), ("b", "{{a}}")]
        ),
        "1 and {{a}} and 1 but {{c}}"
    );
    assert_eq!(CustomLayout::substitute("plain", &[("a", "1")]), "plain");
    assert_eq!(CustomLayout::substitute("{{a}}", &[]), "{{a}}");
    assert_eq!(CustomLayout::substitute("{{{a}}}", &[("a", "x")]), "{x}");
}

#[test]
fn custom_layout_fills_the_module_block() {
    let layout = CustomLayout::new(CustomLayoutConfig {
        name: "simple".to_string(),
        output_file: "out.md".to_string(),
        template: template(
            Some("# Modules"),
            Some("- {{module.name}} ({{module.language}}) at {{module.source_path}} {{module.other}}"),
            Some("done"),
        ),
    });
    let blueprints = vec![blueprint("src/a.rs", "rust"), blueprint("lib/b.py", "python")];
    let docs = layout.format(&blueprints).unwrap();
    assert_eq!(docs.len(), 1);
    assert_eq!(docs[0].0, "out.md");
    assert_eq!(
        docs[0].1,
        "# Modules\n- a (rust) at src/a.rs {{module.other}}\n- b (python) at lib/b.py {{module.other}}\ndone\n"
    );
    assert_eq!(layout.format(&blueprints), layout.format(&blueprints));
}

#[test]
fn custom_layout_skips_missing_blocks() {
    let layout = CustomLayout::new(CustomLayoutConfig {
        name: "bare".to_string(),
        output_file: "bare.md".to_string(),
        template: template(None, None, None),
    });
    let docs = layout.format(&[blueprint("src/a.rs", "rust")]).unwrap();
    assert_eq!(docs[0].1, "");
}

#[test]
fn custom_layout_is_read_from_toml() {
    let text = r##"
name = "simple"
output_file = "summary.md"

[template]
header = "# Summary"
module = "* {{module.name}}"
"##;
    let layout = load_custom_layout(text).expect("valid definition");
    let docs = LayoutKind::Custom(layout).format(&[blueprint("src/engine.rs", "rust")]).unwrap();
    assert_eq!(docs[0].0, "summary.md");
    assert_eq!(docs[0].1, "# Summary\n* engine\n");
    assert_eq!(load_custom_layout("name = ").err(), Some(ConfigError::Syntax));
    assert_eq!(
        load_custom_layout("output_file = \"a.md\"\n[template]\n").err(),
        Some(ConfigError::MissingField)
    );
    assert_eq!(
        load_custom_layout("name = \"n\"\noutput_file = \"a.md\"\n").err(),
        Some(ConfigError::MissingField)
    );
    assert_eq!(
        load_custom_layout("name = \"n\"\noutput_file = 3\n[template]\n").err(),
        Some(ConfigError::WrongType)
    );
    assert_eq!(
        load_custom_layout("name = \"n\"\noutput_file = \"a.md\"\n[template]\nfooter = 1\n").err(),
        Some(ConfigError::WrongType)
    );
}

#[test]
fn definition_faults_are_reported_in_order() {
    let blocks = TemplateDocument {
        header: Entry::Absent,
        module: Entry::Other,
        class: Entry::Absent,
        function: Entry::Absent,
        footer: Entry::Found("f".to_string()),
    };
    let doc = CustomLayoutDocument {
        name: Entry::Found("n".to_string()),
        output_file: Entry::Found("o.md".to_string()),
        template: Entry::Found(blocks.clone()),
    };
    assert_eq!(CustomLayoutConfig::from_document(&doc).err(), Some(ConfigError::WrongType));
    let missing = CustomLayoutDocument { name: Entry::Absent, ..doc.clone() };
    assert_eq!(CustomLayoutConfig::from_document(&missing).err(), Some(ConfigError::MissingField));
    let good = TemplateDocument { module: Entry::Absent, ..blocks };
    let read = TemplateConfig::from_document(&good).unwrap();
    assert_eq!(read.footer.as_deref(), Some("f"));
    assert!(read.header.is_none());
}

#[test]
fn one_document_per_file() {
    let blueprints = vec![blueprint("src/foo.rs", "rust"), blueprint("", "rust")];
    let docs = OnePerFileLayout::new().format(&blueprints).unwrap();
    assert_eq!(
        docs,
        vec![
            ("foo.md".to_string(), "# foo\n\n_Not implemented yet.\n".to_string()),
            ("file.md".to_string(), "# file\n\n_Not implemented yet.\n".to_string()),
        ]
    );
    assert!(OnePerFileLayout::default().format(&[]).unwrap().is_empty());
}

#[test]
fn layouts_are_chosen_by_name() {
    let choose = |name: &str| {
        get_layout(&Config { layout: name.to_string(), ..Config::defaults() })
    };
    assert!(matches!(choose("dependency-graph"), Ok(LayoutKind::DependencyGraph(_))));
    assert!(matches!(choose("folder_markdown"), Ok(LayoutKind::FolderMarkdown(_))));
    assert!(matches!(choose("markdown"), Ok(LayoutKind::FolderMarkdown(_))));
    assert!(matches!(choose("one_per_file"), Ok(LayoutKind::OnePerFile(_))));
    assert!(matches!(choose("layered"), Ok(LayoutKind::Layered(_))));
    assert!(matches!(choose("readme-embedded"), Ok(LayoutKind::ReadmeEmbedded(_))));
    match choose("fancy") {
        Err(LayoutError::UnknownLayout(name)) => assert_eq!(name, "fancy"),
        _ => panic!("an unknown layout was accepted"),
    }
    let folder = choose("markdown").unwrap();
    let docs = folder.format(&[blueprint("src/example.rs", "rust")]).unwrap();
    assert_eq!(docs[0].0, "src.md");
    assert!(docs[0].1.contains("# src"));
    assert!(docs[0].1.contains("classDiagram"));
    assert_eq!(docs[1].0, "architecture.md");
    assert!(docs[1].1.contains("Project Architecture"));
}
