use codetwin::config::Config;
use codetwin::discovery::{is_hidden, is_supported_source_file, should_skip};
use codetwin::drivers::trait_def::DriverError;
use codetwin::engine::WatchAction::{Generate, RestartTimer, Wait};
use codetwin::engine::WatchEvent::{Changed, QuietPeriodOver, RunFinished};
use codetwin::engine::{
    format_documents, generate_documents, keep_blueprint, output_directory, parse_file,
    watch_step, RunError, WatchState,
};
use codetwin::ir::{Blueprint, Documentation, Element, Module};
use codetwin::layouts::folder_markdown::FolderMarkdownLayout;
use codetwin::layouts::{LayoutError, LayoutKind};

fn blueprint(path: &str, with_element: bool) -> Blueprint {
    Blueprint {
        source_path: path.to_string(),
        language: "rust".to_string(),
        elements: if with_element {
            vec![Element::Module(Module {
                name: "m".to_string(),
                documentation: Documentation { summary: None, description: None, examples: vec![] },
            })]
        } else {
            vec![]
        },
        dependencies: vec![],
    }
}

#[test]
fn source_files_are_known_by_extension() {
    assert!(is_supported_source_file("src/main.rs"));
    assert!(is_supported_source_file("tools/gen.py"));
    assert!(!is_supported_source_file("README.md"));
    assert!(!is_supported_source_file("Makefile"));
    assert!(!is_supported_source_file("src/app.ts"));
}

#[test]
fn hidden_paths() {
    assert!(is_hidden(".git"));
    assert!(is_hidden("src/.cache"));
    assert!(!is_hidden("."));
    assert!(!is_hidden("src/main.rs"));
    assert!(!is_hidden(".."));
}

#[test]
fn excluded_paths_are_skipped() {
    let patterns = vec!["**/target/**".to_string(), "[broken".to_string(), "**/tests/**".to_string()];
    assert!(should_skip("/work/project/target/debug/a.rs", &patterns, "/work/project"));
    assert!(should_skip("crate/tests/unit.rs", &patterns, "/elsewhere"));
    assert!(should_skip("/work/project/src/.hidden.rs", &patterns, "/work/project"));
    assert!(!should_skip("/work/project/src/lib.rs", &patterns, "/work/project"));
    assert!(!should_skip("src/lib.rs", &vec![], "."));
    assert!(should_skip("/work/target/src/lib.rs", &vec!["target/**".to_string()], "/work"));
    assert!(!should_skip("/work/target/src/lib.rs", &vec!["target/**".to_string()], "/other"));
}

#[test]
fn only_blueprints_with_elements_are_kept() {
    assert_eq!(keep_blueprint(Ok(blueprint("a.rs", true))), Some(blueprint("a.rs", true)));
    assert_eq!(keep_blueprint(Ok(blueprint("a.rs", false))), None);
    assert_eq!(keep_blueprint(Err(DriverError::Parse)), None);
}

#[test]
fn files_are_parsed_by_their_driver() {
    let parsed = parse_file("src/a.py", "class A:\n    pass\n").expect("a blueprint");
    assert_eq!(parsed.source_path, "src/a.py");
    assert_eq!(parsed.language, "python");
    assert_eq!(parse_file("src/b.rs", "pub struct B;").map(|b| b.language), Some("rust".to_string()));
    assert_eq!(parse_file("src/empty.py", "# nothing here\n"), None);
    assert_eq!(parse_file("notes.md", "# Notes"), None);
    assert_eq!(parse_file("data.json", "{}"), None);
}

#[test]
fn the_output_directory_is_the_parent_of_the_output_file() {
    assert_eq!(output_directory("docs/architecture.md"), "docs");
    assert_eq!(output_directory("a/b/c.md"), "a/b");
    assert_eq!(output_directory("architecture.md"), "");
    assert_eq!(output_directory(""), "docs");
    assert_eq!(output_directory("/"), "docs");
}

#[test]
fn a_run_without_blueprints_fails() {
    let config = Config::defaults();
    assert_eq!(generate_documents(&config, &[]), Err(RunError::NoElements));
    let unknown = Config { layout: "nope".to_string(), ..Config::defaults() };
    assert_eq!(generate_documents(&unknown, &[]), Err(RunError::NoElements));
    assert_eq!(
        generate_documents(&unknown, &[blueprint("a.rs", true)]),
        Err(RunError::Layout(LayoutError::UnknownLayout("nope".to_string())))
    );
    let docs = generate_documents(&config, &[blueprint("a.rs", true)]).unwrap();
    assert_eq!(docs.len(), 1);
    assert_eq!(docs[0].0, "architecture.md");
    let folder = LayoutKind::FolderMarkdown(FolderMarkdownLayout::new("index.md"));
    assert_eq!(format_documents(&folder, &[]), Err(RunError::NoElements));
    assert_eq!(format_documents(&folder, &[blueprint("src/a.rs", true)]).unwrap().len(), 2);
    assert_eq!(RunError::NoElements.message(), "No elements found in any source files");
    assert_eq!(
        RunError::Layout(LayoutError::UnknownLayout("nope".to_string())).message(),
        "Unknown layout 'nope'"
    );
}

#[test]
fn watch_mode_coalesces_changes() {
    let mut state = WatchState::Idle;
    let mut actions = Vec::new();
    for event in [
        QuietPeriodOver,
        Changed,
        Changed,
        QuietPeriodOver,
        Changed,
        QuietPeriodOver,
        RunFinished,
        QuietPeriodOver,
        RunFinished,
        RunFinished,
    ] {
        let (next, action) = watch_step(state, event);
        state = next;
        actions.push(action);
    }
    assert_eq!(
        actions,
        vec![Wait, RestartTimer, RestartTimer, Generate, Wait, Wait, RestartTimer, Generate, Wait, Wait]
    );
    assert_eq!(state, WatchState::Idle);
    assert_eq!(
        watch_step(WatchState::Running { pending: false }, Changed),
        (WatchState::Running { pending: true }, Wait)
    );
    assert_eq!(watch_step(WatchState::Debouncing, RunFinished), (WatchState::Debouncing, Wait));
}
