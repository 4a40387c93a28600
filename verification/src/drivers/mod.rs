//! Drivers: one per language, each turning source text into a blueprint.

pub mod markdown;
pub mod python;
pub mod rust;
pub mod syntax;
pub mod terminology;
pub mod trait_def;
pub mod typescript;

pub use terminology::{terminology_for_language, LanguageTerminology};
pub use trait_def::{Driver, DriverError};

use crate::ir::Blueprint;
use crate::paths::{extension, extension_of};
use crate::text::str_eq;
use markdown::{driver_document, MarkdownDriver};
use python::{python_blueprint, PythonDriver};
use rust::{rust_blueprint, RustDriver};
use syntax::{syntax_of, Grammar, NodeModel, SyntaxNode};
use terminology::Terms;
use typescript::TypeScriptDriver;
use vstd::prelude::*;

verus! {

/// The drivers that can be chosen by file extension.
pub enum DriverKind {
    Rust(RustDriver),
    Python(PythonDriver),
    TypeScript(TypeScriptDriver),
    Markdown(MarkdownDriver),
}

/// A choice of driver.
pub enum DriverChoice {
    Rust,
    Python,
    TypeScript,
    Markdown,
}

impl View for DriverKind {
    type V = DriverChoice;

    open spec fn view(&self) -> DriverChoice {
        match self {
            DriverKind::Rust(_) => DriverChoice::Rust,
            DriverKind::Python(_) => DriverChoice::Python,
            DriverKind::TypeScript(_) => DriverChoice::TypeScript,
            DriverKind::Markdown(_) => DriverChoice::Markdown,
        }
    }
}

/// The driver for a file extension, if there is one.
pub open spec fn choice_for_extension(extension: Option<Seq<char>>) -> Option<DriverChoice> {
    match extension {
        Some(e) => if e == "rs"@ {
            Some(DriverChoice::Rust)
        } else if e == "py"@ {
            Some(DriverChoice::Python)
        } else if e == "ts"@ || e == "tsx"@ {
            Some(DriverChoice::TypeScript)
        } else if e == "md"@ {
            Some(DriverChoice::Markdown)
        } else {
            None
        },
        None => None,
    }
}

/// Chooses the driver for a file by the extension of its path. A path
/// without an extension, or with one that no driver reads, gets none.
pub fn get_driver_for_file(path: &str) -> (r: Option<DriverKind>)
    ensures
        match r {
            Some(kind) => choice_for_extension(extension_of(path@)) == Some(kind@),
            None => choice_for_extension(extension_of(path@)) is None,
        },
{
    match extension(path) {
        Some(e) => {
            let e = e.as_str();
            if str_eq(e, "rs") {
                Some(DriverKind::Rust(RustDriver))
            } else if str_eq(e, "py") {
                Some(DriverKind::Python(PythonDriver))
            } else if str_eq(e, "ts") || str_eq(e, "tsx") {
                Some(DriverKind::TypeScript(TypeScriptDriver))
            } else if str_eq(e, "md") {
                Some(DriverKind::Markdown(MarkdownDriver))
            } else {
                None
            }
        },
        None => None,
    }
}

impl Driver for DriverKind {
    open spec fn terms(&self) -> Terms {
        match self {
            DriverKind::Rust(d) => d.terms(),
            DriverKind::Python(d) => d.terms(),
            DriverKind::TypeScript(d) => d.terms(),
            DriverKind::Markdown(d) => d.terms(),
        }
    }

    /// Parses with the driver that was chosen.
    fn parse(&self, path: &str, content: &str) -> (r: Result<Blueprint, DriverError>)
        ensures
            match self {
                DriverKind::Rust(_) => match r {
                    Ok(b) => exists|root: SyntaxNode|
                        syntax_of(Grammar::Rust, content@) == Ok::<NodeModel, DriverError>(root@)
                            && b@ == rust_blueprint(path@, root),
                    Err(e) => syntax_of(Grammar::Rust, content@) == Err::<NodeModel, DriverError>(
                        e,
                    ),
                },
                DriverKind::Python(_) => match r {
                    Ok(b) => exists|root: SyntaxNode|
                        syntax_of(Grammar::Python, content@) == Ok::<NodeModel, DriverError>(
                            root@,
                        ) && b@ == python_blueprint(path@, root),
                    Err(e) => syntax_of(Grammar::Python, content@) == Err::<
                        NodeModel,
                        DriverError,
                    >(e),
                },
                _ => r == Err::<Blueprint, DriverError>(DriverError::NotSupported),
            },
    {
        match self {
            DriverKind::Rust(d) => d.parse(path, content),
            DriverKind::Python(d) => d.parse(path, content),
            DriverKind::TypeScript(d) => d.parse(path, content),
            DriverKind::Markdown(d) => d.parse(path, content),
        }
    }

    /// Generates with the driver that was chosen.
    fn generate(&self, blueprint: &Blueprint) -> (r: Result<String, DriverError>)
        ensures
            match self {
                DriverKind::Markdown(_) => r is Ok && r->Ok_0@ == driver_document(seq![*blueprint]),
                _ => r == Err::<String, DriverError>(DriverError::NotSupported),
            },
    {
        match self {
            DriverKind::Rust(d) => d.generate(blueprint),
            DriverKind::Python(d) => d.generate(blueprint),
            DriverKind::TypeScript(d) => d.generate(blueprint),
            DriverKind::Markdown(d) => d.generate(blueprint),
        }
    }

    fn terminology(&self) -> (r: LanguageTerminology) {
        match self {
            DriverKind::Rust(d) => d.terminology(),
            DriverKind::Python(d) => d.terminology(),
            DriverKind::TypeScript(d) => d.terminology(),
            DriverKind::Markdown(d) => d.terminology(),
        }
    }
}

} // verus!
