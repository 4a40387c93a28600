//! The Markdown driver: writes a blueprint out as a document. Markdown is a
//! target, not a source.

use super::terminology::{generic_terms, LanguageTerminology, Terms};
use super::trait_def::{Driver, DriverError};
use crate::ir::{opt_text, Blueprint};
use crate::layouts::folder_markdown::{
    element_blocks, file_rows, folder_title, write_element_blocks,
};
use crate::paths;
use vstd::prelude::*;
use vstd::string::*;

pub use crate::layouts::folder_markdown::generate_index_md;

verus! {

/// The driver that writes Markdown documents.
pub struct MarkdownDriver;

/// Wraps `std::slice::from_ref`: the slice whose one item is `item`.
#[verifier::external_body]
fn one_item(item: &Blueprint) -> (r: &[Blueprint])
    ensures
        r@ == seq![*item],
{
    std::slice::from_ref(item)
}

/// The class diagram of one file: its classes, with `void` for a method
/// that names no return type. A file without elements has no diagram.
pub open spec fn diagram_of(b: Blueprint) -> Option<Seq<char>> {
    if b.elements@.len() == 0 {
        None
    } else {
        Some("classDiagram\n"@ + element_blocks(b.elements@, "void"@, b.elements@.len()))
    }
}

/// Writes the class diagram of one file.
pub fn generate_mermaid_diagram(blueprint: &Blueprint) -> (r: Option<String>)
    ensures
        opt_text(r) == diagram_of(*blueprint),
{
    if blueprint.elements.len() == 0 {
        return None;
    }
    let mut out = "classDiagram\n".to_string();
    out.append(write_element_blocks(&blueprint.elements, "void").as_str());
    Some(out)
}

/// The part of the driver's diagram that one file contributes: a comment
/// that names the file, then its classes, with `void` for a method that
/// names no return type.
pub open spec fn plain_file_block(b: Blueprint) -> Seq<char> {
    "    %% File: "@ + b.source_path@ + "\n"@ + element_blocks(
        b.elements@,
        "void"@,
        b.elements@.len(),
    )
}

/// The parts of the first `n` files.
pub open spec fn plain_file_blocks(group: Seq<Blueprint>, n: nat) -> Seq<char>
    decreases n,
{
    if n == 0 {
        Seq::empty()
    } else {
        plain_file_blocks(group, (n - 1) as nat) + plain_file_block(group[n - 1])
    }
}

/// The document that the driver writes for a group of files: title,
/// language, file list, and under the fixed heading `Classes & Functions`
/// the class diagram of the files. An empty group gives an empty text.
pub open spec fn driver_document(group: Seq<Blueprint>) -> Seq<char> {
    if group.len() == 0 {
        Seq::empty()
    } else {
        "# "@ + folder_title(group[0].source_path@) + "\n\n> Language: **"@ + group[0].language@
            + "**\n\n## Files\n\n"@ + file_rows(group, group.len())
            + "\n---\n\n## Classes & Functions\n\n```mermaid\nclassDiagram\n"@ + plain_file_blocks(
            group,
            group.len(),
        ) + "```\n\n"@
    }
}

/// Writes the document of a group of files.
pub fn generate_file_md(blueprints: &[Blueprint]) -> (r: String)
    ensures
        r@ == driver_document(blueprints@),
{
    if blueprints.len() == 0 {
        return String::new();
    }
    let first = &blueprints[0];
    let mut out = "# ".to_string();
    match paths::parent_dir_name(first.source_path.as_str()) {
        Some(folder) => {
            out.append(folder.as_str());
        },
        None => {
            out.append("Unknown");
        },
    }
    out.append("\n\n> Language: **");
    out.append(first.language.as_str());
    out.append("**\n\n## Files\n\n");
    let ghost head = out@;
    let mut k: usize = 0;
    assert(out@ =~= head + file_rows(blueprints@, 0));
    while k < blueprints.len()
        invariant
            k <= blueprints.len(),
            out@ == head + file_rows(blueprints@, k as nat),
        decreases blueprints.len() - k,
    {
        out.append("- `");
        out.append(blueprints[k].source_path.as_str());
        out.append("`\n");
        assert(out@ =~= head + (file_rows(blueprints@, k as nat) + ("- `"@
            + blueprints@[k as int].source_path@ + "`\n"@)));
        k = k + 1;
    }
    out.append("\n---\n\n## Classes & Functions\n\n```mermaid\nclassDiagram\n");
    let ghost middle = out@;
    let mut k: usize = 0;
    assert(out@ =~= middle + plain_file_blocks(blueprints@, 0));
    while k < blueprints.len()
        invariant
            k <= blueprints.len(),
            out@ == middle + plain_file_blocks(blueprints@, k as nat),
        decreases blueprints.len() - k,
    {
        let b = &blueprints[k];
        let mut block = "    %% File: ".to_string();
        block.append(b.source_path.as_str());
        block.append("\n");
        block.append(write_element_blocks(&b.elements, "void").as_str());
        out.append(block.as_str());
        assert(out@ =~= middle + (plain_file_blocks(blueprints@, k as nat) + plain_file_block(
            blueprints@[k as int],
        )));
        k = k + 1;
    }
    out.append("```\n\n");
    out
}

impl Driver for MarkdownDriver {
    open spec fn terms(&self) -> Terms {
        generic_terms()
    }

    /// Markdown is not read: parsing is not offered.
    fn parse(&self, path: &str, content: &str) -> (r: Result<Blueprint, DriverError>)
        ensures
            r is Err,
            r->Err_0 == DriverError::NotSupported,
    {
        Err(DriverError::NotSupported)
    }

    /// Writes the document of the one file that the blueprint stands for.
    fn generate(&self, blueprint: &Blueprint) -> (r: Result<String, DriverError>)
        ensures
            r is Ok,
            r->Ok_0@ == driver_document(seq![*blueprint]),
    {
        Ok(generate_file_md(one_item(blueprint)))
    }

    fn terminology(&self) -> (r: LanguageTerminology) {
        LanguageTerminology::generic()
    }
}

} // verus!
