//! The one-per-file layout: a placeholder document for every blueprint.

use super::trait_def::{document_texts, Layout, LayoutError, LayoutFailure};
use crate::ir::Blueprint;
use crate::paths::{file_stem, file_stem_of};
use vstd::prelude::*;
use vstd::string::*;

verus! {

/// The layout that writes one document per source file.
pub struct OnePerFileLayout;

/// The name under which a file's document goes: its file stem, or `file`.
pub open spec fn document_stem(path: Seq<char>) -> Seq<char> {
    match file_stem_of(path) {
        Some(stem) => stem,
        None => "file"@,
    }
}

/// The document of one blueprint, with its file name.
pub open spec fn file_document(b: Blueprint) -> (Seq<char>, Seq<char>) {
    let stem = document_stem(b.source_path@);
    (stem + ".md"@, "# "@ + stem + "\n\n_Not implemented yet.\n"@)
}

/// The documents of the blueprints, in order.
pub open spec fn file_documents(bps: Seq<Blueprint>) -> Seq<(Seq<char>, Seq<char>)> {
    Seq::new(bps.len(), |i: int| file_document(bps[i]))
}

impl OnePerFileLayout {
    /// The one-per-file layout.
    pub fn new() -> Self {
        OnePerFileLayout
    }
}

impl Default for OnePerFileLayout {
    fn default() -> Self {
        OnePerFileLayout
    }
}

impl Layout for OnePerFileLayout {
    /// One document per blueprint, in the order of the blueprints.
    open spec fn documents(&self, blueprints: Seq<Blueprint>) -> Result<
        Seq<(Seq<char>, Seq<char>)>,
        LayoutFailure,
    > {
        Ok(file_documents(blueprints))
    }

    fn format(&self, blueprints: &[Blueprint]) -> (r: Result<Vec<(String, String)>, LayoutError>) {
        let mut docs: Vec<(String, String)> = Vec::new();
        let mut i: usize = 0;
        while i < blueprints.len()
            invariant
                i <= blueprints.len(),
                docs@.len() == i,
                forall|k: int|
                    0 <= k < i ==> ((#[trigger] docs@[k]).0@, docs@[k].1@) == file_document(
                        blueprints@[k],
                    ),
            decreases blueprints.len() - i,
        {
            let stem = match file_stem(blueprints[i].source_path.as_str()) {
                Some(stem) => stem,
                None => "file".to_string(),
            };
            let mut file_name = stem.clone();
            file_name.append(".md");
            let mut content = "# ".to_string();
            content.append(stem.as_str());
            content.append("\n\n_Not implemented yet.\n");
            docs.push((file_name, content));
            i = i + 1;
        }
        assert(document_texts(docs@) =~= file_documents(blueprints@));
        Ok(docs)
    }
}

} // verus!
