//! What every layout offers.

use crate::ir::Blueprint;
use vstd::prelude::*;
use vstd::string::*;

verus! {

/// Why a layout could not be chosen or could not produce its documents.
#[derive(Debug, Clone, PartialEq, Eq)]
pub enum LayoutError {
    /// No layout has the given name.
    UnknownLayout(String),
    /// The layout needs at least one blueprint and got none.
    NoBlueprints,
    /// The dependency graph would have more nodes or edges than it can hold.
    GraphTooLarge,
}

/// A layout failure as plain text.
pub enum LayoutFailure {
    UnknownLayout(Seq<char>),
    NoBlueprints,
    GraphTooLarge,
}

impl View for LayoutError {
    type V = LayoutFailure;

    open spec fn view(&self) -> LayoutFailure {
        match self {
            LayoutError::UnknownLayout(name) => LayoutFailure::UnknownLayout(name@),
            LayoutError::NoBlueprints => LayoutFailure::NoBlueprints,
            LayoutError::GraphTooLarge => LayoutFailure::GraphTooLarge,
        }
    }
}

/// The text that describes a failure.
pub open spec fn failure_text(f: LayoutFailure) -> Seq<char> {
    match f {
        LayoutFailure::UnknownLayout(name) => "Unknown layout '"@ + name + "'"@,
        LayoutFailure::NoBlueprints => "No elements found to format"@,
        LayoutFailure::GraphTooLarge => "Dependency graph is too large"@,
    }
}

impl LayoutError {
    /// A sentence that describes the failure.
    pub fn message(&self) -> (r: String)
        ensures
            r@ == failure_text(self@),
    {
        match self {
            LayoutError::UnknownLayout(name) => {
                let mut out = "Unknown layout '".to_string();
                out.append(name.as_str());
                out.append("'");
                out
            },
            LayoutError::NoBlueprints => "No elements found to format".to_string(),
            LayoutError::GraphTooLarge => "Dependency graph is too large".to_string(),
        }
    }
}

/// Named documents as plain text: (relative file name, content) pairs.
pub open spec fn document_texts(docs: Seq<(String, String)>) -> Seq<(Seq<char>, Seq<char>)> {
    Seq::new(docs.len(), |i: int| (docs[i].0@, docs[i].1@))
}

/// Whether what a layout returned is what it was to produce.
pub open spec fn produced(
    got: Result<Vec<(String, String)>, LayoutError>,
    expected: Result<Seq<(Seq<char>, Seq<char>)>, LayoutFailure>,
) -> bool {
    match got {
        Ok(docs) => expected == Ok::<Seq<(Seq<char>, Seq<char>)>, LayoutFailure>(
            document_texts(docs@),
        ),
        Err(e) => expected == Err::<Seq<(Seq<char>, Seq<char>)>, LayoutFailure>(e@),
    }
}

/// A strategy that turns blueprints into documents. A layout writes nothing
/// to disk and leaves its input as it is; what it returns depends on the
/// blueprints and its own settings alone.
pub trait Layout {
    /// The documents that this layout produces for the blueprints.
    spec fn documents(&self, blueprints: Seq<Blueprint>) -> Result<
        Seq<(Seq<char>, Seq<char>)>,
        LayoutFailure,
    >;

    /// Produces the documents for the blueprints, in order.
    fn format(&self, blueprints: &[Blueprint]) -> (r: Result<Vec<(String, String)>, LayoutError>)
        ensures
            produced(r, self.documents(blueprints@)),
    ;
}

/// Formatting is repeatable: what a layout returns for the same blueprints
/// a second time holds the same documents, byte for byte, or is the same
/// failure.
pub proof fn lemma_format_is_repeatable<L: Layout>(
    layout: L,
    blueprints: Seq<Blueprint>,
    first: Result<Vec<(String, String)>, LayoutError>,
    second: Result<Vec<(String, String)>, LayoutError>,
)
    requires
        produced(first, layout.documents(blueprints)),
        produced(second, layout.documents(blueprints)),
    ensures
        match (first, second) {
            (Ok(a), Ok(b)) => document_texts(a@) == document_texts(b@),
            (Err(e), Err(f)) => e@ == f@,
            _ => false,
        },
{
}

} // verus!
