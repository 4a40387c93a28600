//! What every driver offers.

use super::terminology::{LanguageTerminology, Terms};
use crate::ir::Blueprint;
use vstd::prelude::*;

verus! {

/// Why a driver could not do what it was asked.
#[derive(Debug, Clone, Copy, PartialEq, Eq, Structural)]
pub enum DriverError {
    /// The grammar could not be loaded into the parser.
    Language,
    /// No syntax tree could be built for the source text.
    Parse,
    /// The syntax tree of the source text is deeper than a driver reads.
    TooDeep,
    /// A declaration has neither a name field nor an identifier.
    MissingName,
    /// A class declaration has no body.
    MissingBody,
    /// The driver does not offer the operation.
    NotSupported,
}

/// The text that describes a failure.
pub open spec fn error_text(e: DriverError) -> Seq<char> {
    match e {
        DriverError::Language => "Failed to set language"@,
        DriverError::Parse => "Failed to parse source"@,
        DriverError::TooDeep => "Failed to parse source: syntax tree is too deep"@,
        DriverError::MissingName => "Missing identifier"@,
        DriverError::MissingBody => "Missing class body"@,
        DriverError::NotSupported => "Not implemented yet"@,
    }
}

impl DriverError {
    /// A sentence that describes the failure.
    pub fn message(&self) -> (r: String)
        ensures
            r@ == error_text(*self),
    {
        match self {
            DriverError::Language => "Failed to set language".to_string(),
            DriverError::Parse => "Failed to parse source".to_string(),
            DriverError::TooDeep => "Failed to parse source: syntax tree is too deep".to_string(),
            DriverError::MissingName => "Missing identifier".to_string(),
            DriverError::MissingBody => "Missing class body".to_string(),
            DriverError::NotSupported => "Not implemented yet".to_string(),
        }
    }
}

/// A per-language adapter between source text and blueprints.
pub trait Driver {
    /// The vocabulary of the driver's language.
    spec fn terms(&self) -> Terms;

    /// Reads the source text of the file at `path` into a blueprint. The
    /// blueprint carries the path, names every dependency once and never
    /// names `self` as one.
    fn parse(&self, path: &str, content: &str) -> (r: Result<Blueprint, DriverError>)
        ensures
            match r {
                Ok(b) => b.source_path@ == path@ && b.well_formed(),
                Err(_) => true,
            },
    ;

    /// Writes a blueprint out as text, where the driver has a target format.
    fn generate(&self, blueprint: &Blueprint) -> (r: Result<String, DriverError>);

    /// The vocabulary that layouts use for the driver's language.
    fn terminology(&self) -> (r: LanguageTerminology)
        ensures
            r@ == self.terms(),
    ;
}

} // verus!
