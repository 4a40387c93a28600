//! The TypeScript driver. It offers the vocabulary of the language and
//! neither parsing nor generation.

use super::terminology::{typescript_terms, LanguageTerminology, Terms};
use super::trait_def::{Driver, DriverError};
use crate::ir::Blueprint;
use vstd::prelude::*;

verus! {

/// The driver for TypeScript source files.
pub struct TypeScriptDriver;

impl Driver for TypeScriptDriver {
    open spec fn terms(&self) -> Terms {
        typescript_terms()
    }

    fn parse(&self, path: &str, content: &str) -> (r: Result<Blueprint, DriverError>)
        ensures
            r is Err,
            r->Err_0 == DriverError::NotSupported,
    {
        Err(DriverError::NotSupported)
    }

    fn generate(&self, blueprint: &Blueprint) -> (r: Result<String, DriverError>)
        ensures
            r == Err::<String, DriverError>(DriverError::NotSupported),
    {
        Err(DriverError::NotSupported)
    }

    fn terminology(&self) -> (r: LanguageTerminology) {
        LanguageTerminology::typescript()
    }
}

} // verus!
