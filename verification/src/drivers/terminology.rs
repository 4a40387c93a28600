//! Per-language vocabulary. It words what the layouts write and plays no
//! part in parsing.

use crate::text::str_eq;
use vstd::prelude::*;

verus! {

/// The words a language uses for its constructs.
#[derive(Debug, Clone)]
pub struct LanguageTerminology {
    /// One type: "type", "struct", "class".
    pub element_type_singular: String,
    /// Several types.
    pub element_type_plural: String,
    /// One function: "item", "fn", "def".
    pub function_label: String,
    /// Several functions.
    pub function_label_plural: String,
    /// What a function returns when it names no type.
    pub return_type_default: String,
    /// One member of a type: "field", "attribute".
    pub property_label: String,
    /// Several members.
    pub property_label_plural: String,
}

/// The vocabulary as plain text.
pub struct Terms {
    pub element_type_singular: Seq<char>,
    pub element_type_plural: Seq<char>,
    pub function_label: Seq<char>,
    pub function_label_plural: Seq<char>,
    pub return_type_default: Seq<char>,
    pub property_label: Seq<char>,
    pub property_label_plural: Seq<char>,
}

impl View for LanguageTerminology {
    type V = Terms;

    open spec fn view(&self) -> Terms {
        Terms {
            element_type_singular: self.element_type_singular@,
            element_type_plural: self.element_type_plural@,
            function_label: self.function_label@,
            function_label_plural: self.function_label_plural@,
            return_type_default: self.return_type_default@,
            property_label: self.property_label@,
            property_label_plural: self.property_label_plural@,
        }
    }
}

/// The vocabulary that fits any language.
pub open spec fn generic_terms() -> Terms {
    Terms {
        element_type_singular: "type"@,
        element_type_plural: "types"@,
        function_label: "item"@,
        function_label_plural: "items"@,
        return_type_default: "\u{2014}"@,
        property_label: "field"@,
        property_label_plural: "fields"@,
    }
}

/// The vocabulary of Rust.
pub open spec fn rust_terms() -> Terms {
    Terms {
        element_type_singular: "struct"@,
        element_type_plural: "structs"@,
        function_label: "fn"@,
        function_label_plural: "fns"@,
        return_type_default: "()"@,
        property_label: "field"@,
        property_label_plural: "fields"@,
    }
}

/// The vocabulary of Python.
pub open spec fn python_terms() -> Terms {
    Terms {
        element_type_singular: "class"@,
        element_type_plural: "classes"@,
        function_label: "def"@,
        function_label_plural: "defs"@,
        return_type_default: "None"@,
        property_label: "attribute"@,
        property_label_plural: "attributes"@,
    }
}

/// The vocabulary of Go.
pub open spec fn go_terms() -> Terms {
    Terms {
        element_type_singular: "type"@,
        element_type_plural: "types"@,
        function_label: "func"@,
        function_label_plural: "funcs"@,
        return_type_default: "error"@,
        property_label: "field"@,
        property_label_plural: "fields"@,
    }
}

/// The vocabulary of Haskell.
pub open spec fn haskell_terms() -> Terms {
    Terms {
        element_type_singular: "data type"@,
        element_type_plural: "data types"@,
        function_label: "function"@,
        function_label_plural: "functions"@,
        return_type_default: "IO ()"@,
        property_label: "constructor"@,
        property_label_plural: "constructors"@,
    }
}

/// The vocabulary of TypeScript and JavaScript.
pub open spec fn typescript_terms() -> Terms {
    Terms {
        element_type_singular: "class"@,
        element_type_plural: "classes"@,
        function_label: "method"@,
        function_label_plural: "methods"@,
        return_type_default: "void"@,
        property_label: "property"@,
        property_label_plural: "properties"@,
    }
}

/// The vocabulary for a language tag; an unknown tag gets the generic one.
pub open spec fn terms_for(language: Seq<char>) -> Terms {
    if language == "rust"@ {
        rust_terms()
    } else if language == "python"@ {
        python_terms()
    } else if language == "typescript"@ || language == "javascript"@ {
        typescript_terms()
    } else {
        generic_terms()
    }
}

impl LanguageTerminology {
    /// Words that fit any language.
    pub fn generic() -> (r: Self)
        ensures
            r@ == generic_terms(),
    {
        LanguageTerminology {
            element_type_singular: "type".to_string(),
            element_type_plural: "types".to_string(),
            function_label: "item".to_string(),
            function_label_plural: "items".to_string(),
            return_type_default: "\u{2014}".to_string(),
            property_label: "field".to_string(),
            property_label_plural: "fields".to_string(),
        }
    }

    /// The words of Rust.
    pub fn rust() -> (r: Self)
        ensures
            r@ == rust_terms(),
    {
        LanguageTerminology {
            element_type_singular: "struct".to_string(),
            element_type_plural: "structs".to_string(),
            function_label: "fn".to_string(),
            function_label_plural: "fns".to_string(),
            return_type_default: "()".to_string(),
            property_label: "field".to_string(),
            property_label_plural: "fields".to_string(),
        }
    }

    /// The words of Python.
    pub fn python() -> (r: Self)
        ensures
            r@ == python_terms(),
    {
        LanguageTerminology {
            element_type_singular: "class".to_string(),
            element_type_plural: "classes".to_string(),
            function_label: "def".to_string(),
            function_label_plural: "defs".to_string(),
            return_type_default: "None".to_string(),
            property_label: "attribute".to_string(),
            property_label_plural: "attributes".to_string(),
        }
    }

    /// The words of Go.
    pub fn go() -> (r: Self)
        ensures
            r@ == go_terms(),
    {
        LanguageTerminology {
            element_type_singular: "type".to_string(),
            element_type_plural: "types".to_string(),
            function_label: "func".to_string(),
            function_label_plural: "funcs".to_string(),
            return_type_default: "error".to_string(),
            property_label: "field".to_string(),
            property_label_plural: "fields".to_string(),
        }
    }

    /// The words of Haskell.
    pub fn haskell() -> (r: Self)
        ensures
            r@ == haskell_terms(),
    {
        LanguageTerminology {
            element_type_singular: "data type".to_string(),
            element_type_plural: "data types".to_string(),
            function_label: "function".to_string(),
            function_label_plural: "functions".to_string(),
            return_type_default: "IO ()".to_string(),
            property_label: "constructor".to_string(),
            property_label_plural: "constructors".to_string(),
        }
    }

    /// The words of TypeScript and JavaScript.
    pub fn typescript() -> (r: Self)
        ensures
            r@ == typescript_terms(),
    {
        LanguageTerminology {
            element_type_singular: "class".to_string(),
            element_type_plural: "classes".to_string(),
            function_label: "method".to_string(),
            function_label_plural: "methods".to_string(),
            return_type_default: "void".to_string(),
            property_label: "property".to_string(),
            property_label_plural: "properties".to_string(),
        }
    }
}

/// The vocabulary for a language tag, without looking at any file.
pub fn terminology_for_language(language: &str) -> (r: LanguageTerminology)
    ensures
        r@ == terms_for(language@),
{
    if str_eq(language, "rust") {
        LanguageTerminology::rust()
    } else if str_eq(language, "python") {
        LanguageTerminology::python()
    } else if str_eq(language, "typescript") || str_eq(language, "javascript") {
        LanguageTerminology::typescript()
    } else {
        LanguageTerminology::generic()
    }
}

} // verus!
