//! The Python driver: reads the syntax tree of a Python file into a blueprint.

use super::syntax::{
    get_trimmed_field, parse_syntax, syntax_of, trimmed_field, Grammar, NodeModel, SyntaxNode,
};
use super::terminology::{python_terms, LanguageTerminology, Terms};
use super::trait_def::{Driver, DriverError};
use crate::ir::{
    canonical, element_models, method_models, no_documentation, opt_text, parameter_models,
    property_models, Blueprint, BlueprintModel, Class, ClassModel, Documentation,
    DocumentationModel, Element, ElementModel, Function, FunctionModel, Method, MethodModel,
    Parameter, ParameterModel, Property, PropertyModel, Signature, SignatureModel, Visibility,
};
use crate::names::find_name;
use crate::text::{
    after_last, before_first, chars_of, ends_with, find_char, first_of, first_word, has_prefix,
    has_suffix,
    join, joined, matches_at, slice, split, split_at_char, split_at_first, split_once, starts_with,
    str_eq, string_of, strip_prefix, take_after_last, take_before_first, take_first_word, texts,
    trim, trim_end_matches, trim_start_matches, trimmed, trimmed_end, trimmed_start,
    without_prefix,
};
use vstd::prelude::*;
use vstd::string::*;

verus! {

/// The driver for Python source files.
pub struct PythonDriver;

/// The visibility that a Python name stands for: a name with two leading
/// and two trailing underscores is public, any other name with a leading
/// underscore is private, and every other name is public.
pub open spec fn name_visibility(name: Seq<char>) -> Visibility {
    if has_prefix(name, "__"@) {
        if has_suffix(name, "__"@) {
            Visibility::Public
        } else {
            Visibility::Private
        }
    } else if has_prefix(name, "_"@) {
        Visibility::Private
    } else {
        Visibility::Public
    }
}

/// Reads the visibility off a name.
pub fn visibility_from_name(name: &str) -> (r: Visibility)
    ensures
        r == name_visibility(name@),
{
    if starts_with(name, "__") {
        if ends_with(name, "__") {
            Visibility::Public
        } else {
            Visibility::Private
        }
    } else if starts_with(name, "_") {
        Visibility::Private
    } else {
        Visibility::Public
    }
}

/// The dependency that a dotted name stands for: its first segment, with
/// the whitespace around the name taken away. An empty name, a name that
/// starts with a dot and the name `self` stand for none.
pub open spec fn dependency_root(name: Seq<char>) -> Option<Seq<char>> {
    let root = before_first(trimmed(name), '.');
    if trimmed(name).len() == 0 || root.len() == 0 || root == "self"@ {
        None
    } else {
        Some(root)
    }
}

/// Reduces a dotted name to the dependency that it stands for.
pub fn normalize_dependency(name: &str) -> (r: Option<String>)
    ensures
        opt_text(r) == dependency_root(name@),
{
    let t = trim(name);
    if t.as_str().is_empty() {
        return None;
    }
    let root = take_before_first(t.as_str(), '.');
    if root.as_str().is_empty() || str_eq(root.as_str(), "self") {
        None
    } else {
        Some(root)
    }
}

/// Documentation with nothing in it.
pub fn empty_documentation() -> (r: Documentation)
    ensures
        r@ == no_documentation(),
{
    Documentation::empty()
}

/// Where the string of a literal begins: at its first double quote, else at
/// its first single quote, else at its start.
pub open spec fn first_quote(s: Seq<char>) -> nat {
    if first_of(s, '"') < s.len() {
        first_of(s, '"')
    } else if first_of(s, '\'') < s.len() {
        first_of(s, '\'')
    } else {
        0
    }
}

/// Whether a text begins and ends with the delimiter, without the two
/// overlapping.
pub open spec fn delimited_by(s: Seq<char>, d: Seq<char>) -> bool {
    has_prefix(s, d) && has_suffix(s, d) && s.len() >= 2 * d.len()
}

/// What stands between the delimiters.
pub open spec fn between(s: Seq<char>, d: Seq<char>) -> Seq<char> {
    s.subrange(d.len() as int, s.len() - d.len())
}

/// A string literal without its prefix letters and its quotes. The triple
/// quotes are tried before the single ones.
pub open spec fn without_delimiters(text: Seq<char>) -> Seq<char> {
    let t = trimmed(text);
    let w = t.skip(first_quote(t) as int);
    if delimited_by(w, "\"\"\""@) {
        between(w, "\"\"\""@)
    } else if delimited_by(w, "'''"@) {
        between(w, "'''"@)
    } else if delimited_by(w, "\""@) {
        between(w, "\""@)
    } else if delimited_by(w, "'"@) {
        between(w, "'"@)
    } else {
        w
    }
}

/// Takes the delimiter off both ends, where the text has it at both.
fn strip_delimiter(w: &Vec<char>, delimiter: &str) -> (r: Option<String>)
    ensures
        match r {
            Some(inner) => delimited_by(w@, delimiter@) && inner@ == between(w@, delimiter@),
            None => !delimited_by(w@, delimiter@),
        },
{
    let d = chars_of(delimiter);
    if d.len() > w.len() || d.len() > w.len() - d.len() {
        return None;
    }
    if matches_at(w, 0, &d) && matches_at(w, w.len() - d.len(), &d) {
        let inner = slice(w, d.len(), w.len() - d.len());
        Some(string_of(&inner))
    } else {
        None
    }
}

/// Takes the prefix letters and the quotes off a string literal.
pub fn strip_string_delimiters(text: &str) -> (r: String)
    ensures
        r@ == without_delimiters(text@),
{
    let t = trim(text);
    let v = chars_of(t.as_str());
    assert(v@.skip(0) =~= v@);
    let double = find_char(&v, 0, '"');
    let single = find_char(&v, 0, '\'');
    let start: usize = if double < v.len() {
        double
    } else if single < v.len() {
        single
    } else {
        0
    };
    let w = slice(&v, start, v.len());
    assert(w@ =~= t@.skip(first_quote(t@) as int));
    match strip_delimiter(&w, "\"\"\"") {
        Some(inner) => inner,
        None => match strip_delimiter(&w, "'''") {
            Some(inner) => inner,
            None => match strip_delimiter(&w, "\"") {
                Some(inner) => inner,
                None => match strip_delimiter(&w, "'") {
                    Some(inner) => inner,
                    None => string_of(&w),
                },
            },
        },
    }
}

/// The first `n` pieces, each without the whitespace around it, the empty
/// ones left out.
pub open spec fn kept_lines(pieces: Seq<Seq<char>>, n: nat) -> Seq<Seq<char>>
    decreases n,
{
    if n == 0 {
        Seq::empty()
    } else {
        let before = kept_lines(pieces, (n - 1) as nat);
        if trimmed(pieces[n - 1]).len() > 0 {
            before.push(trimmed(pieces[n - 1]))
        } else {
            before
        }
    }
}

/// The lines of a docstring that carry text.
pub open spec fn docstring_lines(text: Seq<char>) -> Seq<Seq<char>> {
    let pieces = split(without_delimiters(text), '\n');
    kept_lines(pieces, pieces.len())
}

/// The documentation that a docstring gives: its first line with text is
/// the summary, the other lines with text are the description.
pub open spec fn docstring_documentation(text: Seq<char>) -> DocumentationModel {
    let lines = docstring_lines(text);
    DocumentationModel {
        summary: if lines.len() > 0 {
            Some(lines[0])
        } else {
            None
        },
        description: if lines.len() > 1 {
            Some(joined(lines.skip(1), "\n"@))
        } else {
            None
        },
        examples: Seq::empty(),
    }
}

/// Reads a docstring into documentation.
pub fn documentation_from_docstring(text: &str) -> (r: Documentation)
    ensures
        r@ == docstring_documentation(text@),
{
    let cleaned = strip_string_delimiters(text);
    let pieces = split_at_char(cleaned.as_str(), '\n');
    let ghost all = texts(pieces@);
    let mut lines: Vec<String> = Vec::new();
    let mut i: usize = 0;
    assert(texts(lines@) =~= kept_lines(all, 0));
    while i < pieces.len()
        invariant
            i <= pieces.len(),
            all == texts(pieces@),
            texts(lines@) == kept_lines(all, i as nat),
        decreases pieces.len() - i,
    {
        let line = trim(pieces[i].as_str());
        assert(line@ == trimmed(all[i as int]));
        if !line.as_str().is_empty() {
            let ghost before = texts(lines@);
            lines.push(line);
            assert(texts(lines@) =~= before.push(trimmed(all[i as int])));
        }
        i = i + 1;
    }
    let ghost kept = texts(lines@);
    assert(kept == docstring_lines(text@));
    if lines.len() == 0 {
        let r = Documentation { summary: None, description: None, examples: Vec::new() };
        assert(r@.examples =~= Seq::<Seq<char>>::empty());
        return r;
    }
    let summary = lines.remove(0);
    assert(texts(lines@) =~= kept.skip(1));
    let description = if lines.len() == 0 {
        None
    } else {
        Some(join(&lines, "\n"))
    };
    let r = Documentation { summary: Some(summary), description, examples: Vec::new() };
    assert(r@.examples =~= Seq::<Seq<char>>::empty());
    r
}

/// The dependencies that the first `n` items of an import list name: of
/// each item its first word, reduced to its root.
pub open spec fn imported_names(items: Seq<Seq<char>>, n: nat) -> Seq<Seq<char>>
    decreases n,
{
    if n == 0 {
        Seq::empty()
    } else {
        let before = imported_names(items, (n - 1) as nat);
        let word = match first_word(items[n - 1]) {
            Some(w) => w,
            None => Seq::empty(),
        };
        match dependency_root(word) {
            Some(root) => before.push(root),
            None => before,
        }
    }
}

/// The dependencies that an `import a, b as c` statement names.
pub open spec fn import_dependencies(text: Seq<char>) -> Seq<Seq<char>> {
    match without_prefix(trimmed(text), "import "@) {
        Some(list) => imported_names(split(list, ','), split(list, ',').len()),
        None => Seq::empty(),
    }
}

/// The dependency that a `from a.b import c` statement names: the module
/// without leading dots, reduced to its root.
pub open spec fn import_from_dependencies(text: Seq<char>) -> Seq<Seq<char>> {
    match without_prefix(trimmed(text), "from "@) {
        Some(rest) => match split_once(rest, " import "@) {
            Some(parts) => match dependency_root(trimmed_start(trimmed(parts.0), Some('.'))) {
                Some(root) => seq![root],
                None => Seq::empty(),
            },
            None => Seq::empty(),
        },
        None => Seq::empty(),
    }
}

/// Reads the dependencies off the text of an import statement.
pub fn import_names(text: &str) -> (r: Vec<String>)
    ensures
        texts(r@) == import_dependencies(text@),
{
    let mut deps: Vec<String> = Vec::new();
    let t = trim(text);
    match strip_prefix(t.as_str(), "import ") {
        Some(list) => {
            let items = split_at_char(list.as_str(), ',');
            let ghost all = texts(items@);
            let mut i: usize = 0;
            assert(texts(deps@) =~= imported_names(all, 0));
            while i < items.len()
                invariant
                    i <= items.len(),
                    all == texts(items@),
                    texts(deps@) == imported_names(all, i as nat),
                decreases items.len() - i,
            {
                let word = match take_first_word(items[i].as_str()) {
                    Some(w) => w,
                    None => String::new(),
                };
                match normalize_dependency(word.as_str()) {
                    Some(root) => {
                        let ghost before = texts(deps@);
                        deps.push(root);
                        assert(texts(deps@) =~= before.push(root@));
                    },
                    None => {},
                }
                i = i + 1;
            }
            deps
        },
        None => {
            assert(texts(deps@) =~= Seq::<Seq<char>>::empty());
            deps
        },
    }
}

/// Reads the dependency off the text of a from-import statement.
pub fn import_from_names(text: &str) -> (r: Vec<String>)
    ensures
        texts(r@) == import_from_dependencies(text@),
{
    let mut deps: Vec<String> = Vec::new();
    assert(texts(deps@) =~= Seq::<Seq<char>>::empty());
    let t = trim(text);
    match strip_prefix(t.as_str(), "from ") {
        Some(rest) => match split_at_first(rest.as_str(), " import ") {
            Some(parts) => {
                let module = trim_start_matches(trim(parts.0.as_str()).as_str(), '.');
                match normalize_dependency(module.as_str()) {
                    Some(root) => {
                        deps.push(root);
                        assert(texts(deps@) =~= seq![root@]);
                    },
                    None => {},
                }
            },
            None => {},
        },
        None => {},
    }
    deps
}

/// The bare name of a decorator: without `@`, without call arguments and
/// without qualifying prefixes.
pub open spec fn decorator_name(text: Seq<char>) -> Seq<char> {
    trimmed(after_last(before_first(trimmed_start(trimmed(text), Some('@')), '('), '.'))
}

/// Reads the bare name off the text of a decorator.
pub fn decorator_name_of(text: &str) -> (r: String)
    ensures
        r@ == decorator_name(text@),
{
    let bare = trim_start_matches(trim(text).as_str(), '@');
    let callee = take_before_first(bare.as_str(), '(');
    let last = take_after_last(callee.as_str(), '.');
    trim(last.as_str())
}

/// The dependencies that the first `n` items of an argument list name.
pub open spec fn base_names(items: Seq<Seq<char>>, n: nat) -> Seq<Seq<char>>
    decreases n,
{
    if n == 0 {
        Seq::empty()
    } else {
        let before = base_names(items, (n - 1) as nat);
        match dependency_root(trimmed(items[n - 1])) {
            Some(root) => before.push(root),
            None => before,
        }
    }
}

/// The dependencies that the text of an argument list names: the list
/// without its parentheses, item by item.
pub open spec fn argument_dependencies(text: Seq<char>) -> Seq<Seq<char>> {
    let inner = trimmed_end(trimmed_start(trimmed(text), Some('(')), Some(')'));
    base_names(split(inner, ','), split(inner, ',').len())
}

/// Reads the base classes off the text of an argument list.
pub fn argument_names(text: &str) -> (r: Vec<String>)
    ensures
        texts(r@) == argument_dependencies(text@),
{
    let inner = trim_end_matches(trim_start_matches(trim(text).as_str(), '(').as_str(), ')');
    let items = split_at_char(inner.as_str(), ',');
    let ghost all = texts(items@);
    let mut deps: Vec<String> = Vec::new();
    let mut i: usize = 0;
    assert(texts(deps@) =~= base_names(all, 0));
    while i < items.len()
        invariant
            i <= items.len(),
            all == texts(items@),
            texts(deps@) == base_names(all, i as nat),
        decreases items.len() - i,
    {
        match normalize_dependency(trim(items[i].as_str()).as_str()) {
            Some(root) => {
                let ghost before = texts(deps@);
                deps.push(root);
                assert(texts(deps@) =~= before.push(root@));
            },
            None => {},
        }
        i = i + 1;
    }
    deps
}

/// The text of the first named child that is an identifier; empty where
/// that child has no text.
pub open spec fn first_identifier(node: SyntaxNode) -> Option<Seq<char>> {
    match node.child_of_kind("identifier"@, true) {
        Some(at) => Some(node.children@[at].text_or_empty()),
        None => None,
    }
}

/// The name that a declaration declares: the text of its name field, else
/// its first identifier.
pub open spec fn declared_name(node: SyntaxNode) -> Option<Seq<char>> {
    match node.field_text("name"@) {
        Some(name) => Some(name),
        None => first_identifier(node),
    }
}

fn get_first_identifier(node: &SyntaxNode) -> (r: Option<String>)
    ensures
        opt_text(r) == first_identifier(*node),
{
    match node.find_kind("identifier", true) {
        Some(at) => match &node.children[at].text {
            Some(t) => Some(t.clone()),
            None => Some(String::new()),
        },
        None => None,
    }
}

fn get_name(node: &SyntaxNode) -> (r: Option<String>)
    ensures
        opt_text(r) == declared_name(*node),
{
    match node.read_field("name") {
        Some(name) => Some(name),
        None => get_first_identifier(node),
    }
}

/// The parameter that a node of a parameter list stands for, by the kind of
/// the node: a bare identifier, a typed parameter with or without default,
/// a parameter with default only, or a variadic one, whose name keeps its
/// stars. A node of another kind, or one without a name, stands for none.
pub open spec fn parameter_of(node: SyntaxNode) -> Option<ParameterModel> {
    if node.is_kind("identifier"@) {
        match node.text {
            Some(t) => Some(
                ParameterModel { name: t@, type_annotation: None, default_value: None },
            ),
            None => None,
        }
    } else if node.is_kind("typed_parameter"@) || node.is_kind("typed_default_parameter"@) {
        match declared_name(node) {
            Some(name) => Some(
                ParameterModel {
                    name,
                    type_annotation: trimmed_field(node, "type"@),
                    default_value: trimmed_field(node, "value"@),
                },
            ),
            None => None,
        }
    } else if node.is_kind("default_parameter"@) {
        match declared_name(node) {
            Some(name) => Some(
                ParameterModel {
                    name,
                    type_annotation: None,
                    default_value: trimmed_field(node, "value"@),
                },
            ),
            None => None,
        }
    } else if node.is_kind("list_splat_pattern"@) {
        match first_identifier(node) {
            Some(name) => Some(
                ParameterModel { name: "*"@ + name, type_annotation: None, default_value: None },
            ),
            None => None,
        }
    } else if node.is_kind("dictionary_splat_pattern"@) {
        match first_identifier(node) {
            Some(name) => Some(
                ParameterModel { name: "**"@ + name, type_annotation: None, default_value: None },
            ),
            None => None,
        }
    } else {
        None
    }
}

/// Reads one node of a parameter list.
pub fn extract_parameter(node: &SyntaxNode) -> (r: Option<Parameter>)
    ensures
        match r {
            Some(p) => parameter_of(*node) == Some(p@),
            None => parameter_of(*node) is None,
        },
{
    if node.has_kind("identifier") {
        match &node.text {
            Some(t) => Some(Parameter { name: t.clone(), type_annotation: None, default_value: None }),
            None => None,
        }
    } else if node.has_kind("typed_parameter") || node.has_kind("typed_default_parameter") {
        match get_name(node) {
            Some(name) => Some(
                Parameter {
                    name,
                    type_annotation: get_trimmed_field(node, "type"),
                    default_value: get_trimmed_field(node, "value"),
                },
            ),
            None => None,
        }
    } else if node.has_kind("default_parameter") {
        match get_name(node) {
            Some(name) => Some(
                Parameter {
                    name,
                    type_annotation: None,
                    default_value: get_trimmed_field(node, "value"),
                },
            ),
            None => None,
        }
    } else if node.has_kind("list_splat_pattern") {
        match get_first_identifier(node) {
            Some(name) => {
                let mut starred = "*".to_string();
                starred.append(name.as_str());
                Some(Parameter { name: starred, type_annotation: None, default_value: None })
            },
            None => None,
        }
    } else if node.has_kind("dictionary_splat_pattern") {
        match get_first_identifier(node) {
            Some(name) => {
                let mut starred = "**".to_string();
                starred.append(name.as_str());
                Some(Parameter { name: starred, type_annotation: None, default_value: None })
            },
            None => None,
        }
    } else {
        None
    }
}

/// The parameters that the first `n` children of a parameter list stand
/// for: one for every named child that stands for a parameter.
pub open spec fn parameters_of(list: SyntaxNode, n: nat) -> Seq<ParameterModel>
    decreases n,
{
    if n == 0 {
        Seq::empty()
    } else {
        let before = parameters_of(list, (n - 1) as nat);
        let child = list.children@[n - 1];
        if child.named {
            match parameter_of(child) {
                Some(p) => before.push(p),
                None => before,
            }
        } else {
            before
        }
    }
}

/// Reads a parameter list.
pub fn extract_parameters(list: &SyntaxNode) -> (r: Vec<Parameter>)
    ensures
        parameter_models(r@) == parameters_of(*list, list.children@.len()),
{
    let mut parameters: Vec<Parameter> = Vec::new();
    let mut i: usize = 0;
    assert(parameter_models(parameters@) =~= parameters_of(*list, 0));
    while i < list.children.len()
        invariant
            i <= list.children.len(),
            parameter_models(parameters@) == parameters_of(*list, i as nat),
        decreases list.children.len() - i,
    {
        if list.children[i].named {
            match extract_parameter(&list.children[i]) {
                Some(p) => {
                    let ghost before = parameter_models(parameters@);
                    let ghost added = p@;
                    parameters.push(p);
                    assert(parameter_models(parameters@) =~= before.push(added));
                },
                None => {},
            }
        }
        i = i + 1;
    }
    parameters
}

/// The text of a child without the whitespace around it.
pub open spec fn trimmed_text(node: SyntaxNode, at: int) -> Option<Seq<char>> {
    match node.children@[at].text {
        Some(t) => Some(trimmed(t@)),
        None => None,
    }
}

/// The return type of a definition: the text of its `return_type` field,
/// else of its `type` field; where neither gives text, the text of the
/// child that follows the first arrow.
pub open spec fn return_type_of(node: SyntaxNode) -> Option<Seq<char>> {
    let declared = match node.child_by_field("return_type"@) {
        Some(at) => Some(at),
        None => node.child_by_field("type"@),
    };
    let from_field = match declared {
        Some(at) => trimmed_text(node, at),
        None => None,
    };
    match from_field {
        Some(t) => Some(t),
        None => match node.child_of_kind("->"@, false) {
            Some(arrow) => if arrow + 1 < node.children@.len() {
                trimmed_text(node, arrow + 1)
            } else {
                None
            },
            None => None,
        },
    }
}

fn get_trimmed_text(node: &SyntaxNode, at: usize) -> (r: Option<String>)
    requires
        at < node.children@.len(),
    ensures
        opt_text(r) == trimmed_text(*node, at as int),
{
    match &node.children[at].text {
        Some(t) => Some(trim(t.as_str())),
        None => None,
    }
}

/// Reads the return type of a definition.
pub fn extract_return_type(node: &SyntaxNode) -> (r: Option<String>)
    ensures
        opt_text(r) == return_type_of(*node),
{
    let declared = match node.find_field("return_type") {
        Some(at) => Some(at),
        None => node.find_field("type"),
    };
    let from_field = match declared {
        Some(at) => get_trimmed_text(node, at),
        None => None,
    };
    match from_field {
        Some(t) => Some(t),
        None => match node.find_kind("->", false) {
            Some(arrow) => if node.children.len() - arrow > 1 {
                get_trimmed_text(node, arrow + 1)
            } else {
                None
            },
            None => None,
        },
    }
}

/// The signature of a definition: the parameters of its parameter list and
/// its return type.
pub open spec fn signature_of(node: SyntaxNode) -> SignatureModel {
    SignatureModel {
        parameters: match node.child_of_kind("parameters"@, true) {
            Some(at) => parameters_of(node.children@[at], node.children@[at].children@.len()),
            None => Seq::empty(),
        },
        return_type: return_type_of(node),
    }
}

/// Reads the signature of a definition.
pub fn extract_function_signature(node: &SyntaxNode) -> (r: Signature)
    ensures
        r@ == signature_of(*node),
{
    let parameters = match node.find_kind("parameters", true) {
        Some(at) => extract_parameters(&node.children[at]),
        None => {
            let none: Vec<Parameter> = Vec::new();
            assert(parameter_models(none@) =~= Seq::<ParameterModel>::empty());
            none
        },
    };
    Signature { parameters, return_type: extract_return_type(node) }
}

/// Whether a node is a string literal.
pub open spec fn is_string(node: SyntaxNode) -> bool {
    node.is_kind("string"@) || node.is_kind("string_literal"@) || node.is_kind(
        "concatenated_string"@,
    )
}

/// The text of the first string literal at or below a node, in source
/// order. Below a node only named nodes are looked at, and nothing is
/// looked for below a string literal.
pub open spec fn string_literal_in(node: SyntaxNode) -> Option<Seq<char>>
    decreases node, node.children@.len() + 1,
{
    if is_string(node) {
        opt_text(node.text)
    } else {
        string_literal_below(node, node.children@.len())
    }
}

/// The text of the first string literal at or below one of the first `n`
/// children of a node.
pub open spec fn string_literal_below(node: SyntaxNode, n: nat) -> Option<Seq<char>>
    decreases node, n,
{
    if n == 0 || n > node.children@.len() {
        None
    } else {
        match string_literal_below(node, (n - 1) as nat) {
            Some(t) => Some(t),
            None => if node.children@[n - 1].named {
                string_literal_in(node.children@[n - 1])
            } else {
                None
            },
        }
    }
}

/// Finds the first string literal at or below a node.
pub fn find_string_literal(node: &SyntaxNode) -> (r: Option<String>)
    ensures
        opt_text(r) == string_literal_in(*node),
    decreases node,
{
    if node.has_kind("string") || node.has_kind("string_literal") || node.has_kind(
        "concatenated_string",
    ) {
        return match &node.text {
            Some(t) => Some(t.clone()),
            None => None,
        };
    }
    let mut found: Option<String> = None;
    let mut i: usize = 0;
    while i < node.children.len()
        invariant
            i <= node.children.len(),
            opt_text(found) == string_literal_below(*node, i as nat),
        decreases node.children.len() - i,
    {
        if found.is_none() && node.children[i].named {
            found = find_string_literal(&node.children[i]);
        }
        i = i + 1;
    }
    found
}

/// The documentation of a block: that of the docstring at its start, which
/// is a string literal in an expression statement that comes first among
/// the named children. A block that starts otherwise has none.
pub open spec fn block_documentation(block: SyntaxNode) -> DocumentationModel {
    match block.first_named() {
        Some(at) => if block.children@[at].is_kind("expression_statement"@) {
            match string_literal_in(block.children@[at]) {
                Some(text) => docstring_documentation(text),
                None => no_documentation(),
            }
        } else {
            no_documentation()
        },
        None => no_documentation(),
    }
}

/// Reads the docstring at the start of a block.
pub fn extract_docstring_from_block(block: &SyntaxNode) -> (r: Documentation)
    ensures
        r@ == block_documentation(*block),
{
    match block.find_named() {
        Some(at) => {
            if block.children[at].has_kind("expression_statement") {
                match find_string_literal(&block.children[at]) {
                    Some(text) => documentation_from_docstring(text.as_str()),
                    None => empty_documentation(),
                }
            } else {
                empty_documentation()
            }
        },
        None => empty_documentation(),
    }
}

/// The documentation of a definition: that of its body.
pub open spec fn body_documentation(node: SyntaxNode) -> DocumentationModel {
    match node.child_by_field("body"@) {
        Some(at) => block_documentation(node.children@[at]),
        None => no_documentation(),
    }
}

fn get_body_documentation(node: &SyntaxNode) -> (r: Documentation)
    ensures
        r@ == body_documentation(*node),
{
    match node.find_field("body") {
        Some(at) => extract_docstring_from_block(&node.children[at]),
        None => empty_documentation(),
    }
}

/// The bare names of the decorators among the first `n` children of a
/// decorated definition; a decorator without text or without a name is
/// left out.
pub open spec fn decorators_of(node: SyntaxNode, n: nat) -> Seq<Seq<char>>
    decreases n,
{
    if n == 0 {
        Seq::empty()
    } else {
        let before = decorators_of(node, (n - 1) as nat);
        let child = node.children@[n - 1];
        if child.named && child.is_kind("decorator"@) {
            match child.text {
                Some(t) => if decorator_name(t@).len() > 0 {
                    before.push(decorator_name(t@))
                } else {
                    before
                },
                None => before,
            }
        } else {
            before
        }
    }
}

/// Reads the decorators of a decorated definition.
pub fn extract_decorators(node: &SyntaxNode) -> (r: Vec<String>)
    ensures
        texts(r@) == decorators_of(*node, node.children@.len()),
{
    let mut decorators: Vec<String> = Vec::new();
    let mut i: usize = 0;
    assert(texts(decorators@) =~= decorators_of(*node, 0));
    while i < node.children.len()
        invariant
            i <= node.children.len(),
            texts(decorators@) == decorators_of(*node, i as nat),
        decreases node.children.len() - i,
    {
        let child = &node.children[i];
        if child.named && child.has_kind("decorator") {
            match &child.text {
                Some(t) => {
                    let name = decorator_name_of(t.as_str());
                    if !name.as_str().is_empty() {
                        let ghost before = texts(decorators@);
                        decorators.push(name);
                        assert(texts(decorators@) =~= before.push(decorator_name(t@)));
                    }
                },
                None => {},
            }
        }
        i = i + 1;
    }
    decorators
}

/// Whether a node is a class or function definition.
pub open spec fn is_definition(node: SyntaxNode) -> bool {
    node.is_kind("class_definition"@) || node.is_kind("function_definition"@)
}

/// The place of the first named child among the first `n` that is a class
/// or function definition.
pub open spec fn definition_index(node: SyntaxNode, n: nat) -> Option<int>
    decreases n,
{
    if n == 0 {
        None
    } else {
        match definition_index(node, (n - 1) as nat) {
            Some(at) => Some(at),
            None => if node.children@[n - 1].named && is_definition(node.children@[n - 1]) {
                Some(n - 1)
            } else {
                None
            },
        }
    }
}

/// The definition that a decorated definition decorates.
pub open spec fn decorated_definition(node: SyntaxNode) -> Option<int> {
    definition_index(node, node.children@.len())
}

/// Finds the definition that a decorated definition decorates.
pub fn find_decorated_definition(node: &SyntaxNode) -> (r: Option<usize>)
    ensures
        match r {
            Some(at) => at < node.children@.len() && decorated_definition(*node) == Some(at as int),
            None => decorated_definition(*node) is None,
        },
{
    let mut found: Option<usize> = None;
    let mut i: usize = 0;
    while i < node.children.len()
        invariant
            i <= node.children.len(),
            match found {
                Some(at) => at < i && definition_index(*node, i as nat) == Some(at as int),
                None => definition_index(*node, i as nat) is None,
            },
        decreases node.children.len() - i,
    {
        let child = &node.children[i];
        if found.is_none() && child.named && (child.has_kind("class_definition") || child.has_kind(
            "function_definition",
        )) {
            found = Some(i);
        }
        i = i + 1;
    }
    found
}

/// Whether the decorators make a method static.
pub open spec fn makes_static(decorators: Seq<Seq<char>>) -> bool {
    decorators.contains("staticmethod"@) || decorators.contains("classmethod"@)
}

/// The method that a function definition in a class body stands for. A
/// definition without a name stands for none.
pub open spec fn method_of(node: SyntaxNode, decorators: Seq<Seq<char>>) -> Result<
    MethodModel,
    DriverError,
> {
    match declared_name(node) {
        Some(name) => Ok(
            MethodModel {
                name,
                visibility: name_visibility(name),
                is_static: makes_static(decorators),
                signature: signature_of(node),
                documentation: body_documentation(node),
            },
        ),
        None => Err(DriverError::MissingName),
    }
}

/// Reads a method.
pub fn extract_method(node: &SyntaxNode, decorators: &Vec<String>) -> (r: Result<
    Method,
    DriverError,
>)
    ensures
        match r {
            Ok(m) => method_of(*node, texts(decorators@)) == Ok::<MethodModel, DriverError>(m@),
            Err(e) => method_of(*node, texts(decorators@)) == Err::<MethodModel, DriverError>(e),
        },
{
    match get_name(node) {
        Some(name) => {
            let visibility = visibility_from_name(name.as_str());
            let is_static = find_name(decorators, "staticmethod").is_some() || find_name(
                decorators,
                "classmethod",
            ).is_some();
            Ok(
                Method {
                    name,
                    visibility,
                    is_static,
                    signature: extract_function_signature(node),
                    documentation: get_body_documentation(node),
                },
            )
        },
        None => Err(DriverError::MissingName),
    }
}

/// The property that an accessor stands for: named after the accessor,
/// typed by what the accessor returns.
pub open spec fn accessor_property(node: SyntaxNode) -> Option<PropertyModel> {
    match declared_name(node) {
        Some(name) => Some(
            PropertyModel {
                name,
                visibility: name_visibility(name),
                type_annotation: return_type_of(node),
                documentation: body_documentation(node),
            },
        ),
        None => None,
    }
}

/// Reads an accessor as a property.
pub fn property_from_accessor(node: &SyntaxNode) -> (r: Option<Property>)
    ensures
        match r {
            Some(p) => accessor_property(*node) == Some(p@),
            None => accessor_property(*node) is None,
        },
{
    match get_name(node) {
        Some(name) => {
            let visibility = visibility_from_name(name.as_str());
            Some(
                Property {
                    name,
                    visibility,
                    type_annotation: extract_return_type(node),
                    documentation: get_body_documentation(node),
                },
            )
        },
        None => None,
    }
}

/// The name that an assignment assigns to: the first identifier of its
/// left side, else its own first identifier.
pub open spec fn assigned_name(node: SyntaxNode) -> Option<Seq<char>> {
    match node.child_by_field("left"@) {
        Some(at) => match first_identifier(node.children@[at]) {
            Some(name) => Some(name),
            None => first_identifier(node),
        },
        None => first_identifier(node),
    }
}

/// The property that an assignment in a class body stands for.
pub open spec fn assignment_property(node: SyntaxNode) -> Option<PropertyModel> {
    match assigned_name(node) {
        Some(name) => Some(
            PropertyModel {
                name,
                visibility: name_visibility(name),
                type_annotation: trimmed_field(node, "type"@),
                documentation: no_documentation(),
            },
        ),
        None => None,
    }
}

/// Reads an assignment as a property.
pub fn extract_assignment_property(node: &SyntaxNode) -> (r: Option<Property>)
    ensures
        match r {
            Some(p) => assignment_property(*node) == Some(p@),
            None => assignment_property(*node) is None,
        },
{
    let name = match node.find_field("left") {
        Some(at) => match get_first_identifier(&node.children[at]) {
            Some(name) => Some(name),
            None => get_first_identifier(node),
        },
        None => get_first_identifier(node),
    };
    match name {
        Some(name) => {
            let visibility = visibility_from_name(name.as_str());
            Some(
                Property {
                    name,
                    visibility,
                    type_annotation: get_trimmed_field(node, "type"),
                    documentation: empty_documentation(),
                },
            )
        },
        None => None,
    }
}

/// The members of a class.
pub struct Members {
    pub methods: Seq<MethodModel>,
    pub properties: Seq<PropertyModel>,
}

/// The members with one more property, if there is one.
pub open spec fn with_property(state: Members, property: Option<PropertyModel>) -> Members {
    match property {
        Some(p) => Members { methods: state.methods, properties: state.properties.push(p) },
        None => state,
    }
}

/// The members with one more method, or the failure to read it.
pub open spec fn with_method(state: Members, method: Result<MethodModel, DriverError>) -> Result<
    Members,
    DriverError,
> {
    match method {
        Ok(m) => Ok(Members { methods: state.methods.push(m), properties: state.properties }),
        Err(e) => Err(e),
    }
}

/// The members after one more child of a class body. A function definition
/// adds a method. A decorated function adds a property where it is
/// decorated as one, else a method. An assignment, bare or in an expression
/// statement, adds a property. Any other child adds nothing.
pub open spec fn member_step(state: Members, child: SyntaxNode) -> Result<Members, DriverError> {
    if !child.named {
        Ok(state)
    } else if child.is_kind("function_definition"@) {
        with_method(state, method_of(child, Seq::empty()))
    } else if child.is_kind("decorated_definition"@) {
        let decorators = decorators_of(child, child.children@.len());
        match decorated_definition(child) {
            Some(at) => if child.children@[at].is_kind("function_definition"@) {
                if decorators.contains("property"@) {
                    Ok(with_property(state, accessor_property(child.children@[at])))
                } else {
                    with_method(state, method_of(child.children@[at], decorators))
                }
            } else {
                Ok(state)
            },
            None => Ok(state),
        }
    } else if child.is_kind("assignment"@) {
        Ok(with_property(state, assignment_property(child)))
    } else if child.is_kind("expression_statement"@) {
        match child.child_of_kind("assignment"@, true) {
            Some(at) => Ok(with_property(state, assignment_property(child.children@[at]))),
            None => Ok(state),
        }
    } else {
        Ok(state)
    }
}

/// The members that the first `n` children of a class body declare, or the
/// first failure to read one.
pub open spec fn members_of(body: SyntaxNode, n: nat) -> Result<Members, DriverError>
    decreases n,
{
    if n == 0 {
        Ok(Members { methods: Seq::empty(), properties: Seq::empty() })
    } else {
        match members_of(body, (n - 1) as nat) {
            Ok(state) => member_step(state, body.children@[n - 1]),
            Err(e) => Err(e),
        }
    }
}

/// The members that were read so far.
pub open spec fn members_read(methods: Seq<Method>, properties: Seq<Property>) -> Members {
    Members { methods: method_models(methods), properties: property_models(properties) }
}

fn push_property(properties: &mut Vec<Property>, property: Option<Property>)
    ensures
        match property {
            Some(p) => property_models(final(properties)@) == property_models(old(properties)@).push(
                p@,
            ),
            None => property_models(final(properties)@) == property_models(old(properties)@),
        },
{
    match property {
        Some(p) => {
            let ghost before = property_models(properties@);
            let ghost added = p@;
            properties.push(p);
            assert(property_models(properties@) =~= before.push(added));
        },
        None => {},
    }
}

fn push_method(methods: &mut Vec<Method>, method: Method)
    ensures
        method_models(final(methods)@) == method_models(old(methods)@).push(method@),
{
    let ghost before = method_models(methods@);
    let ghost added = method@;
    methods.push(method);
    assert(method_models(methods@) =~= before.push(added));
}

/// Reads the members of a class body.
pub fn extract_class_body(body: &SyntaxNode) -> (r: Result<(Vec<Method>, Vec<Property>), DriverError>)
    ensures
        match r {
            Ok(read) => members_of(*body, body.children@.len()) == Ok::<Members, DriverError>(
                members_read(read.0@, read.1@),
            ),
            Err(e) => members_of(*body, body.children@.len()) == Err::<Members, DriverError>(e),
        },
{
    let mut methods: Vec<Method> = Vec::new();
    let mut properties: Vec<Property> = Vec::new();
    let mut failed: Option<DriverError> = None;
    let no_decorators: Vec<String> = Vec::new();
    assert(texts(no_decorators@) =~= Seq::<Seq<char>>::empty());
    let mut i: usize = 0;
    assert(method_models(methods@) =~= Seq::<MethodModel>::empty());
    assert(property_models(properties@) =~= Seq::<PropertyModel>::empty());
    while i < body.children.len()
        invariant
            i <= body.children.len(),
            texts(no_decorators@) == Seq::<Seq<char>>::empty(),
            match failed {
                Some(e) => members_of(*body, i as nat) == Err::<Members, DriverError>(e),
                None => members_of(*body, i as nat) == Ok::<Members, DriverError>(
                    members_read(methods@, properties@),
                ),
            },
        decreases body.children.len() - i,
    {
        let child = &body.children[i];
        if failed.is_none() && child.named {
            if child.has_kind("function_definition") {
                match extract_method(child, &no_decorators) {
                    Ok(m) => {
                        push_method(&mut methods, m);
                    },
                    Err(e) => {
                        failed = Some(e);
                    },
                }
            } else if child.has_kind("decorated_definition") {
                let decorators = extract_decorators(child);
                match find_decorated_definition(child) {
                    Some(at) => {
                        let definition = &child.children[at];
                        if definition.has_kind("function_definition") {
                            if find_name(&decorators, "property").is_some() {
                                push_property(&mut properties, property_from_accessor(definition));
                            } else {
                                match extract_method(definition, &decorators) {
                                    Ok(m) => {
                                        push_method(&mut methods, m);
                                    },
                                    Err(e) => {
                                        failed = Some(e);
                                    },
                                }
                            }
                        }
                    },
                    None => {},
                }
            } else if child.has_kind("assignment") {
                push_property(&mut properties, extract_assignment_property(child));
            } else if child.has_kind("expression_statement") {
                match child.find_kind("assignment", true) {
                    Some(at) => {
                        push_property(
                            &mut properties,
                            extract_assignment_property(&child.children[at]),
                        );
                    },
                    None => {},
                }
            }
        }
        i = i + 1;
    }
    match failed {
        Some(e) => Err(e),
        None => Ok((methods, properties)),
    }
}

/// The dependencies that the first `n` children of a list of base classes
/// name.
pub open spec fn listed_bases(list: SyntaxNode, n: nat) -> Seq<Seq<char>>
    decreases n,
{
    if n == 0 {
        Seq::empty()
    } else {
        let before = listed_bases(list, (n - 1) as nat);
        let child = list.children@[n - 1];
        if child.named {
            match child.text {
                Some(t) => match dependency_root(trimmed(t@)) {
                    Some(root) => before.push(root),
                    None => before,
                },
                None => before,
            }
        } else {
            before
        }
    }
}

/// The dependencies that the base classes of a class give: those of its
/// `superclasses` field, else those of its argument list.
pub open spec fn superclass_dependencies(node: SyntaxNode) -> Seq<Seq<char>> {
    match node.child_by_field("superclasses"@) {
        Some(at) => listed_bases(node.children@[at], node.children@[at].children@.len()),
        None => match node.child_of_kind("argument_list"@, true) {
            Some(at) => argument_dependencies(node.children@[at].text_or_empty()),
            None => Seq::empty(),
        },
    }
}

/// Reads the base classes of a class as dependencies.
pub fn extract_superclasses(node: &SyntaxNode) -> (r: Vec<String>)
    ensures
        texts(r@) == superclass_dependencies(*node),
{
    match node.find_field("superclasses") {
        Some(at) => {
            let list = &node.children[at];
            let mut deps: Vec<String> = Vec::new();
            let mut i: usize = 0;
            assert(texts(deps@) =~= listed_bases(*list, 0));
            while i < list.children.len()
                invariant
                    i <= list.children.len(),
                    texts(deps@) == listed_bases(*list, i as nat),
                decreases list.children.len() - i,
            {
                let child = &list.children[i];
                if child.named {
                    match &child.text {
                        Some(t) => match normalize_dependency(trim(t.as_str()).as_str()) {
                            Some(root) => {
                                let ghost before = texts(deps@);
                                deps.push(root);
                                assert(texts(deps@) =~= before.push(root@));
                            },
                            None => {},
                        },
                        None => {},
                    }
                }
                i = i + 1;
            }
            deps
        },
        None => match node.find_kind("argument_list", true) {
            Some(at) => match &node.children[at].text {
                Some(t) => argument_names(t.as_str()),
                None => argument_names(String::new().as_str()),
            },
            None => {
                let deps: Vec<String> = Vec::new();
                assert(texts(deps@) =~= Seq::<Seq<char>>::empty());
                deps
            },
        },
    }
}

/// The class that a class definition stands for, with the dependencies
/// that its base classes give. A definition without a name or without a
/// body stands for none, and neither does one with a method that has no
/// name.
pub open spec fn class_of(node: SyntaxNode) -> Result<(ClassModel, Seq<Seq<char>>), DriverError> {
    match declared_name(node) {
        Some(name) => match node.child_by_field("body"@) {
            Some(at) => match members_of(node.children@[at], node.children@[at].children@.len()) {
                Ok(members) => Ok(
                    (
                        ClassModel {
                            name,
                            visibility: name_visibility(name),
                            methods: members.methods,
                            properties: members.properties,
                            documentation: block_documentation(node.children@[at]),
                        },
                        superclass_dependencies(node),
                    ),
                ),
                Err(e) => Err(e),
            },
            None => Err(DriverError::MissingBody),
        },
        None => Err(DriverError::MissingName),
    }
}

/// Reads a class definition.
pub fn extract_class(node: &SyntaxNode) -> (r: Result<(Class, Vec<String>), DriverError>)
    ensures
        match r {
            Ok(read) => class_of(*node) == Ok::<(ClassModel, Seq<Seq<char>>), DriverError>(
                (read.0@, texts(read.1@)),
            ),
            Err(e) => class_of(*node) == Err::<(ClassModel, Seq<Seq<char>>), DriverError>(e),
        },
{
    let name = match get_name(node) {
        Some(name) => name,
        None => {
            return Err(DriverError::MissingName);
        },
    };
    let visibility = visibility_from_name(name.as_str());
    let dependencies = extract_superclasses(node);
    let body = match node.find_field("body") {
        Some(at) => &node.children[at],
        None => {
            return Err(DriverError::MissingBody);
        },
    };
    let documentation = extract_docstring_from_block(body);
    match extract_class_body(body) {
        Ok(read) => {
            let (methods, properties) = read;
            Ok((Class { name, visibility, methods, properties, documentation }, dependencies))
        },
        Err(e) => Err(e),
    }
}

/// The function that a function definition at module scope stands for. A
/// definition without a name stands for none.
pub open spec fn function_of(node: SyntaxNode) -> Result<FunctionModel, DriverError> {
    match declared_name(node) {
        Some(name) => Ok(
            FunctionModel {
                name,
                visibility: name_visibility(name),
                signature: signature_of(node),
                documentation: body_documentation(node),
            },
        ),
        None => Err(DriverError::MissingName),
    }
}

/// Reads a function definition.
pub fn extract_function(node: &SyntaxNode) -> (r: Result<Function, DriverError>)
    ensures
        match r {
            Ok(f) => function_of(*node) == Ok::<FunctionModel, DriverError>(f@),
            Err(e) => function_of(*node) == Err::<FunctionModel, DriverError>(e),
        },
{
    match get_name(node) {
        Some(name) => {
            let visibility = visibility_from_name(name.as_str());
            Ok(
                Function {
                    name,
                    visibility,
                    signature: extract_function_signature(node),
                    documentation: get_body_documentation(node),
                },
            )
        },
        None => Err(DriverError::MissingName),
    }
}

/// What the top level of a module declares.
pub struct ModuleItems {
    pub elements: Seq<ElementModel>,
    pub dependencies: Seq<Seq<char>>,
}

/// The items with the class of a definition added, and with the
/// dependencies that its base classes give. A class that cannot be read is
/// passed over.
pub open spec fn with_class(state: ModuleItems, node: SyntaxNode) -> ModuleItems {
    match class_of(node) {
        Ok(read) => ModuleItems {
            elements: state.elements.push(ElementModel::Class(read.0)),
            dependencies: state.dependencies + read.1,
        },
        Err(_) => state,
    }
}

/// The items with the function of a definition added. A function that
/// cannot be read is passed over.
pub open spec fn with_function(state: ModuleItems, node: SyntaxNode) -> ModuleItems {
    match function_of(node) {
        Ok(f) => ModuleItems {
            elements: state.elements.push(ElementModel::Function(f)),
            dependencies: state.dependencies,
        },
        Err(_) => state,
    }
}

/// The items with a definition added, by its kind.
pub open spec fn with_definition(state: ModuleItems, node: SyntaxNode) -> ModuleItems {
    if node.is_kind("class_definition"@) {
        with_class(state, node)
    } else if node.is_kind("function_definition"@) {
        with_function(state, node)
    } else {
        state
    }
}

/// The items after one more child of the module. An import adds
/// dependencies, a class or function definition adds an element, decorated
/// or not. Any other child adds nothing.
pub open spec fn item_step(state: ModuleItems, child: SyntaxNode) -> ModuleItems {
    if !child.named {
        state
    } else if child.is_kind("import_statement"@) {
        ModuleItems {
            elements: state.elements,
            dependencies: state.dependencies + import_dependencies(child.text_or_empty()),
        }
    } else if child.is_kind("import_from_statement"@) {
        ModuleItems {
            elements: state.elements,
            dependencies: state.dependencies + import_from_dependencies(child.text_or_empty()),
        }
    } else if child.is_kind("decorated_definition"@) {
        match decorated_definition(child) {
            Some(at) => with_definition(state, child.children@[at]),
            None => state,
        }
    } else {
        with_definition(state, child)
    }
}

/// What the first `n` children of the module declare.
pub open spec fn module_items(root: SyntaxNode, n: nat) -> ModuleItems
    decreases n,
{
    if n == 0 {
        ModuleItems { elements: Seq::empty(), dependencies: Seq::empty() }
    } else {
        item_step(module_items(root, (n - 1) as nat), root.children@[n - 1])
    }
}

/// The blueprint of the Python file at `path` whose syntax tree is `root`:
/// the classes and functions at module scope in declaration order, and the
/// names that the imports and base classes give, in the order of strings
/// and each once.
pub open spec fn python_blueprint(path: Seq<char>, root: SyntaxNode) -> BlueprintModel {
    let items = module_items(root, root.children@.len());
    BlueprintModel {
        source_path: path,
        language: "python"@,
        elements: items.elements,
        dependencies: canonical(items.dependencies, items.dependencies.len()),
    }
}

/// The items that were read so far.
pub open spec fn items_read(elements: Seq<Element>, dependencies: Seq<String>) -> ModuleItems {
    ModuleItems { elements: element_models(elements), dependencies: texts(dependencies) }
}

fn add_names(dependencies: &mut Vec<String>, more: Vec<String>)
    ensures
        texts(final(dependencies)@) == texts(old(dependencies)@) + texts(more@),
{
    let mut more = more;
    let ghost before = texts(dependencies@);
    let ghost added = texts(more@);
    dependencies.append(&mut more);
    assert(texts(dependencies@) =~= before + added);
}

fn add_definition(elements: &mut Vec<Element>, dependencies: &mut Vec<String>, node: &SyntaxNode)
    ensures
        items_read(final(elements)@, final(dependencies)@) == with_definition(
            items_read(old(elements)@, old(dependencies)@),
            *node,
        ),
{
    let ghost before = element_models(elements@);
    let ghost names = texts(dependencies@);
    if node.has_kind("class_definition") {
        match extract_class(node) {
            Ok(read) => {
                let (class, more) = read;
                let ghost added = class@;
                elements.push(Element::Class(class));
                assert(element_models(elements@) =~= before.push(ElementModel::Class(added)));
                add_names(dependencies, more);
            },
            Err(_) => {},
        }
    } else if node.has_kind("function_definition") {
        match extract_function(node) {
            Ok(function) => {
                let ghost added = function@;
                elements.push(Element::Function(function));
                assert(element_models(elements@) =~= before.push(ElementModel::Function(added)));
            },
            Err(_) => {},
        }
    }
}

fn text_of(node: &SyntaxNode) -> (r: String)
    ensures
        r@ == node.text_or_empty(),
{
    match &node.text {
        Some(t) => t.clone(),
        None => String::new(),
    }
}

/// Reads the syntax tree of the Python file at `path` into its blueprint.
pub fn blueprint_from_tree(path: &str, root: &SyntaxNode) -> (r: Blueprint)
    ensures
        r@ == python_blueprint(path@, *root),
        r.well_formed(),
{
    let mut elements: Vec<Element> = Vec::new();
    let mut dependencies: Vec<String> = Vec::new();
    let mut i: usize = 0;
    assert(element_models(elements@) =~= Seq::<ElementModel>::empty());
    assert(texts(dependencies@) =~= Seq::<Seq<char>>::empty());
    while i < root.children.len()
        invariant
            i <= root.children.len(),
            items_read(elements@, dependencies@) == module_items(*root, i as nat),
        decreases root.children.len() - i,
    {
        let child = &root.children[i];
        if child.named {
            if child.has_kind("import_statement") {
                add_names(&mut dependencies, import_names(text_of(child).as_str()));
            } else if child.has_kind("import_from_statement") {
                add_names(&mut dependencies, import_from_names(text_of(child).as_str()));
            } else if child.has_kind("decorated_definition") {
                match find_decorated_definition(child) {
                    Some(at) => {
                        add_definition(&mut elements, &mut dependencies, &child.children[at]);
                    },
                    None => {},
                }
            } else {
                add_definition(&mut elements, &mut dependencies, child);
            }
        }
        i = i + 1;
    }
    Blueprint::new(path.to_string(), "python".to_string(), elements, dependencies)
}

impl PythonDriver {
    /// The Python driver.
    pub fn new() -> Self {
        PythonDriver
    }
}

impl Default for PythonDriver {
    fn default() -> Self {
        PythonDriver
    }
}

impl Driver for PythonDriver {
    open spec fn terms(&self) -> Terms {
        python_terms()
    }

    /// Parses Python source text. A text for which no syntax tree can be
    /// built is an error; else the blueprint is that of the syntax tree of
    /// the text.
    fn parse(&self, path: &str, content: &str) -> (r: Result<Blueprint, DriverError>)
        ensures
            match r {
                Ok(b) => exists|root: SyntaxNode|
                    syntax_of(Grammar::Python, content@) == Ok::<NodeModel, DriverError>(root@)
                        && b@ == python_blueprint(path@, root),
                Err(e) => syntax_of(Grammar::Python, content@) == Err::<NodeModel, DriverError>(
                    e,
                ),
            },
    {
        match parse_syntax(Grammar::Python, content) {
            Ok(root) => {
                let b = blueprint_from_tree(path, &root);
                assert(syntax_of(Grammar::Python, content@) == Ok::<NodeModel, DriverError>(root@)
                    && b@ == python_blueprint(path@, root));
                Ok(b)
            },
            Err(e) => Err(e),
        }
    }

    /// Python is a source, not a target: nothing is generated.
    fn generate(&self, blueprint: &Blueprint) -> (r: Result<String, DriverError>)
        ensures
            r == Err::<String, DriverError>(DriverError::NotSupported),
    {
        Err(DriverError::NotSupported)
    }

    fn terminology(&self) -> (r: LanguageTerminology) {
        LanguageTerminology::python()
    }
}

} // verus!
