//! The Rust driver: reads the syntax tree of a Rust file into a blueprint.

use super::syntax::{
    get_trimmed_field, parse_syntax, syntax_of, trimmed_field, Grammar, NodeModel, SyntaxNode,
};
use super::terminology::{rust_terms, LanguageTerminology, Terms};
use super::trait_def::{Driver, DriverError};
use crate::ir::{
    element_models, method_models, no_documentation, opt_text, parameter_models,
    property_models, Blueprint, BlueprintModel, Class, ClassModel, Documentation, Element,
    ElementModel, Function, FunctionModel, Method, MethodModel, Parameter, ParameterModel,
    Property, PropertyModel, Signature, SignatureModel, Visibility,
};
use crate::text::{contains, has_infix, str_eq, texts, trim, trimmed};
use vstd::prelude::*;
use vstd::string::*;

verus! {

/// The driver for Rust source files.
pub struct RustDriver;

/// The visibility that a declaration has by its modifier: `pub(crate)` is
/// internal, `pub(super)` is protected, any other `pub` is public, and a
/// declaration without a modifier is private.
pub open spec fn declared_visibility(node: SyntaxNode) -> Visibility {
    match node.child_of_kind("visibility_modifier"@, false) {
        Some(at) => {
            let text = node.children@[at].text_or_empty();
            if has_infix(text, "(crate)"@) {
                Visibility::Internal
            } else if has_infix(text, "(super)"@) {
                Visibility::Protected
            } else {
                Visibility::Public
            }
        },
        None => Visibility::Private,
    }
}

/// Reads the visibility of a declaration off its modifier.
pub fn extract_visibility(node: &SyntaxNode) -> (r: Visibility)
    ensures
        r == declared_visibility(*node),
{
    match node.find_kind("visibility_modifier", false) {
        Some(at) => {
            let text = match &node.children[at].text {
                Some(t) => t.clone(),
                None => String::new(),
            };
            if contains(text.as_str(), "(crate)") {
                Visibility::Internal
            } else if contains(text.as_str(), "(super)") {
                Visibility::Protected
            } else {
                Visibility::Public
            }
        },
        None => Visibility::Private,
    }
}

/// The name of a declaration: the text of its name field, else of its
/// first type identifier, without the whitespace around it.
pub open spec fn item_name(node: SyntaxNode) -> Option<Seq<char>> {
    match trimmed_field(node, "name"@) {
        Some(name) => Some(name),
        None => match node.child_of_kind("type_identifier"@, false) {
            Some(at) => Some(trimmed(node.children@[at].text_or_empty())),
            None => None,
        },
    }
}

fn get_item_name(node: &SyntaxNode) -> (r: Option<String>)
    ensures
        opt_text(r) == item_name(*node),
{
    match get_trimmed_field(node, "name") {
        Some(name) => Some(name),
        None => match node.find_kind("type_identifier", false) {
            Some(at) => match &node.children[at].text {
                Some(t) => Some(trim(t.as_str())),
                None => Some(trim(String::new().as_str())),
            },
            None => None,
        },
    }
}

/// The parameter that a node of a parameter list stands for: a `parameter`
/// node with a pattern gives one, named by the pattern. The receiver and
/// every other node give none.
pub open spec fn parameter_of(node: SyntaxNode) -> Option<ParameterModel> {
    if node.is_kind("parameter"@) {
        match trimmed_field(node, "pattern"@) {
            Some(name) => Some(
                ParameterModel {
                    name,
                    type_annotation: trimmed_field(node, "type"@),
                    default_value: None,
                },
            ),
            None => None,
        }
    } else {
        None
    }
}

/// Reads one node of a parameter list.
pub fn extract_parameter(node: &SyntaxNode) -> (r: Option<Parameter>)
    ensures
        match r {
            Some(p) => parameter_of(*node) == Some(p@),
            None => parameter_of(*node) is None,
        },
{
    if node.has_kind("parameter") {
        match get_trimmed_field(node, "pattern") {
            Some(name) => Some(
                Parameter {
                    name,
                    type_annotation: get_trimmed_field(node, "type"),
                    default_value: None,
                },
            ),
            None => None,
        }
    } else {
        None
    }
}

/// The parameters that the first `n` children of a parameter list stand for.
pub open spec fn parameters_of(list: SyntaxNode, n: nat) -> Seq<ParameterModel>
    decreases n,
{
    if n == 0 {
        Seq::empty()
    } else {
        let before = parameters_of(list, (n - 1) as nat);
        match parameter_of(list.children@[n - 1]) {
            Some(p) => before.push(p),
            None => before,
        }
    }
}

/// Reads a parameter list.
pub fn extract_parameters(list: &SyntaxNode) -> (r: Vec<Parameter>)
    ensures
        parameter_models(r@) == parameters_of(*list, list.children@.len()),
{
    let mut parameters: Vec<Parameter> = Vec::new();
    let mut i: usize = 0;
    assert(parameter_models(parameters@) =~= parameters_of(*list, 0));
    while i < list.children.len()
        invariant
            i <= list.children.len(),
            parameter_models(parameters@) == parameters_of(*list, i as nat),
        decreases list.children.len() - i,
    {
        match extract_parameter(&list.children[i]) {
            Some(p) => {
                let ghost before = parameter_models(parameters@);
                let ghost added = p@;
                parameters.push(p);
                assert(parameter_models(parameters@) =~= before.push(added));
            },
            None => {},
        }
        i = i + 1;
    }
    parameters
}

/// The return type of a function: the text of the child that follows the
/// arrow, without the whitespace around it.
pub open spec fn return_type_of(node: SyntaxNode) -> Option<Seq<char>> {
    match node.child_of_kind("->"@, false) {
        Some(arrow) => if arrow + 1 < node.children@.len() {
            Some(trimmed(node.children@[arrow + 1].text_or_empty()))
        } else {
            None
        },
        None => None,
    }
}

/// Reads the return type of a function.
pub fn extract_return_type(node: &SyntaxNode) -> (r: Option<String>)
    ensures
        opt_text(r) == return_type_of(*node),
{
    match node.find_kind("->", false) {
        Some(arrow) => if node.children.len() - arrow > 1 {
            match &node.children[arrow + 1].text {
                Some(t) => Some(trim(t.as_str())),
                None => Some(trim(String::new().as_str())),
            }
        } else {
            None
        },
        None => None,
    }
}

/// The signature of a function: the parameters of its parameter list and
/// its return type.
pub open spec fn signature_of(node: SyntaxNode) -> SignatureModel {
    SignatureModel {
        parameters: match node.child_of_kind("parameters"@, false) {
            Some(at) => parameters_of(node.children@[at], node.children@[at].children@.len()),
            None => Seq::empty(),
        },
        return_type: return_type_of(node),
    }
}

/// Reads the signature of a function.
pub fn extract_function_signature(node: &SyntaxNode) -> (r: Signature)
    ensures
        r@ == signature_of(*node),
{
    let parameters = match node.find_kind("parameters", false) {
        Some(at) => extract_parameters(&node.children[at]),
        None => {
            let none: Vec<Parameter> = Vec::new();
            assert(parameter_models(none@) =~= Seq::<ParameterModel>::empty());
            none
        },
    };
    Signature { parameters, return_type: extract_return_type(node) }
}

/// The function that a function item at module scope stands for. An item
/// without a name stands for none.
pub open spec fn function_of(node: SyntaxNode) -> Result<FunctionModel, DriverError> {
    match item_name(node) {
        Some(name) => if name.len() == 0 {
            Err(DriverError::MissingName)
        } else {
            Ok(
                FunctionModel {
                    name,
                    visibility: declared_visibility(node),
                    signature: signature_of(node),
                    documentation: no_documentation(),
                },
            )
        },
        None => Err(DriverError::MissingName),
    }
}

/// Reads a function item.
pub fn extract_function(node: &SyntaxNode) -> (r: Result<Function, DriverError>)
    ensures
        match r {
            Ok(f) => function_of(*node) == Ok::<FunctionModel, DriverError>(f@),
            Err(e) => function_of(*node) == Err::<FunctionModel, DriverError>(e),
        },
{
    match get_item_name(node) {
        Some(name) => {
            if name.as_str().is_empty() {
                return Err(DriverError::MissingName);
            }
            Ok(
                Function {
                    name,
                    visibility: extract_visibility(node),
                    signature: extract_function_signature(node),
                    documentation: Documentation::empty(),
                },
            )
        },
        None => Err(DriverError::MissingName),
    }
}

/// The property that a field declaration stands for. A declaration without
/// a name stands for none.
pub open spec fn field_of(node: SyntaxNode) -> Option<PropertyModel> {
    if node.is_kind("field_declaration"@) {
        match trimmed_field(node, "name"@) {
            Some(name) => Some(
                PropertyModel {
                    name,
                    visibility: declared_visibility(node),
                    type_annotation: trimmed_field(node, "type"@),
                    documentation: no_documentation(),
                },
            ),
            None => None,
        }
    } else {
        None
    }
}

/// Reads a field declaration.
pub fn extract_field(node: &SyntaxNode) -> (r: Option<Property>)
    ensures
        match r {
            Some(p) => field_of(*node) == Some(p@),
            None => field_of(*node) is None,
        },
{
    if node.has_kind("field_declaration") {
        match get_trimmed_field(node, "name") {
            Some(name) => Some(
                Property {
                    name,
                    visibility: extract_visibility(node),
                    type_annotation: get_trimmed_field(node, "type"),
                    documentation: Documentation::empty(),
                },
            ),
            None => None,
        }
    } else {
        None
    }
}

/// The properties that the first `n` children of a list of fields stand for.
pub open spec fn fields_of(list: SyntaxNode, n: nat) -> Seq<PropertyModel>
    decreases n,
{
    if n == 0 {
        Seq::empty()
    } else {
        let before = fields_of(list, (n - 1) as nat);
        match field_of(list.children@[n - 1]) {
            Some(p) => before.push(p),
            None => before,
        }
    }
}

/// The properties of a struct: the fields that its body declares.
pub open spec fn struct_fields(node: SyntaxNode) -> Seq<PropertyModel> {
    match node.child_by_field("body"@) {
        Some(at) => fields_of(node.children@[at], node.children@[at].children@.len()),
        None => Seq::empty(),
    }
}

/// Reads the fields of a struct.
pub fn extract_struct_fields(node: &SyntaxNode) -> (r: Vec<Property>)
    ensures
        property_models(r@) == struct_fields(*node),
{
    let mut properties: Vec<Property> = Vec::new();
    assert(property_models(properties@) =~= Seq::<PropertyModel>::empty());
    match node.find_field("body") {
        Some(at) => {
            let list = &node.children[at];
            let mut i: usize = 0;
            while i < list.children.len()
                invariant
                    i <= list.children.len(),
                    property_models(properties@) == fields_of(*list, i as nat),
                decreases list.children.len() - i,
            {
                match extract_field(&list.children[i]) {
                    Some(p) => {
                        let ghost before = property_models(properties@);
                        let ghost added = p@;
                        properties.push(p);
                        assert(property_models(properties@) =~= before.push(added));
                    },
                    None => {},
                }
                i = i + 1;
            }
            properties
        },
        None => properties,
    }
}

/// The class that a struct item stands for, without methods. An item
/// without a name stands for none.
pub open spec fn struct_of(node: SyntaxNode) -> Result<ClassModel, DriverError> {
    match item_name(node) {
        Some(name) => if name.len() == 0 {
            Err(DriverError::MissingName)
        } else {
            Ok(
                ClassModel {
                    name,
                    visibility: declared_visibility(node),
                    methods: Seq::empty(),
                    properties: struct_fields(node),
                    documentation: no_documentation(),
                },
            )
        },
        None => Err(DriverError::MissingName),
    }
}

/// Reads a struct item.
pub fn extract_struct(node: &SyntaxNode) -> (r: Result<Class, DriverError>)
    ensures
        match r {
            Ok(c) => struct_of(*node) == Ok::<ClassModel, DriverError>(c@),
            Err(e) => struct_of(*node) == Err::<ClassModel, DriverError>(e),
        },
{
    match get_item_name(node) {
        Some(name) => {
            if name.as_str().is_empty() {
                return Err(DriverError::MissingName);
            }
            let methods: Vec<Method> = Vec::new();
            assert(method_models(methods@) =~= Seq::<MethodModel>::empty());
            Ok(
                Class {
                    name,
                    visibility: extract_visibility(node),
                    methods,
                    properties: extract_struct_fields(node),
                    documentation: Documentation::empty(),
                },
            )
        },
        None => Err(DriverError::MissingName),
    }
}

/// The method that a function item in an impl block stands for.
pub open spec fn method_of(node: SyntaxNode) -> Option<MethodModel> {
    if node.is_kind("function_item"@) {
        match function_of(node) {
            Ok(f) => Some(
                MethodModel {
                    name: f.name,
                    visibility: f.visibility,
                    is_static: false,
                    signature: f.signature,
                    documentation: f.documentation,
                },
            ),
            Err(_) => None,
        }
    } else {
        None
    }
}

/// The methods that the first `n` children of a list of declarations stand
/// for.
pub open spec fn methods_of(list: SyntaxNode, n: nat) -> Seq<MethodModel>
    decreases n,
{
    if n == 0 {
        Seq::empty()
    } else {
        let before = methods_of(list, (n - 1) as nat);
        match method_of(list.children@[n - 1]) {
            Some(m) => before.push(m),
            None => before,
        }
    }
}

/// The methods of an impl block: the functions that its body declares.
pub open spec fn impl_methods(node: SyntaxNode) -> Seq<MethodModel> {
    match node.child_by_field("body"@) {
        Some(at) => methods_of(node.children@[at], node.children@[at].children@.len()),
        None => Seq::empty(),
    }
}

/// Reads the methods of an impl block.
pub fn extract_impl_methods(node: &SyntaxNode) -> (r: Vec<Method>)
    ensures
        method_models(r@) == impl_methods(*node),
{
    let mut methods: Vec<Method> = Vec::new();
    assert(method_models(methods@) =~= Seq::<MethodModel>::empty());
    match node.find_field("body") {
        Some(at) => {
            let list = &node.children[at];
            let mut i: usize = 0;
            while i < list.children.len()
                invariant
                    i <= list.children.len(),
                    method_models(methods@) == methods_of(*list, i as nat),
                decreases list.children.len() - i,
            {
                let child = &list.children[i];
                if child.has_kind("function_item") {
                    match extract_function(child) {
                        Ok(f) => {
                            let ghost before = method_models(methods@);
                            let method = Method {
                                name: f.name,
                                visibility: f.visibility,
                                is_static: false,
                                signature: f.signature,
                                documentation: f.documentation,
                            };
                            let ghost added = method@;
                            methods.push(method);
                            assert(method_models(methods@) =~= before.push(added));
                        },
                        Err(_) => {},
                    }
                }
                i = i + 1;
            }
            methods
        },
        None => methods,
    }
}

/// The name of the type that an impl block is for: the text of its type
/// field, else of its first type identifier.
pub open spec fn impl_target(node: SyntaxNode) -> Option<Seq<char>> {
    match trimmed_field(node, "type"@) {
        Some(name) => Some(name),
        None => match node.child_of_kind("type_identifier"@, false) {
            Some(at) => Some(trimmed(node.children@[at].text_or_empty())),
            None => None,
        },
    }
}

/// Reads the name of the type that an impl block is for.
pub fn get_impl_struct_name(node: &SyntaxNode) -> (r: Option<String>)
    ensures
        opt_text(r) == impl_target(*node),
{
    match get_trimmed_field(node, "type") {
        Some(name) => Some(name),
        None => match node.find_kind("type_identifier", false) {
            Some(at) => match &node.children[at].text {
                Some(t) => Some(trim(t.as_str())),
                None => Some(trim(String::new().as_str())),
            },
            None => None,
        },
    }
}

/// Whether an element is the class of the given name.
pub open spec fn is_class_named(e: ElementModel, name: Seq<char>) -> bool {
    match e {
        ElementModel::Class(c) => c.name == name,
        _ => false,
    }
}

/// The place of the first class of the given name among the first `n`
/// elements.
pub open spec fn class_index(elements: Seq<ElementModel>, name: Seq<char>, n: nat) -> Option<int>
    decreases n,
{
    if n == 0 {
        None
    } else {
        match class_index(elements, name, (n - 1) as nat) {
            Some(at) => Some(at),
            None => if is_class_named(elements[n - 1], name) {
                Some(n - 1)
            } else {
                None
            },
        }
    }
}

/// An element with more methods, where it is a class.
pub open spec fn with_methods(e: ElementModel, more: Seq<MethodModel>) -> ElementModel {
    match e {
        ElementModel::Class(c) => ElementModel::Class(
            ClassModel {
                name: c.name,
                visibility: c.visibility,
                methods: c.methods + more,
                properties: c.properties,
                documentation: c.documentation,
            },
        ),
        other => other,
    }
}

/// The elements after an impl block: its methods go to the first class
/// that has the name of the type that the block is for. A block for a type
/// that is no class so far adds nothing.
pub open spec fn with_impl(elements: Seq<ElementModel>, node: SyntaxNode) -> Seq<ElementModel> {
    match impl_target(node) {
        Some(name) => match class_index(elements, name, elements.len()) {
            Some(at) => elements.update(at, with_methods(elements[at], impl_methods(node))),
            None => elements,
        },
        None => elements,
    }
}

/// The elements after one more child of the file: a struct adds a class, a
/// function adds a function, an impl block adds methods to a class. An item
/// that cannot be read is passed over.
pub open spec fn item_step(elements: Seq<ElementModel>, child: SyntaxNode) -> Seq<ElementModel> {
    if child.is_kind("struct_item"@) {
        match struct_of(child) {
            Ok(c) => elements.push(ElementModel::Class(c)),
            Err(_) => elements,
        }
    } else if child.is_kind("function_item"@) {
        match function_of(child) {
            Ok(f) => elements.push(ElementModel::Function(f)),
            Err(_) => elements,
        }
    } else if child.is_kind("impl_item"@) {
        with_impl(elements, child)
    } else {
        elements
    }
}

/// What the first `n` children of the file declare.
pub open spec fn file_items(root: SyntaxNode, n: nat) -> Seq<ElementModel>
    decreases n,
{
    if n == 0 {
        Seq::empty()
    } else {
        item_step(file_items(root, (n - 1) as nat), root.children@[n - 1])
    }
}

/// The blueprint of the Rust file at `path` whose syntax tree is `root`:
/// its structs with their fields and methods, and its functions, in
/// declaration order. It names no dependencies.
pub open spec fn rust_blueprint(path: Seq<char>, root: SyntaxNode) -> BlueprintModel {
    BlueprintModel {
        source_path: path,
        language: "rust"@,
        elements: file_items(root, root.children@.len()),
        dependencies: Seq::empty(),
    }
}

/// Finds the first class of the given name.
fn find_class(elements: &Vec<Element>, name: &str) -> (r: Option<usize>)
    ensures
        match r {
            Some(at) => at < elements@.len() && class_index(
                element_models(elements@),
                name@,
                elements@.len(),
            ) == Some(at as int),
            None => class_index(element_models(elements@), name@, elements@.len()) is None,
        },
{
    let mut found: Option<usize> = None;
    let mut i: usize = 0;
    while i < elements.len()
        invariant
            i <= elements.len(),
            match found {
                Some(at) => at < i && class_index(element_models(elements@), name@, i as nat)
                    == Some(at as int),
                None => class_index(element_models(elements@), name@, i as nat) is None,
            },
        decreases elements.len() - i,
    {
        if found.is_none() {
            let is_it = match &elements[i] {
                Element::Class(c) => str_eq(c.name.as_str(), name),
                _ => false,
            };
            if is_it {
                found = Some(i);
            }
        }
        i = i + 1;
    }
    found
}

/// Gives the methods of an impl block to the class that they belong to.
fn attach_methods(elements: &mut Vec<Element>, node: &SyntaxNode)
    ensures
        element_models(final(elements)@) == with_impl(element_models(old(elements)@), *node),
{
    let ghost before = element_models(elements@);
    let target = match get_impl_struct_name(node) {
        Some(name) => name,
        None => {
            return ;
        },
    };
    match find_class(elements, target.as_str()) {
        Some(at) => {
            let methods = extract_impl_methods(node);
            let element = elements.remove(at);
            let ghost was = element@;
            let grown = match element {
                Element::Class(c) => {
                    let mut c = c;
                    let ghost had = method_models(c.methods@);
                    let mut methods = methods;
                    let ghost more = method_models(methods@);
                    c.methods.append(&mut methods);
                    assert(method_models(c.methods@) =~= had + more);
                    Element::Class(c)
                },
                other => other,
            };
            assert(grown@ == with_methods(was, impl_methods(*node)));
            let ghost now = grown@;
            elements.insert(at, grown);
            assert(element_models(elements@) =~= before.update(at as int, now));
        },
        None => {},
    }
}

/// Reads the syntax tree of the Rust file at `path` into its blueprint.
pub fn blueprint_from_tree(path: &str, root: &SyntaxNode) -> (r: Blueprint)
    ensures
        r@ == rust_blueprint(path@, *root),
        r.well_formed(),
{
    let mut elements: Vec<Element> = Vec::new();
    let mut i: usize = 0;
    assert(element_models(elements@) =~= Seq::<ElementModel>::empty());
    while i < root.children.len()
        invariant
            i <= root.children.len(),
            element_models(elements@) == file_items(*root, i as nat),
        decreases root.children.len() - i,
    {
        let child = &root.children[i];
        let ghost before = element_models(elements@);
        if child.has_kind("struct_item") {
            match extract_struct(child) {
                Ok(c) => {
                    let ghost added = c@;
                    elements.push(Element::Class(c));
                    assert(element_models(elements@) =~= before.push(ElementModel::Class(added)));
                },
                Err(_) => {},
            }
        } else if child.has_kind("function_item") {
            match extract_function(child) {
                Ok(f) => {
                    let ghost added = f@;
                    elements.push(Element::Function(f));
                    assert(element_models(elements@) =~= before.push(
                        ElementModel::Function(added),
                    ));
                },
                Err(_) => {},
            }
        } else if child.has_kind("impl_item") {
            attach_methods(&mut elements, child);
        }
        i = i + 1;
    }
    let none: Vec<String> = Vec::new();
    assert(texts(none@) =~= Seq::<Seq<char>>::empty());
    let r = Blueprint::new(path.to_string(), "rust".to_string(), elements, none);
    assert(r@.dependencies =~= Seq::<Seq<char>>::empty());
    r
}

impl Driver for RustDriver {
    open spec fn terms(&self) -> Terms {
        rust_terms()
    }

    /// Parses Rust source text. A text for which no syntax tree can be
    /// built is an error; else the blueprint is that of the syntax tree of
    /// the text.
    fn parse(&self, path: &str, content: &str) -> (r: Result<Blueprint, DriverError>)
        ensures
            match r {
                Ok(b) => exists|root: SyntaxNode|
                    syntax_of(Grammar::Rust, content@) == Ok::<NodeModel, DriverError>(root@)
                        && b@ == rust_blueprint(path@, root),
                Err(e) => syntax_of(Grammar::Rust, content@) == Err::<NodeModel, DriverError>(e),
            },
    {
        match parse_syntax(Grammar::Rust, content) {
            Ok(root) => {
                let b = blueprint_from_tree(path, &root);
                assert(syntax_of(Grammar::Rust, content@) == Ok::<NodeModel, DriverError>(root@)
                    && b@ == rust_blueprint(path@, root));
                Ok(b)
            },
            Err(e) => Err(e),
        }
    }

    /// Rust is a source, not a target: nothing is generated.
    fn generate(&self, blueprint: &Blueprint) -> (r: Result<String, DriverError>)
        ensures
            r == Err::<String, DriverError>(DriverError::NotSupported),
    {
        Err(DriverError::NotSupported)
    }

    fn terminology(&self) -> (r: LanguageTerminology) {
        LanguageTerminology::rust()
    }
}

} // verus!
