//! The folder layout: one document per directory, with the class diagram of
//! its files, and one index document over all modules.

use super::trait_def::{document_texts, Layout, LayoutError, LayoutFailure};
use crate::drivers::terminology::{terminology_for_language, terms_for};
use crate::ir::{opt_text, Blueprint, Class, Element, Method, Parameter, Property, Visibility};
use super::arrange::{
    arrange, arranged, lemma_arrangement_ignores_input_order, module_group, picked, valid_picks,
};
use super::dependency_graph::module_names;
use crate::names::{
    find_name, insert_sorted, lemma_sorted_set, lemma_sorted_set_ignores_order, sorted_set,
    strictly_sorted,
};
use crate::paths;
use crate::paths::{folder_of, module_name};
use crate::text::{join, joined, sanitize, sanitized, str_eq, texts};
use vstd::prelude::*;
use vstd::string::*;

verus! {

/// The layout that writes one document per directory and an index.
pub struct FolderMarkdownLayout {
    main_diagram: String,
}

/// The sign that a diagram puts before a member of the given visibility.
pub open spec fn visibility_glyph(v: Visibility) -> Seq<char> {
    match v {
        Visibility::Public => "+"@,
        Visibility::Private => "-"@,
        Visibility::Protected => "#"@,
        Visibility::Internal => "~"@,
    }
}

/// A type annotation as a diagram shows it: `_` stands for an absent one.
pub open spec fn type_or_blank(t: Option<String>) -> Seq<char> {
    match t {
        Some(s) => s@,
        None => "_"@,
    }
}

/// The diagram line of one property.
pub open spec fn property_line(p: Property) -> Seq<char> {
    "        "@ + visibility_glyph(p.visibility) + p.name@ + " "@ + type_or_blank(
        p.type_annotation,
    ) + "\n"@
}

/// The diagram lines of the first `n` properties.
pub open spec fn property_lines(props: Seq<Property>, n: nat) -> Seq<char>
    decreases n,
{
    if n == 0 {
        Seq::empty()
    } else {
        property_lines(props, (n - 1) as nat) + property_line(props[n - 1])
    }
}

/// The parameters that a diagram shows, each as `name: type`: all of the
/// first `n` but those named `self`.
pub open spec fn shown_parameters(params: Seq<Parameter>, n: nat) -> Seq<Seq<char>>
    decreases n,
{
    if n == 0 {
        Seq::empty()
    } else {
        let before = shown_parameters(params, (n - 1) as nat);
        if params[n - 1].name@ == "self"@ {
            before
        } else {
            before.push(params[n - 1].name@ + ": "@ + type_or_blank(params[n - 1].type_annotation))
        }
    }
}

/// The return type that a diagram shows for a method.
pub open spec fn shown_return(m: Method, default_return: Seq<char>) -> Seq<char> {
    match m.signature.return_type {
        Some(t) => t@,
        None => default_return,
    }
}

/// The diagram line of one method.
pub open spec fn method_line(m: Method, default_return: Seq<char>) -> Seq<char> {
    "        "@ + visibility_glyph(m.visibility) + m.name@ + "("@ + joined(
        shown_parameters(m.signature.parameters@, m.signature.parameters@.len()),
        ", "@,
    ) + ") "@ + shown_return(m, default_return) + "\n"@
}

/// The diagram lines of the first `n` methods.
pub open spec fn method_lines(methods: Seq<Method>, default_return: Seq<char>, n: nat) -> Seq<char>
    decreases n,
{
    if n == 0 {
        Seq::empty()
    } else {
        method_lines(methods, default_return, (n - 1) as nat) + method_line(
            methods[n - 1],
            default_return,
        )
    }
}

/// The diagram block of one class: its properties, then its methods.
pub open spec fn class_block(c: Class, default_return: Seq<char>) -> Seq<char> {
    "    class "@ + c.name@ + " {\n"@ + property_lines(c.properties@, c.properties@.len())
        + method_lines(c.methods@, default_return, c.methods@.len()) + "    }\n"@
}

/// The diagram block of one element: only a class has one.
pub open spec fn element_block(e: Element, default_return: Seq<char>) -> Seq<char> {
    match e {
        Element::Class(c) => class_block(c, default_return),
        _ => Seq::empty(),
    }
}

/// The diagram blocks of the first `n` elements.
pub open spec fn element_blocks(elements: Seq<Element>, default_return: Seq<char>, n: nat) -> Seq<
    char,
>
    decreases n,
{
    if n == 0 {
        Seq::empty()
    } else {
        element_blocks(elements, default_return, (n - 1) as nat) + element_block(
            elements[n - 1],
            default_return,
        )
    }
}

/// The part of a diagram that one file contributes: a comment that names
/// the file, then its classes.
pub open spec fn file_block(b: Blueprint) -> Seq<char> {
    "    %% File: "@ + b.source_path@ + "\n"@ + element_blocks(
        b.elements@,
        terms_for(b.language@).return_type_default,
        b.elements@.len(),
    )
}

/// The parts of the first `n` files.
pub open spec fn file_blocks(group: Seq<Blueprint>, n: nat) -> Seq<char>
    decreases n,
{
    if n == 0 {
        Seq::empty()
    } else {
        file_blocks(group, (n - 1) as nat) + file_block(group[n - 1])
    }
}

/// The class diagram of a group of files.
pub open spec fn class_diagram_text(group: Seq<Blueprint>) -> Seq<char> {
    "classDiagram\n"@ + file_blocks(group, group.len())
}

/// The title of a folder document: the directory of the file, or `Unknown`.
pub open spec fn folder_title(path: Seq<char>) -> Seq<char> {
    match folder_of(path) {
        Some(folder) => folder,
        None => "Unknown"@,
    }
}

/// The rows that list the first `n` files.
pub open spec fn file_rows(group: Seq<Blueprint>, n: nat) -> Seq<char>
    decreases n,
{
    if n == 0 {
        Seq::empty()
    } else {
        file_rows(group, (n - 1) as nat) + ("- `"@ + group[n - 1].source_path@ + "`\n"@)
    }
}

/// The document of one group of files; an empty group gives an empty text.
pub open spec fn file_md_text(group: Seq<Blueprint>) -> Seq<char> {
    if group.len() == 0 {
        Seq::empty()
    } else {
        let terms = terms_for(group[0].language@);
        "# "@ + folder_title(group[0].source_path@) + "\n\n> Language: **"@ + group[0].language@
            + "**\n\n## Files\n\n"@ + file_rows(group, group.len()) + "\n---\n\n## "@
            + terms.element_type_plural + " & "@ + terms.function_label_plural
            + "\n\n```mermaid\n"@ + class_diagram_text(group) + "```\n\n"@
    }
}

/// The sign for a visibility: `+`, `-`, `#` or `~`.
pub fn mermaid_visibility(vis: &Visibility) -> (r: &'static str)
    ensures
        r@ == visibility_glyph(*vis),
{
    match vis {
        Visibility::Public => "+",
        Visibility::Private => "-",
        Visibility::Protected => "#",
        Visibility::Internal => "~",
    }
}

/// The module name of a source path: `src/engine.rs` gives `engine`.
pub fn extract_module_name(path: &str) -> (r: String)
    ensures
        r@ == module_name(path@),
{
    paths::extract_module_name(path)
}

/// A name as a diagram identifier: space, `-`, `/` and `.` become `_`.
pub fn sanitize_id(name: &str) -> (r: String)
    ensures
        r@ == sanitized(name@, true, false),
{
    sanitize(name, true, false)
}

/// The document that a module's link points to.
pub fn format_module_path(module: &str) -> (r: String)
    ensures
        r@ == module@ + ".md"@,
{
    let mut out = module.to_string();
    out.append(".md");
    out
}

fn write_type(t: &Option<String>) -> (r: String)
    ensures
        r@ == type_or_blank(*t),
{
    match t {
        Some(s) => s.clone(),
        None => "_".to_string(),
    }
}

fn write_property_lines(props: &Vec<Property>) -> (r: String)
    ensures
        r@ == property_lines(props@, props@.len()),
{
    let mut out = String::new();
    let mut i: usize = 0;
    while i < props.len()
        invariant
            i <= props.len(),
            out@ == property_lines(props@, i as nat),
        decreases props.len() - i,
    {
        let ghost before = out@;
        let p = &props[i];
        out.append("        ");
        out.append(mermaid_visibility(&p.visibility));
        out.append(p.name.as_str());
        out.append(" ");
        out.append(write_type(&p.type_annotation).as_str());
        out.append("\n");
        assert(out@ =~= before + property_line(props@[i as int]));
        i = i + 1;
    }
    out
}

fn write_parameters(params: &Vec<Parameter>) -> (r: String)
    ensures
        r@ == joined(shown_parameters(params@, params@.len()), ", "@),
{
    let mut shown: Vec<String> = Vec::new();
    let mut i: usize = 0;
    assert(texts(shown@) =~= shown_parameters(params@, 0));
    while i < params.len()
        invariant
            i <= params.len(),
            texts(shown@) == shown_parameters(params@, i as nat),
        decreases params.len() - i,
    {
        let p = &params[i];
        if !str_eq(p.name.as_str(), "self") {
            let ghost before = texts(shown@);
            let mut item = p.name.clone();
            item.append(": ");
            item.append(write_type(&p.type_annotation).as_str());
            shown.push(item);
            assert(texts(shown@) =~= before.push(
                params@[i as int].name@ + ": "@ + type_or_blank(params@[i as int].type_annotation),
            ));
        }
        i = i + 1;
    }
    join(&shown, ", ")
}

fn write_method_lines(methods: &Vec<Method>, default_return: &str) -> (r: String)
    ensures
        r@ == method_lines(methods@, default_return@, methods@.len()),
{
    let mut out = String::new();
    let mut i: usize = 0;
    while i < methods.len()
        invariant
            i <= methods.len(),
            out@ == method_lines(methods@, default_return@, i as nat),
        decreases methods.len() - i,
    {
        let ghost before = out@;
        let m = &methods[i];
        out.append("        ");
        out.append(mermaid_visibility(&m.visibility));
        out.append(m.name.as_str());
        out.append("(");
        out.append(write_parameters(&m.signature.parameters).as_str());
        out.append(") ");
        match &m.signature.return_type {
            Some(t) => {
                out.append(t.as_str());
            },
            None => {
                out.append(default_return);
            },
        }
        out.append("\n");
        assert(out@ =~= before + method_line(methods@[i as int], default_return@));
        i = i + 1;
    }
    out
}

fn write_class_block(c: &Class, default_return: &str) -> (r: String)
    ensures
        r@ == class_block(*c, default_return@),
{
    let mut out = "    class ".to_string();
    out.append(c.name.as_str());
    out.append(" {\n");
    out.append(write_property_lines(&c.properties).as_str());
    out.append(write_method_lines(&c.methods, default_return).as_str());
    out.append("    }\n");
    out
}

/// Writes the diagram blocks of the classes among the elements.
pub(crate) fn write_element_blocks(elements: &Vec<Element>, default_return: &str) -> (r: String)
    ensures
        r@ == element_blocks(elements@, default_return@, elements@.len()),
{
    let mut out = String::new();
    let mut i: usize = 0;
    while i < elements.len()
        invariant
            i <= elements.len(),
            out@ == element_blocks(elements@, default_return@, i as nat),
        decreases elements.len() - i,
    {
        let ghost before = out@;
        match &elements[i] {
            Element::Class(c) => {
                out.append(write_class_block(c, default_return).as_str());
            },
            _ => {
                assert(out@ =~= before + Seq::<char>::empty());
            },
        }
        i = i + 1;
    }
    out
}

fn write_file_block(b: &Blueprint) -> (r: String)
    ensures
        r@ == file_block(*b),
{
    let terms = terminology_for_language(b.language.as_str());
    let mut out = "    %% File: ".to_string();
    out.append(b.source_path.as_str());
    out.append("\n");
    out.append(write_element_blocks(&b.elements, terms.return_type_default.as_str()).as_str());
    out
}

fn write_class_diagram(blueprints: &[Blueprint], picks: &Vec<usize>) -> (r: String)
    requires
        valid_picks(picks@, blueprints@.len()),
    ensures
        r@ == class_diagram_text(picked(blueprints@, picks@)),
{
    let ghost group = picked(blueprints@, picks@);
    let mut out = "classDiagram\n".to_string();
    let mut k: usize = 0;
    assert(out@ =~= "classDiagram\n"@ + file_blocks(group, 0));
    while k < picks.len()
        invariant
            k <= picks.len(),
            valid_picks(picks@, blueprints@.len()),
            group == picked(blueprints@, picks@),
            out@ == "classDiagram\n"@ + file_blocks(group, k as nat),
        decreases picks.len() - k,
    {
        let b = &blueprints[picks[k]];
        assert(*b == group[k as int]);
        out.append(write_file_block(b).as_str());
        assert(out@ =~= "classDiagram\n"@ + (file_blocks(group, k as nat) + file_block(
            group[k as int],
        )));
        k = k + 1;
    }
    out
}

fn write_file_md(blueprints: &[Blueprint], picks: &Vec<usize>) -> (r: String)
    requires
        valid_picks(picks@, blueprints@.len()),
    ensures
        r@ == file_md_text(picked(blueprints@, picks@)),
{
    let ghost group = picked(blueprints@, picks@);
    if picks.len() == 0 {
        return String::new();
    }
    let first = &blueprints[picks[0]];
    assert(*first == group[0]);
    let terms = terminology_for_language(first.language.as_str());
    let mut out = "# ".to_string();
    match paths::parent_dir_name(first.source_path.as_str()) {
        Some(folder) => {
            out.append(folder.as_str());
        },
        None => {
            out.append("Unknown");
        },
    }
    out.append("\n\n> Language: **");
    out.append(first.language.as_str());
    out.append("**\n\n## Files\n\n");
    let ghost head = out@;
    let mut k: usize = 0;
    assert(out@ =~= head + file_rows(group, 0));
    while k < picks.len()
        invariant
            k <= picks.len(),
            valid_picks(picks@, blueprints@.len()),
            group == picked(blueprints@, picks@),
            out@ == head + file_rows(group, k as nat),
        decreases picks.len() - k,
    {
        let ghost before = out@;
        let b = &blueprints[picks[k]];
        assert(*b == group[k as int]);
        out.append("- `");
        out.append(b.source_path.as_str());
        out.append("`\n");
        assert(out@ =~= head + (file_rows(group, k as nat) + ("- `"@ + group[k as int].source_path@
            + "`\n"@)));
        k = k + 1;
    }
    out.append("\n---\n\n## ");
    out.append(terms.element_type_plural.as_str());
    out.append(" & ");
    out.append(terms.function_label_plural.as_str());
    out.append("\n\n```mermaid\n");
    out.append(write_class_diagram(blueprints, picks).as_str());
    out.append("```\n\n");
    out
}

/// Picks every blueprint, in order.
fn pick_all(blueprints: &[Blueprint]) -> (r: Vec<usize>)
    ensures
        valid_picks(r@, blueprints@.len()),
        picked(blueprints@, r@) == blueprints@,
{
    let mut picks: Vec<usize> = Vec::new();
    let mut i: usize = 0;
    while i < blueprints.len()
        invariant
            i <= blueprints.len(),
            picks@.len() == i,
            forall|k: int| 0 <= k < i ==> picks@[k] == k,
        decreases blueprints.len() - i,
    {
        picks.push(i);
        i = i + 1;
    }
    assert(picked(blueprints@, picks@) =~= blueprints@);
    picks
}

/// Writes the class diagram of the files: for every file a comment that
/// names it, then each of its classes with properties and methods.
pub fn generate_mermaid_diagram_multi(blueprints: &[Blueprint]) -> (r: Option<String>)
    ensures
        opt_text(r) == Some(class_diagram_text(blueprints@)),
{
    let picks = pick_all(blueprints);
    Some(write_class_diagram(blueprints, &picks))
}

/// Writes the document of one group of files: title, language, file list
/// and class diagram. An empty group gives an empty text.
pub fn generate_file_md(blueprints: &[Blueprint]) -> (r: String)
    ensures
        r@ == file_md_text(blueprints@),
{
    let picks = pick_all(blueprints);
    write_file_md(blueprints, &picks)
}

/// The module names of the blueprints, each once, in the order of strings.
pub open spec fn sorted_modules(bps: Seq<Blueprint>) -> Seq<Seq<char>> {
    sorted_set(module_names(bps), bps.len())
}

/// The line that declares one module in the index graph.
pub open spec fn index_node(name: Seq<char>) -> Seq<char> {
    "    "@ + sanitized(name, true, false) + "["@ + name + "]\n"@
}

/// The lines that declare the first `n` modules.
pub open spec fn index_nodes(names: Seq<Seq<char>>, n: nat) -> Seq<char>
    decreases n,
{
    if n == 0 {
        Seq::empty()
    } else {
        index_nodes(names, (n - 1) as nat) + index_node(names[n - 1])
    }
}

/// The edges that leave one module: one for each of its first `n`
/// dependencies that names a module.
pub open spec fn index_edges_from(
    from: Seq<char>,
    deps: Seq<Seq<char>>,
    names: Seq<Seq<char>>,
    n: nat,
) -> Seq<char>
    decreases n,
{
    if n == 0 {
        Seq::empty()
    } else {
        index_edges_from(from, deps, names, (n - 1) as nat) + if names.contains(deps[n - 1]) {
            "    "@ + sanitized(from, true, false) + " --> "@ + sanitized(deps[n - 1], true, false)
                + "\n"@
        } else {
            Seq::<char>::empty()
        }
    }
}

/// The edges of the index graph, for the first `n` blueprints.
pub open spec fn index_edges(bps: Seq<Blueprint>, names: Seq<Seq<char>>, n: nat) -> Seq<char>
    decreases n,
{
    if n == 0 {
        Seq::empty()
    } else {
        index_edges(bps, names, (n - 1) as nat) + index_edges_from(
            module_name(bps[n - 1].source_path@),
            texts(bps[n - 1].dependencies@),
            names,
            bps[n - 1].dependencies@.len(),
        )
    }
}

/// The link to the document of one module.
pub open spec fn index_link(name: Seq<char>) -> Seq<char> {
    "- ["@ + name + "]("@ + (name + ".md"@) + ")\n"@
}

/// The links to the first `n` modules.
pub open spec fn index_links(names: Seq<Seq<char>>, n: nat) -> Seq<char>
    decreases n,
{
    if n == 0 {
        Seq::empty()
    } else {
        index_links(names, (n - 1) as nat) + index_link(names[n - 1])
    }
}

/// The index document: the graph of the modules and the links to them,
/// with the modules in the order of strings and the edges in ascending
/// order of the module that they leave.
pub open spec fn index_md_text(bps: Seq<Blueprint>) -> Seq<char> {
    let names = sorted_modules(bps);
    "# Project Architecture\n\n## Module Dependencies\n\n```mermaid\ngraph TD\n"@ + index_nodes(
        names,
        names.len(),
    ) + index_edges(arranged(bps), names, arranged(bps).len())
        + "```\n\n---\n\n## Modules\n\n"@ + index_links(names, names.len())
}

/// The directory under which a file is grouped: the directory that directly
/// holds it, or `root`.
pub open spec fn folder_key(path: Seq<char>) -> Seq<char> {
    match folder_of(path) {
        Some(folder) => folder,
        None => "root"@,
    }
}

/// The directory under which each blueprint is grouped.
pub open spec fn folder_key_list(bps: Seq<Blueprint>) -> Seq<Seq<char>> {
    Seq::new(bps.len(), |i: int| folder_key(bps[i].source_path@))
}

/// The directories of the blueprints, each once, in the order of strings.
pub open spec fn folder_keys(bps: Seq<Blueprint>) -> Seq<Seq<char>> {
    sorted_set(folder_key_list(bps), bps.len())
}

/// The places, among the first `n`, of the blueprints of one directory.
pub open spec fn folder_picks(bps: Seq<Blueprint>, key: Seq<char>, n: nat) -> Seq<usize>
    decreases n,
{
    if n == 0 {
        Seq::empty()
    } else {
        let before = folder_picks(bps, key, (n - 1) as nat);
        if folder_key(bps[n - 1].source_path@) == key {
            before.push((n - 1) as usize)
        } else {
            before
        }
    }
}

/// The blueprints of one directory, in the order of the input.
pub open spec fn folder_group(bps: Seq<Blueprint>, key: Seq<char>) -> Seq<Blueprint> {
    picked(bps, folder_picks(bps, key, bps.len()))
}

/// The document of one directory, with its file name.
pub open spec fn folder_document(bps: Seq<Blueprint>, key: Seq<char>) -> (Seq<char>, Seq<char>) {
    (key + ".md"@, file_md_text(folder_group(bps, key)))
}

/// The documents of the first `n` directories.
pub open spec fn folder_documents(bps: Seq<Blueprint>, keys: Seq<Seq<char>>, n: nat) -> Seq<
    (Seq<char>, Seq<char>),
>
    decreases n,
{
    if n == 0 {
        Seq::empty()
    } else {
        folder_documents(bps, keys, (n - 1) as nat).push(folder_document(bps, keys[n - 1]))
    }
}

/// All documents: one per directory, in the order of strings, then the index.
pub open spec fn all_documents(bps: Seq<Blueprint>, main_diagram: Seq<char>) -> Seq<
    (Seq<char>, Seq<char>),
> {
    let keys = folder_keys(bps);
    folder_documents(bps, keys, keys.len()).push((main_diagram, index_md_text(bps)))
}

fn write_index_edges_from(from: &str, deps: &Vec<String>, names: &Vec<String>) -> (r: String)
    ensures
        r@ == index_edges_from(from@, texts(deps@), texts(names@), deps@.len()),
{
    let from_id = sanitize_id(from);
    let mut out = String::new();
    let mut j: usize = 0;
    while j < deps.len()
        invariant
            j <= deps.len(),
            from_id@ == sanitized(from@, true, false),
            out@ == index_edges_from(from@, texts(deps@), texts(names@), j as nat),
        decreases deps.len() - j,
    {
        let ghost before = out@;
        if find_name(names, deps[j].as_str()).is_some() {
            out.append("    ");
            out.append(from_id.as_str());
            out.append(" --> ");
            out.append(sanitize_id(deps[j].as_str()).as_str());
            out.append("\n");
            assert(out@ =~= before + ("    "@ + sanitized(from@, true, false) + " --> "@
                + sanitized(texts(deps@)[j as int], true, false) + "\n"@));
        } else {
            assert(out@ =~= before + Seq::<char>::empty());
        }
        j = j + 1;
    }
    out
}

/// Collects the module names of the blueprints, each once, in the order of
/// strings.
pub fn collect_sorted_modules(blueprints: &[Blueprint]) -> (r: Vec<String>)
    ensures
        texts(r@) == sorted_modules(blueprints@),
{
    let mut names: Vec<String> = Vec::new();
    let mut i: usize = 0;
    assert(texts(names@) =~= sorted_set(module_names(blueprints@), 0));
    while i < blueprints.len()
        invariant
            i <= blueprints.len(),
            texts(names@) == sorted_set(module_names(blueprints@), i as nat),
        decreases blueprints.len() - i,
    {
        insert_sorted(&mut names, paths::extract_module_name(blueprints[i].source_path.as_str()));
        i = i + 1;
    }
    names
}

/// Writes the index document: a graph of the modules with an edge for every
/// dependency that names a module, and a link to every module.
pub fn generate_index_md(blueprints: &[Blueprint]) -> (r: String)
    ensures
        r@ == index_md_text(blueprints@),
{
    let names = collect_sorted_modules(blueprints);
    let ghost all = texts(names@);
    let mut out =
        "# Project Architecture\n\n## Module Dependencies\n\n```mermaid\ngraph TD\n".to_string();
    let ghost head = out@;
    let mut k: usize = 0;
    assert(out@ =~= head + index_nodes(all, 0));
    while k < names.len()
        invariant
            k <= names.len(),
            all == texts(names@),
            out@ == head + index_nodes(all, k as nat),
        decreases names.len() - k,
    {
        let ghost before = out@;
        out.append("    ");
        out.append(sanitize_id(names[k].as_str()).as_str());
        out.append("[");
        out.append(names[k].as_str());
        out.append("]\n");
        assert(out@ =~= head + (index_nodes(all, k as nat) + index_node(all[k as int])));
        k = k + 1;
    }
    let ghost middle = out@;
    let mut i: usize = 0;
    let order = arrange(blueprints);
    let ghost shown = arranged(blueprints@);
    assert(out@ =~= middle + index_edges(shown, all, 0));
    while i < order.len()
        invariant
            i <= order.len(),
            all == texts(names@),
            valid_picks(order@, blueprints@.len()),
            shown == picked(blueprints@, order@),
            out@ == middle + index_edges(shown, all, i as nat),
        decreases order.len() - i,
    {
        let b = &blueprints[order[i]];
        assert(*b == shown[i as int]);
        let from = paths::extract_module_name(b.source_path.as_str());
        let rows = write_index_edges_from(from.as_str(), &b.dependencies, &names);
        out.append(rows.as_str());
        assert(out@ =~= middle + (index_edges(shown, all, i as nat) + rows@));
        i = i + 1;
    }
    out.append("```\n\n---\n\n## Modules\n\n");
    let ghost tail = out@;
    let mut k: usize = 0;
    assert(out@ =~= tail + index_links(all, 0));
    while k < names.len()
        invariant
            k <= names.len(),
            all == texts(names@),
            out@ == tail + index_links(all, k as nat),
        decreases names.len() - k,
    {
        out.append("- [");
        out.append(names[k].as_str());
        out.append("](");
        out.append(format_module_path(names[k].as_str()).as_str());
        out.append(")\n");
        assert(out@ =~= tail + (index_links(all, k as nat) + index_link(all[k as int])));
        k = k + 1;
    }
    out
}

/// The directory under which a file is grouped.
fn folder_key_of(path: &str) -> (r: String)
    ensures
        r@ == folder_key(path@),
{
    match paths::parent_dir_name(path) {
        Some(folder) => folder,
        None => "root".to_string(),
    }
}

/// Picks the blueprints of one directory, in the order of the input.
fn pick_folder(blueprints: &[Blueprint], key: &str) -> (r: Vec<usize>)
    ensures
        r@ == folder_picks(blueprints@, key@, blueprints@.len()),
        valid_picks(r@, blueprints@.len()),
{
    let mut picks: Vec<usize> = Vec::new();
    let mut i: usize = 0;
    while i < blueprints.len()
        invariant
            i <= blueprints.len(),
            picks@ == folder_picks(blueprints@, key@, i as nat),
            valid_picks(picks@, i as nat),
        decreases blueprints.len() - i,
    {
        if str_eq(folder_key_of(blueprints[i].source_path.as_str()).as_str(), key) {
            picks.push(i);
        }
        i = i + 1;
    }
    picks
}

impl FolderMarkdownLayout {
    /// A folder layout whose index document is named `main_diagram`.
    pub fn new(main_diagram: &str) -> (r: Self)
        ensures
            r.index_name() == main_diagram@,
    {
        FolderMarkdownLayout { main_diagram: main_diagram.to_string() }
    }

    /// The file name of the index document.
    pub closed spec fn index_name(&self) -> Seq<char> {
        self.main_diagram@
    }
}

impl Layout for FolderMarkdownLayout {
    /// One document per directory and the index; no blueprints is a failure.
    open spec fn documents(&self, blueprints: Seq<Blueprint>) -> Result<
        Seq<(Seq<char>, Seq<char>)>,
        LayoutFailure,
    > {
        if blueprints.len() == 0 {
            Err(LayoutFailure::NoBlueprints)
        } else {
            Ok(all_documents(blueprints, self.index_name()))
        }
    }

    fn format(&self, blueprints: &[Blueprint]) -> (r: Result<Vec<(String, String)>, LayoutError>) {
        if blueprints.len() == 0 {
            return Err(LayoutError::NoBlueprints);
        }
        let mut folders: Vec<String> = Vec::new();
        let mut i: usize = 0;
        assert(texts(folders@) =~= sorted_set(folder_key_list(blueprints@), 0));
        while i < blueprints.len()
            invariant
                i <= blueprints.len(),
                texts(folders@) == sorted_set(folder_key_list(blueprints@), i as nat),
            decreases blueprints.len() - i,
        {
            insert_sorted(&mut folders, folder_key_of(blueprints[i].source_path.as_str()));
            i = i + 1;
        }
        let ghost keys = texts(folders@);
        let mut docs: Vec<(String, String)> = Vec::new();
        let mut k: usize = 0;
        assert(document_texts(docs@) =~= folder_documents(blueprints@, keys, 0));
        while k < folders.len()
            invariant
                k <= folders.len(),
                keys == texts(folders@),
                document_texts(docs@) == folder_documents(blueprints@, keys, k as nat),
            decreases folders.len() - k,
        {
            let ghost before = document_texts(docs@);
            let picks = pick_folder(blueprints, folders[k].as_str());
            let content = write_file_md(blueprints, &picks);
            let mut file_name = folders[k].clone();
            file_name.append(".md");
            docs.push((file_name, content));
            assert(document_texts(docs@) =~= before.push(
                folder_document(blueprints@, keys[k as int]),
            ));
            k = k + 1;
        }
        let ghost before = document_texts(docs@);
        let index = generate_index_md(blueprints);
        docs.push((self.main_diagram.clone(), index));
        assert(document_texts(docs@) =~= before.push(
            (self.main_diagram@, index_md_text(blueprints@)),
        ));
        Ok(docs)
    }
}

/// A directory has a group exactly when one of the first `n` blueprints
/// lies in it.
pub proof fn lemma_group_members(bps: Seq<Blueprint>, key: Seq<char>, n: nat)
    requires
        n <= bps.len(),
    ensures
        folder_picks(bps, key, n).len() > 0 <==> folder_key_list(bps).take(n as int).contains(key),
    decreases n,
{
    let keys = folder_key_list(bps);
    if n == 0 {
        assert(keys.take(0).len() == 0);
    } else {
        lemma_group_members(bps, key, (n - 1) as nat);
        let shorter = keys.take(n - 1);
        let longer = keys.take(n as int);
        assert(longer =~= shorter.push(keys[n - 1]));
        if shorter.contains(key) {
            let k = choose|k: int| 0 <= k < shorter.len() && shorter[k] == key;
            assert(longer[k] == key);
        }
        if longer.contains(key) {
            let k = choose|k: int| 0 <= k < longer.len() && longer[k] == key;
            if k < n - 1 {
                assert(shorter[k] == key);
            }
        }
        if folder_key(bps[n - 1].source_path@) == key {
            assert(longer[n - 1] == key);
        }
    }
}

/// The folder documents come in the order of strings, one for every
/// directory in which a blueprint lies, whatever the order of the input.
pub proof fn lemma_folders_in_order(bps: Seq<Blueprint>)
    ensures
        strictly_sorted(folder_keys(bps)),
        forall|key: Seq<char>|
            #![trigger folder_keys(bps).contains(key)]
            folder_keys(bps).contains(key) <==> folder_key_list(bps).contains(key),
{
    lemma_sorted_set(folder_key_list(bps), bps.len());
    assert(folder_key_list(bps).take(bps.len() as int) =~= folder_key_list(bps));
}

/// The index lists the modules in the order of strings, each once.
pub proof fn lemma_index_in_order(bps: Seq<Blueprint>)
    ensures
        strictly_sorted(sorted_modules(bps)),
        forall|name: Seq<char>|
            #![trigger sorted_modules(bps).contains(name)]
            sorted_modules(bps).contains(name) <==> module_names(bps).contains(name),
{
    lemma_sorted_set(module_names(bps), bps.len());
    assert(module_names(bps).take(bps.len() as int) =~= module_names(bps));
}

/// The order of the modules in the index does not depend on the order of
/// the input: inputs with the same module names give the same list.
pub proof fn lemma_index_ignores_input_order(a: Seq<Blueprint>, b: Seq<Blueprint>)
    requires
        forall|name: Seq<char>| module_names(a).contains(name) <==> module_names(b).contains(name),
    ensures
        sorted_modules(a) == sorted_modules(b),
{
    lemma_sorted_set_ignores_order(module_names(a), module_names(b));
}

/// The documents of the first `n` directories depend on the groups alone.
proof fn lemma_same_groups_same_documents(
    a: Seq<Blueprint>,
    b: Seq<Blueprint>,
    keys: Seq<Seq<char>>,
    n: nat,
)
    requires
        n <= keys.len(),
        forall|key: Seq<char>| folder_group(a, key) == folder_group(b, key),
    ensures
        folder_documents(a, keys, n) == folder_documents(b, keys, n),
    decreases n,
{
    if n > 0 {
        lemma_same_groups_same_documents(a, b, keys, (n - 1) as nat);
        assert(folder_group(a, keys[n - 1]) == folder_group(b, keys[n - 1]));
    }
}

/// Grouping, not the place in the input, decides the folder documents: two
/// inputs in which every directory holds the same blueprints in the same
/// order give the same folder documents, with the same names and in the
/// same order.
pub proof fn lemma_grouping_ignores_slot_order(a: Seq<Blueprint>, b: Seq<Blueprint>)
    requires
        forall|key: Seq<char>| folder_group(a, key) == folder_group(b, key),
    ensures
        folder_keys(a) == folder_keys(b),
        folder_documents(a, folder_keys(a), folder_keys(a).len()) == folder_documents(
            b,
            folder_keys(b),
            folder_keys(b).len(),
        ),
{
    let ka = folder_key_list(a);
    let kb = folder_key_list(b);
    assert forall|key: Seq<char>| ka.contains(key) <==> kb.contains(key) by {
        lemma_group_members(a, key, a.len());
        lemma_group_members(b, key, b.len());
        assert(ka.take(a.len() as int) =~= ka);
        assert(kb.take(b.len() as int) =~= kb);
        assert(folder_group(a, key) == folder_group(b, key));
        assert(folder_group(a, key).len() == folder_picks(a, key, a.len()).len());
        assert(folder_group(b, key).len() == folder_picks(b, key, b.len()).len());
    }
    lemma_sorted_set_ignores_order(ka, kb);
    lemma_same_groups_same_documents(a, b, folder_keys(a), folder_keys(a).len());
}

/// The index document does not depend on the order of the input: two
/// inputs in which every module has the same files in the same order give
/// the same index.
pub proof fn lemma_index_text_ignores_input_order(a: Seq<Blueprint>, b: Seq<Blueprint>)
    requires
        forall|name: Seq<char>| module_group(a, name, a.len()) == module_group(b, name, b.len()),
    ensures
        index_md_text(a) == index_md_text(b),
{
    lemma_arrangement_ignores_input_order(a, b);
}

} // verus!
