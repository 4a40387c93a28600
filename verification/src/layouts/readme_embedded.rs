//! The compact layout: one short document with a table of components, a
//! pruned dependency diagram, a data-flow narrative and a guide.

use super::arrange::{
    arrange, arranged, lemma_arrangement_ignores_input_order, module_group, picked, valid_picks,
};
use super::dependency_graph::{distinct_modules, module_names};
use super::trait_def::{document_texts, Layout, LayoutError, LayoutFailure};
use crate::ir::{opt_text, Blueprint, Class, Element, Method};
use crate::names::{find_name, position};
use crate::paths;
use crate::paths::module_name;
use crate::text::{
    chars_of, contains, decimal, has_infix, join, joined, number_text, sanitize, sanitized, slice,
    str_eq, string_of, texts,
};
use vstd::prelude::*;
use vstd::string::*;

verus! {

/// The layout that writes one compact document.
pub struct ReadmeEmbeddedLayout;

/// The most characters of a summary that the component table shows.
pub open spec fn purpose_limit() -> nat {
    50
}

/// The most entries of a module that the component table shows.
pub open spec fn key_limit() -> nat {
    3
}

/// The first `limit` items, or all where there are fewer.
pub open spec fn first_few<T>(items: Seq<T>, limit: nat) -> Seq<T> {
    if items.len() <= limit {
        items
    } else {
        items.take(limit as int)
    }
}

/// The summary that a module or a class carries.
pub open spec fn summary_of(e: Element) -> Option<Seq<char>> {
    match e {
        Element::Module(m) => opt_text(m.documentation.summary),
        Element::Class(c) => opt_text(c.documentation.summary),
        Element::Function(_) => None,
    }
}

/// The first summary among the first `n` elements.
pub open spec fn first_summary(elements: Seq<Element>, n: nat) -> Option<Seq<char>>
    decreases n,
{
    if n == 0 {
        None
    } else {
        match first_summary(elements, (n - 1) as nat) {
            Some(s) => Some(s),
            None => summary_of(elements[n - 1]),
        }
    }
}

/// The purpose of a module: the start of its first summary, or `Module`
/// where no module or class of it has one.
pub open spec fn purpose_text(elements: Seq<Element>) -> Seq<char> {
    match first_summary(elements, elements.len()) {
        Some(s) => first_few(s, purpose_limit()),
        None => "Module"@,
    }
}

/// The names of the first `n` methods, each between backticks.
pub open spec fn method_marks(methods: Seq<Method>, n: nat) -> Seq<Seq<char>>
    decreases n,
{
    if n == 0 {
        Seq::empty()
    } else {
        method_marks(methods, (n - 1) as nat).push("`"@ + methods[n - 1].name@ + "`"@)
    }
}

/// How many methods of a class a key entry names: at most two.
pub open spec fn named_methods(methods: Seq<Method>) -> nat {
    if methods.len() < 2 {
        methods.len()
    } else {
        2
    }
}

/// The key entry of a class: its name, with its first methods if it has any.
pub open spec fn class_entry(c: Class) -> Seq<char> {
    if c.methods@.len() > 0 {
        c.name@ + " ("@ + joined(method_marks(c.methods@, named_methods(c.methods@)), ", "@)
            + ")"@
    } else {
        "`"@ + c.name@ + "`"@
    }
}

/// The key entries of the first `n` elements: one per function and class.
pub open spec fn key_entries(elements: Seq<Element>, n: nat) -> Seq<Seq<char>>
    decreases n,
{
    if n == 0 {
        Seq::empty()
    } else {
        let before = key_entries(elements, (n - 1) as nat);
        match elements[n - 1] {
            Element::Function(f) => before.push("`"@ + f.name@ + "`"@),
            Element::Class(c) => before.push(class_entry(c)),
            Element::Module(_) => before,
        }
    }
}

/// The key functions of a module: its first `limit` key entries, or a dash
/// where it has none.
pub open spec fn key_functions_text(elements: Seq<Element>, limit: nat) -> Seq<char> {
    let shown = first_few(key_entries(elements, elements.len()), limit);
    if shown.len() == 0 {
        "\u{2014}"@
    } else {
        joined(shown, ", "@)
    }
}

/// The table row of one module.
pub open spec fn component_row(b: Blueprint) -> Seq<char> {
    "| `"@ + module_name(b.source_path@) + "` | "@ + purpose_text(b.elements@) + " | "@
        + key_functions_text(b.elements@, key_limit()) + " |\n"@
}

/// The table rows of the first `n` modules.
pub open spec fn component_rows(bps: Seq<Blueprint>, n: nat) -> Seq<char>
    decreases n,
{
    if n == 0 {
        Seq::empty()
    } else {
        component_rows(bps, (n - 1) as nat) + component_row(bps[n - 1])
    }
}

/// The component table: one row per blueprint, in ascending order of
/// module name, the files of one module in the order of the input.
pub open spec fn component_table_text(bps: Seq<Blueprint>) -> Seq<char> {
    "### Components\n\n| Module | Purpose | Key Functions |\n|--------|---------|----------------|\n"@
        + component_rows(arranged(bps), arranged(bps).len())
}

/// The module name of a source path: `src/engine.rs` gives `engine`.
pub fn extract_module_name(path: &str) -> (r: String)
    ensures
        r@ == module_name(path@),
{
    paths::extract_module_name(path)
}

/// A name as a diagram identifier: space, `-`, `.` and `/` become `_`, and
/// of the rest only alphanumeric characters and `_` stay.
pub fn sanitize_id(name: &str) -> (r: String)
    ensures
        r@ == sanitized(name@, true, true),
{
    sanitize(name, true, true)
}

/// The first `limit` characters of a text.
fn clip(text: &str, limit: usize) -> (r: String)
    ensures
        r@ == first_few(text@, limit as nat),
{
    let chars = chars_of(text);
    if chars.len() <= limit {
        text.to_string()
    } else {
        let head = slice(&chars, 0, limit);
        assert(text@.subrange(0, limit as int) =~= text@.take(limit as int));
        string_of(&head)
    }
}

/// The purpose of a module, taken from the first summary that a module or
/// class element of it carries; `Module` where there is none.
pub fn infer_purpose(elements: &[Element], _module_name: &str) -> (r: String)
    ensures
        r@ == purpose_text(elements@),
{
    let mut found: Option<usize> = None;
    let mut i: usize = 0;
    while i < elements.len()
        invariant
            i <= elements.len(),
            match found {
                Some(at) => at < i && summary_of(elements@[at as int]) is Some && first_summary(
                    elements@,
                    i as nat,
                ) == summary_of(elements@[at as int]),
                None => first_summary(elements@, i as nat) is None,
            },
        decreases elements.len() - i,
    {
        if found.is_none() {
            let has = match &elements[i] {
                Element::Module(m) => m.documentation.summary.is_some(),
                Element::Class(c) => c.documentation.summary.is_some(),
                Element::Function(_) => false,
            };
            if has {
                found = Some(i);
            }
        }
        i = i + 1;
    }
    match found {
        Some(at) => {
            match &elements[at] {
                Element::Module(m) => match &m.documentation.summary {
                    Some(s) => clip(s.as_str(), 50),
                    None => "Module".to_string(),
                },
                Element::Class(c) => match &c.documentation.summary {
                    Some(s) => clip(s.as_str(), 50),
                    None => "Module".to_string(),
                },
                Element::Function(_) => "Module".to_string(),
            }
        },
        None => "Module".to_string(),
    }
}

fn write_class_entry(c: &Class) -> (r: String)
    ensures
        r@ == class_entry(*c),
{
    if c.methods.len() > 0 {
        let named: usize = if c.methods.len() < 2 {
            c.methods.len()
        } else {
            2
        };
        let mut marks: Vec<String> = Vec::new();
        let mut i: usize = 0;
        assert(texts(marks@) =~= method_marks(c.methods@, 0));
        while i < named
            invariant
                i <= named <= c.methods.len(),
                texts(marks@) == method_marks(c.methods@, i as nat),
            decreases named - i,
        {
            let ghost before = texts(marks@);
            let mut mark = "`".to_string();
            mark.append(c.methods[i].name.as_str());
            mark.append("`");
            marks.push(mark);
            assert(texts(marks@) =~= before.push("`"@ + c.methods@[i as int].name@ + "`"@));
            i = i + 1;
        }
        let mut out = c.name.clone();
        out.append(" (");
        out.append(join(&marks, ", ").as_str());
        out.append(")");
        out
    } else {
        let mut out = "`".to_string();
        out.append(c.name.as_str());
        out.append("`");
        out
    }
}

/// The key functions of a module: up to `max_count` of its functions and
/// classes, a class with its first two methods; a dash where it has none.
pub fn extract_key_functions(elements: &[Element], max_count: usize) -> (r: String)
    ensures
        r@ == key_functions_text(elements@, max_count as nat),
{
    let mut entries: Vec<String> = Vec::new();
    let mut i: usize = 0;
    assert(texts(entries@) =~= key_entries(elements@, 0));
    while i < elements.len()
        invariant
            i <= elements.len(),
            texts(entries@) == key_entries(elements@, i as nat),
        decreases elements.len() - i,
    {
        let ghost before = texts(entries@);
        match &elements[i] {
            Element::Function(f) => {
                let mut mark = "`".to_string();
                mark.append(f.name.as_str());
                mark.append("`");
                entries.push(mark);
                assert(texts(entries@) =~= before.push("`"@ + f.name@ + "`"@));
            },
            Element::Class(c) => {
                entries.push(write_class_entry(c));
                assert(texts(entries@) =~= before.push(class_entry(*c)));
            },
            Element::Module(_) => {},
        }
        i = i + 1;
    }
    let ghost all = texts(entries@);
    if entries.len() > max_count {
        entries.truncate(max_count);
        assert(texts(entries@) =~= all.take(max_count as int));
    }
    if entries.len() == 0 {
        "\u{2014}".to_string()
    } else {
        join(&entries, ", ")
    }
}

/// Writes the component table: one row per blueprint with its module, its
/// purpose and its key functions. The rows come in ascending order of
/// module name, whatever the order of the input.
pub fn generate_component_table(blueprints: &[Blueprint]) -> (r: String)
    ensures
        r@ == component_table_text(blueprints@),
{
    let order = arrange(blueprints);
    let ghost shown = arranged(blueprints@);
    let mut out =
        "### Components\n\n| Module | Purpose | Key Functions |\n|--------|---------|----------------|\n".to_string();
    let ghost head = out@;
    let mut i: usize = 0;
    assert(out@ =~= head + component_rows(shown, 0));
    while i < order.len()
        invariant
            i <= order.len(),
            valid_picks(order@, blueprints@.len()),
            shown == picked(blueprints@, order@),
            out@ == head + component_rows(shown, i as nat),
        decreases order.len() - i,
    {
        let b = &blueprints[order[i]];
        assert(*b == shown[i as int]);
        let module = paths::extract_module_name(b.source_path.as_str());
        let purpose = infer_purpose(b.elements.as_slice(), module.as_str());
        let keys = extract_key_functions(b.elements.as_slice(), 3);
        out.append("| `");
        out.append(module.as_str());
        out.append("` | ");
        out.append(purpose.as_str());
        out.append(" | ");
        out.append(keys.as_str());
        out.append(" |\n");
        assert(out@ =~= head + (component_rows(shown, i as nat) + component_row(shown[i as int])));
        i = i + 1;
    }
    out
}

/// The component table does not depend on the order of the input: two
/// inputs in which every module has the same files in the same order give
/// the same table.
pub proof fn lemma_component_table_ignores_input_order(a: Seq<Blueprint>, b: Seq<Blueprint>)
    requires
        forall|name: Seq<char>| module_group(a, name, a.len()) == module_group(b, name, b.len()),
    ensures
        component_table_text(a) == component_table_text(b),
{
    lemma_arrangement_ignores_input_order(a, b);
}

/// The place of the last of the first `n` blueprints that stands for the
/// module `name`.
pub open spec fn last_named(bps: Seq<Blueprint>, name: Seq<char>, n: nat) -> Option<int>
    decreases n,
{
    if n == 0 {
        None
    } else if module_name(bps[n - 1].source_path@) == name {
        Some(n - 1)
    } else {
        last_named(bps, name, (n - 1) as nat)
    }
}

/// The dependencies of a module: those of the last blueprint that stands
/// for it.
pub open spec fn module_deps(bps: Seq<Blueprint>, name: Seq<char>) -> Seq<Seq<char>> {
    match last_named(bps, name, bps.len()) {
        Some(at) => texts(bps[at].dependencies@),
        None => Seq::empty(),
    }
}

/// The line that declares one module in the overview.
pub open spec fn compact_node(name: Seq<char>) -> Seq<char> {
    "    "@ + sanitized(name, true, true) + "["@ + name + "]\n"@
}

/// The lines that declare the first `n` modules.
pub open spec fn compact_nodes(names: Seq<Seq<char>>, n: nat) -> Seq<char>
    decreases n,
{
    if n == 0 {
        Seq::empty()
    } else {
        compact_nodes(names, (n - 1) as nat) + compact_node(names[n - 1])
    }
}

/// The line that draws one edge of the overview.
pub open spec fn compact_edge(from: Seq<char>, to: Seq<char>) -> Seq<char> {
    "    "@ + sanitized(from, true, true) + " --> "@ + sanitized(to, true, true) + "\n"@
}

/// The edges that leave one module: one for each of its first `n`
/// dependencies that names a module, a repeated dependency counting once.
pub open spec fn compact_edges_from(
    from: Seq<char>,
    deps: Seq<Seq<char>>,
    names: Seq<Seq<char>>,
    n: nat,
) -> Seq<char>
    decreases n,
{
    if n == 0 {
        Seq::empty()
    } else {
        compact_edges_from(from, deps, names, (n - 1) as nat) + if names.contains(deps[n - 1])
            && position(deps, deps[n - 1]) == Some(n - 1) {
            compact_edge(from, deps[n - 1])
        } else {
            Seq::<char>::empty()
        }
    }
}

/// The edges of the overview, for the first `n` modules.
pub open spec fn compact_edges(bps: Seq<Blueprint>, names: Seq<Seq<char>>, n: nat) -> Seq<char>
    decreases n,
{
    if n == 0 {
        Seq::empty()
    } else {
        compact_edges(bps, names, (n - 1) as nat) + compact_edges_from(
            names[n - 1],
            module_deps(bps, names[n - 1]),
            names,
            module_deps(bps, names[n - 1]).len(),
        )
    }
}

/// The dependency overview: every module once, in the order of first
/// appearance, and the edges between modules.
pub open spec fn compact_diagram_text(bps: Seq<Blueprint>) -> Seq<char> {
    let names = distinct_modules(bps);
    "### Dependency Overview\n\n```mermaid\ngraph TD\n"@ + compact_nodes(names, names.len())
        + compact_edges(bps, names, names.len()) + "```\n"@
}

/// Whether a module is where a program starts.
pub open spec fn is_entry(name: Seq<char>) -> bool {
    name == "main"@ || name == "lib"@ || name == "cli"@
}

/// The entry points among the first `n` names.
pub open spec fn entry_points(names: Seq<Seq<char>>, n: nat) -> Seq<Seq<char>>
    decreases n,
{
    if n == 0 {
        Seq::empty()
    } else {
        let before = entry_points(names, (n - 1) as nat);
        if is_entry(names[n - 1]) {
            before.push(names[n - 1])
        } else {
            before
        }
    }
}

/// Whether some name holds `part`.
pub open spec fn any_has(names: Seq<Seq<char>>, part: Seq<char>) -> bool {
    exists|i: int| 0 <= i < names.len() && has_infix(#[trigger] names[i], part)
}

/// The step `body` where it is wanted, else nothing.
pub open spec fn step_if(wanted: bool, body: Seq<char>) -> Seq<Seq<char>> {
    if wanted {
        seq![body]
    } else {
        Seq::empty()
    }
}

/// The entry-point step.
pub open spec fn entry_step(entries: Seq<Seq<char>>) -> Seq<char> {
    "**Entry Point** ("@ + joined(entries, ", "@) + ") - User starts the application"@
}

/// The steps of the data flow, one for each kind of module that is present,
/// and the output step.
pub open spec fn flow_steps(names: Seq<Seq<char>>) -> Seq<Seq<char>> {
    let entries = entry_points(names, names.len());
    step_if(entries.len() > 0, entry_step(entries)) + step_if(
        names.contains("config"@),
        "**Configuration** - Load and parse settings"@,
    ) + step_if(names.contains("discovery"@), "**Discovery** - Scan filesystem for source files"@)
        + step_if(
        any_has(names, "driver"@) || any_has(names, "parse"@),
        "**Parsing** - Extract code structure using language drivers"@,
    ) + step_if(
        names.contains("engine"@),
        "**Processing** - Transform parsed code into intermediate representation"@,
    ) + step_if(
        any_has(names, "layout"@),
        "**Formatting** - Apply selected layout to generate output"@,
    ) + step_if(true, "**Output** - Write generated documentation to file"@)
}

/// The first `n` steps, numbered from one.
pub open spec fn numbered_steps(steps: Seq<Seq<char>>, n: nat) -> Seq<char>
    decreases n,
{
    if n == 0 {
        Seq::empty()
    } else {
        numbered_steps(steps, (n - 1) as nat) + (decimal(n) + ". "@ + steps[n - 1] + "\n\n"@)
    }
}

/// The data-flow narrative. The entry points are named in ascending order
/// of module name.
pub open spec fn data_flow_text(bps: Seq<Blueprint>) -> Seq<char> {
    let steps = flow_steps(module_names(arranged(bps)));
    "### Data Flow\n\n"@ + numbered_steps(steps, steps.len())
}

/// Whether a module is listed among the key files.
pub open spec fn is_key_file(name: Seq<char>) -> bool {
    name == "lib"@ || name == "main"@ || name == "engine"@ || name == "config"@
}

/// The summary that a module element carries.
pub open spec fn module_summary_of(e: Element) -> Option<Seq<char>> {
    match e {
        Element::Module(m) => opt_text(m.documentation.summary),
        _ => None,
    }
}

/// The first summary of a module element among the first `n` elements.
pub open spec fn module_summary(elements: Seq<Element>, n: nat) -> Option<Seq<char>>
    decreases n,
{
    if n == 0 {
        None
    } else {
        match module_summary(elements, (n - 1) as nat) {
            Some(s) => Some(s),
            None => module_summary_of(elements[n - 1]),
        }
    }
}

/// The key-file row of a blueprint; only a key file has one.
pub open spec fn key_file_row(b: Blueprint) -> Seq<char> {
    if is_key_file(module_name(b.source_path@)) {
        "- `"@ + module_name(b.source_path@) + "` - "@ + (match module_summary(
            b.elements@,
            b.elements@.len(),
        ) {
            Some(s) => s,
            None => "Core module"@,
        }) + "\n"@
    } else {
        Seq::empty()
    }
}

/// The key-file rows of the first `n` blueprints.
pub open spec fn key_file_rows(bps: Seq<Blueprint>, n: nat) -> Seq<char>
    decreases n,
{
    if n == 0 {
        Seq::empty()
    } else {
        key_file_rows(bps, (n - 1) as nat) + key_file_row(bps[n - 1])
    }
}

/// The advice on extending the project; absent where the project has
/// neither drivers nor layouts.
pub open spec fn extend_text(has_drivers: bool, has_layouts: bool) -> Seq<char> {
    if has_drivers || has_layouts {
        "**This project supports extensions:**\n\n"@ + (if has_drivers {
            "- Add new language support by implementing the driver trait\n"@
        } else {
            Seq::<char>::empty()
        }) + (if has_layouts {
            "- Add output formats by implementing the layout trait\n"@
        } else {
            Seq::<char>::empty()
        }) + "- Follow the existing code patterns and architecture structure\n\n"@
    } else {
        Seq::empty()
    }
}

/// The development guide.
pub open spec fn dev_guide_text(bps: Seq<Blueprint>) -> Seq<char> {
    let names = module_names(bps);
    "### Development Guide\n\n#### Key Files\n\n"@ + key_file_rows(
        arranged(bps),
        arranged(bps).len(),
    )
        + "\n#### How to Extend\n\n"@ + extend_text(
        any_has(names, "driver"@),
        any_has(names, "layout"@),
    )
        + "**General guidelines:**\n\n- Follow the existing code style\n- Add tests for new functionality\n- Ensure error handling uses `anyhow::Result`\n- Use structured logging with `tracing` macros\n\n"@
}

/// The whole document.
pub open spec fn readme_document(bps: Seq<Blueprint>) -> Seq<char> {
    "## Project Architecture\n\nQuick overview of the codebase structure and key components.\n\n"@
        + component_table_text(bps) + "\n"@ + compact_diagram_text(bps) + "\n"@ + data_flow_text(
        bps,
    ) + "\n"@ + dev_guide_text(bps)
}

/// Collects the module name of every blueprint.
fn collect_module_names(blueprints: &[Blueprint]) -> (r: Vec<String>)
    ensures
        r@.len() == blueprints@.len(),
        texts(r@) == module_names(blueprints@),
{
    let mut names: Vec<String> = Vec::new();
    let mut i: usize = 0;
    while i < blueprints.len()
        invariant
            i <= blueprints.len(),
            names@.len() == i,
            forall|k: int|
                0 <= k < i ==> (#[trigger] names@[k])@ == module_name(blueprints@[k].source_path@),
        decreases blueprints.len() - i,
    {
        names.push(paths::extract_module_name(blueprints[i].source_path.as_str()));
        i = i + 1;
    }
    assert(texts(names@) =~= module_names(blueprints@));
    names
}

/// Collects the module name of every blueprint, in the order in which a
/// module list shows the blueprints.
fn collect_arranged_names(blueprints: &[Blueprint]) -> (r: Vec<String>)
    ensures
        texts(r@) == module_names(arranged(blueprints@)),
{
    let order = arrange(blueprints);
    let ghost shown = arranged(blueprints@);
    let mut names: Vec<String> = Vec::new();
    let mut i: usize = 0;
    while i < order.len()
        invariant
            i <= order.len(),
            valid_picks(order@, blueprints@.len()),
            shown == picked(blueprints@, order@),
            names@.len() == i,
            forall|k: int|
                0 <= k < i ==> (#[trigger] names@[k])@ == module_name(shown[k].source_path@),
        decreases order.len() - i,
    {
        let b = &blueprints[order[i]];
        assert(*b == shown[i as int]);
        names.push(paths::extract_module_name(b.source_path.as_str()));
        i = i + 1;
    }
    assert(texts(names@) =~= module_names(shown));
    names
}

/// Collects the module names, each once, in the order of first appearance.
fn collect_distinct(blueprints: &[Blueprint], names: &Vec<String>) -> (r: Vec<String>)
    requires
        names@.len() == blueprints@.len(),
        texts(names@) == module_names(blueprints@),
    ensures
        texts(r@) == distinct_modules(blueprints@),
{
    let ghost bps = blueprints@;
    let mut out: Vec<String> = Vec::new();
    let mut i: usize = 0;
    assert(bps.take(0) =~= Seq::<Blueprint>::empty());
    assert(texts(out@) =~= distinct_modules(bps.take(0)));
    while i < names.len()
        invariant
            i <= names.len(),
            bps == blueprints@,
            names@.len() == bps.len(),
            texts(names@) == module_names(bps),
            texts(out@) == distinct_modules(bps.take(i as int)),
        decreases names.len() - i,
    {
        proof {
            crate::text::lemma_take_step(bps, i as int);
            assert(texts(names@)[i as int] == module_name(bps[i as int].source_path@));
        }
        if find_name(&out, names[i].as_str()).is_none() {
            let ghost before = texts(out@);
            out.push(names[i].clone());
            assert(texts(out@) =~= before.push(names@[i as int]@));
        }
        i = i + 1;
    }
    assert(bps.take(names.len() as int) =~= bps);
    out
}

/// Finds the last blueprint that stands for the module.
fn find_last_named(blueprints: &[Blueprint], names: &Vec<String>, name: &str) -> (r: Option<usize>)
    requires
        names@.len() == blueprints@.len(),
        texts(names@) == module_names(blueprints@),
    ensures
        match r {
            Some(at) => at < blueprints@.len() && last_named(
                blueprints@,
                name@,
                blueprints@.len(),
            ) == Some(at as int),
            None => last_named(blueprints@, name@, blueprints@.len()) is None,
        },
{
    let mut found: Option<usize> = None;
    let mut i: usize = 0;
    while i < names.len()
        invariant
            i <= names.len(),
            names@.len() == blueprints@.len(),
            texts(names@) == module_names(blueprints@),
            match found {
                Some(at) => at < i && last_named(blueprints@, name@, i as nat) == Some(at as int),
                None => last_named(blueprints@, name@, i as nat) is None,
            },
        decreases names.len() - i,
    {
        assert(texts(names@)[i as int] == module_name(blueprints@[i as int].source_path@));
        if str_eq(names[i].as_str(), name) {
            found = Some(i);
        }
        i = i + 1;
    }
    found
}

fn write_compact_edges_from(from: &str, deps: &Vec<String>, names: &Vec<String>) -> (r: String)
    ensures
        r@ == compact_edges_from(from@, texts(deps@), texts(names@), deps@.len()),
{
    let from_id = sanitize_id(from);
    let mut out = String::new();
    let mut j: usize = 0;
    while j < deps.len()
        invariant
            j <= deps.len(),
            from_id@ == sanitized(from@, true, true),
            out@ == compact_edges_from(from@, texts(deps@), texts(names@), j as nat),
        decreases deps.len() - j,
    {
        let ghost before = out@;
        let dep = deps[j].as_str();
        assert(dep@ == texts(deps@)[j as int]);
        let stands_first = match find_name(deps, dep) {
            Some(at) => at == j,
            None => false,
        };
        if stands_first && find_name(names, dep).is_some() {
            out.append("    ");
            out.append(from_id.as_str());
            out.append(" --> ");
            out.append(sanitize_id(dep).as_str());
            out.append("\n");
            assert(out@ =~= before + compact_edge(from@, dep@));
        } else {
            assert(out@ =~= before + Seq::<char>::empty());
        }
        j = j + 1;
    }
    out
}

/// Writes the dependency overview: every module once, and an edge for every
/// dependency of a module that names another module.
pub fn generate_compact_diagram(blueprints: &[Blueprint]) -> (r: String)
    ensures
        r@ == compact_diagram_text(blueprints@),
{
    let all_names = collect_module_names(blueprints);
    let names = collect_distinct(blueprints, &all_names);
    let ghost nodes = texts(names@);
    let mut out = "### Dependency Overview\n\n```mermaid\ngraph TD\n".to_string();
    let ghost head = out@;
    let mut k: usize = 0;
    assert(out@ =~= head + compact_nodes(nodes, 0));
    while k < names.len()
        invariant
            k <= names.len(),
            nodes == texts(names@),
            out@ == head + compact_nodes(nodes, k as nat),
        decreases names.len() - k,
    {
        out.append("    ");
        out.append(sanitize_id(names[k].as_str()).as_str());
        out.append("[");
        out.append(names[k].as_str());
        out.append("]\n");
        assert(out@ =~= head + (compact_nodes(nodes, k as nat) + compact_node(nodes[k as int])));
        k = k + 1;
    }
    let ghost middle = out@;
    let mut k: usize = 0;
    assert(out@ =~= middle + compact_edges(blueprints@, nodes, 0));
    while k < names.len()
        invariant
            k <= names.len(),
            nodes == texts(names@),
            all_names@.len() == blueprints@.len(),
            texts(all_names@) == module_names(blueprints@),
            out@ == middle + compact_edges(blueprints@, nodes, k as nat),
        decreases names.len() - k,
    {
        let name = names[k].as_str();
        assert(name@ == nodes[k as int]);
        match find_last_named(blueprints, &all_names, name) {
            Some(at) => {
                let rows = write_compact_edges_from(name, &blueprints[at].dependencies, &names);
                out.append(rows.as_str());
                assert(out@ =~= middle + (compact_edges(blueprints@, nodes, k as nat) + rows@));
            },
            None => {
                assert(out@ =~= middle + (compact_edges(blueprints@, nodes, k as nat)
                    + Seq::<char>::empty()));
            },
        }
        k = k + 1;
    }
    out.append("```\n");
    out
}

/// Tests whether some name holds `part`.
fn any_contains(names: &Vec<String>, part: &str) -> (r: bool)
    ensures
        r == any_has(texts(names@), part@),
{
    let mut i: usize = 0;
    while i < names.len()
        invariant
            i <= names.len(),
            forall|k: int| 0 <= k < i ==> !has_infix(#[trigger] texts(names@)[k], part@),
        decreases names.len() - i,
    {
        if contains(names[i].as_str(), part) {
            assert(has_infix(texts(names@)[i as int], part@));
            return true;
        }
        i = i + 1;
    }
    false
}

/// Adds a step where it is wanted.
fn push_step(steps: &mut Vec<String>, wanted: bool, body: String)
    ensures
        texts(final(steps)@) == texts(old(steps)@) + step_if(wanted, body@),
{
    if wanted {
        steps.push(body);
        assert(texts(steps@) =~= texts(old(steps)@) + seq![body@]);
    } else {
        assert(texts(steps@) =~= texts(old(steps)@) + Seq::<Seq<char>>::empty());
    }
}

/// Writes the data-flow narrative: numbered steps, one for each kind of
/// module that the project has, closed by the output step.
pub fn generate_data_flow(blueprints: &[Blueprint]) -> (r: String)
    ensures
        r@ == data_flow_text(blueprints@),
{
    let names = collect_arranged_names(blueprints);
    let ghost all = texts(names@);
    let mut entries: Vec<String> = Vec::new();
    let mut i: usize = 0;
    assert(texts(entries@) =~= entry_points(all, 0));
    while i < names.len()
        invariant
            i <= names.len(),
            all == texts(names@),
            texts(entries@) == entry_points(all, i as nat),
        decreases names.len() - i,
    {
        let name = names[i].as_str();
        assert(name@ == all[i as int]);
        if str_eq(name, "main") || str_eq(name, "lib") || str_eq(name, "cli") {
            let ghost before = texts(entries@);
            entries.push(names[i].clone());
            assert(texts(entries@) =~= before.push(all[i as int]));
        }
        i = i + 1;
    }
    let mut entry = "**Entry Point** (".to_string();
    entry.append(join(&entries, ", ").as_str());
    entry.append(") - User starts the application");
    let has_drivers = any_contains(&names, "driver") || any_contains(&names, "parse");
    let has_layouts = any_contains(&names, "layout");
    let mut steps: Vec<String> = Vec::new();
    assert(texts(steps@) =~= Seq::<Seq<char>>::empty());
    push_step(&mut steps, entries.len() > 0, entry);
    assert(texts(steps@) =~= step_if(entries@.len() > 0, entry_step(texts(entries@))));
    push_step(
        &mut steps,
        find_name(&names, "config").is_some(),
        "**Configuration** - Load and parse settings".to_string(),
    );
    push_step(
        &mut steps,
        find_name(&names, "discovery").is_some(),
        "**Discovery** - Scan filesystem for source files".to_string(),
    );
    push_step(
        &mut steps,
        has_drivers,
        "**Parsing** - Extract code structure using language drivers".to_string(),
    );
    push_step(
        &mut steps,
        find_name(&names, "engine").is_some(),
        "**Processing** - Transform parsed code into intermediate representation".to_string(),
    );
    push_step(
        &mut steps,
        has_layouts,
        "**Formatting** - Apply selected layout to generate output".to_string(),
    );
    push_step(&mut steps, true, "**Output** - Write generated documentation to file".to_string());
    assert(texts(steps@) == flow_steps(all));
    let ghost wanted = texts(steps@);
    let mut out = "### Data Flow\n\n".to_string();
    let ghost head = out@;
    let mut k: usize = 0;
    assert(out@ =~= head + numbered_steps(wanted, 0));
    while k < steps.len()
        invariant
            k <= steps.len(),
            wanted == texts(steps@),
            out@ == head + numbered_steps(wanted, k as nat),
        decreases steps.len() - k,
    {
        out.append(number_text(k + 1).as_str());
        out.append(". ");
        out.append(steps[k].as_str());
        out.append("\n\n");
        assert(out@ =~= head + (numbered_steps(wanted, k as nat) + (decimal((k + 1) as nat) + ". "@
            + wanted[k as int] + "\n\n"@)));
        k = k + 1;
    }
    out
}

/// Finds the first summary that a module element carries.
fn find_module_summary(elements: &Vec<Element>) -> (r: Option<String>)
    ensures
        opt_text(r) == module_summary(elements@, elements@.len()),
{
    let mut found: Option<String> = None;
    let mut i: usize = 0;
    while i < elements.len()
        invariant
            i <= elements.len(),
            opt_text(found) == module_summary(elements@, i as nat),
        decreases elements.len() - i,
    {
        if found.is_none() {
            match &elements[i] {
                Element::Module(m) => match &m.documentation.summary {
                    Some(s) => {
                        found = Some(s.clone());
                    },
                    None => {},
                },
                _ => {},
            }
        }
        i = i + 1;
    }
    found
}

fn write_key_file_row(b: &Blueprint) -> (r: String)
    ensures
        r@ == key_file_row(*b),
{
    let module = paths::extract_module_name(b.source_path.as_str());
    let name = module.as_str();
    if str_eq(name, "lib") || str_eq(name, "main") || str_eq(name, "engine") || str_eq(
        name,
        "config",
    ) {
        let mut out = "- `".to_string();
        out.append(name);
        out.append("` - ");
        match find_module_summary(&b.elements) {
            Some(s) => {
                out.append(s.as_str());
            },
            None => {
                out.append("Core module");
            },
        }
        out.append("\n");
        out
    } else {
        String::new()
    }
}

/// Writes the development guide: the key files, advice on extending the
/// project where it has drivers or layouts, and general guidelines.
pub fn generate_dev_guide(blueprints: &[Blueprint]) -> (r: String)
    ensures
        r@ == dev_guide_text(blueprints@),
{
    let names = collect_module_names(blueprints);
    let order = arrange(blueprints);
    let ghost shown = arranged(blueprints@);
    let mut out = "### Development Guide\n\n#### Key Files\n\n".to_string();
    let ghost head = out@;
    let mut i: usize = 0;
    assert(out@ =~= head + key_file_rows(shown, 0));
    while i < order.len()
        invariant
            i <= order.len(),
            valid_picks(order@, blueprints@.len()),
            shown == picked(blueprints@, order@),
            out@ == head + key_file_rows(shown, i as nat),
        decreases order.len() - i,
    {
        let b = &blueprints[order[i]];
        assert(*b == shown[i as int]);
        let row = write_key_file_row(b);
        out.append(row.as_str());
        assert(out@ =~= head + (key_file_rows(shown, i as nat) + key_file_row(shown[i as int])));
        i = i + 1;
    }
    out.append("\n#### How to Extend\n\n");
    let has_drivers = any_contains(&names, "driver");
    let has_layouts = any_contains(&names, "layout");
    let ghost middle = out@;
    if has_drivers || has_layouts {
        let mut advice = "**This project supports extensions:**\n\n".to_string();
        let ghost start = advice@;
        if has_drivers {
            advice.append("- Add new language support by implementing the driver trait\n");
        } else {
            assert(advice@ =~= start + Seq::<char>::empty());
        }
        let ghost mid = advice@;
        if has_layouts {
            advice.append("- Add output formats by implementing the layout trait\n");
        } else {
            assert(advice@ =~= mid + Seq::<char>::empty());
        }
        advice.append("- Follow the existing code patterns and architecture structure\n\n");
        assert(advice@ == extend_text(has_drivers, has_layouts));
        out.append(advice.as_str());
    } else {
        assert(out@ =~= middle + extend_text(has_drivers, has_layouts));
    }
    out.append(
        "**General guidelines:**\n\n- Follow the existing code style\n- Add tests for new functionality\n- Ensure error handling uses `anyhow::Result`\n- Use structured logging with `tracing` macros\n\n",
    );
    out
}

impl Layout for ReadmeEmbeddedLayout {
    /// One document, `architecture.md`.
    open spec fn documents(&self, blueprints: Seq<Blueprint>) -> Result<
        Seq<(Seq<char>, Seq<char>)>,
        LayoutFailure,
    > {
        Ok(seq![("architecture.md"@, readme_document(blueprints))])
    }

    fn format(&self, blueprints: &[Blueprint]) -> (r: Result<Vec<(String, String)>, LayoutError>) {
        let mut content =
            "## Project Architecture\n\nQuick overview of the codebase structure and key components.\n\n".to_string();
        content.append(generate_component_table(blueprints).as_str());
        content.append("\n");
        content.append(generate_compact_diagram(blueprints).as_str());
        content.append("\n");
        content.append(generate_data_flow(blueprints).as_str());
        content.append("\n");
        content.append(generate_dev_guide(blueprints).as_str());
        let mut docs: Vec<(String, String)> = Vec::new();
        docs.push(("architecture.md".to_string(), content));
        assert(document_texts(docs@) =~= seq![("architecture.md"@, readme_document(blueprints@))]);
        Ok(docs)
    }
}

} // verus!
