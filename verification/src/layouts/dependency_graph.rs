//! The dependency-graph layout: one diagram of modules and the edges between
//! them, a list of the modules, and a line that says whether the graph has a
//! cycle.

use super::arrange::{
    arrange, arranged, lemma_arrangement_ignores_input_order, module_group, picked, valid_picks,
};
use super::trait_def::{document_texts, Layout, LayoutError, LayoutFailure};
use crate::drivers::terminology::{terminology_for_language, terms_for, Terms};
use crate::graph::{
    add_edge, add_node, capacity, edge_pairs, edges_of, has_cycle, is_cyclic, names_of,
    new_graph, node_names,
};
use crate::ir::{class_count, function_count, Blueprint, Element};
use crate::names::{find_name, position};
use crate::paths;
use crate::paths::module_name;
use crate::text::{
    decimal, join, joined, lemma_take_step, number_text, sanitize, sanitized, texts,
};
use petgraph::graph::Graph;
use petgraph::Directed;
use vstd::prelude::*;
use vstd::string::*;

verus! {

/// The layout that draws the module dependency graph.
pub struct DependencyGraphLayout;

/// The module names of the blueprints, one per blueprint.
pub open spec fn module_names(bps: Seq<Blueprint>) -> Seq<Seq<char>> {
    Seq::new(bps.len(), |i: int| module_name(bps[i].source_path@))
}

/// The module names of the blueprints, each once, in the order in which the
/// modules first appear. Files of the same name in different directories
/// stand for one module.
pub open spec fn distinct_modules(bps: Seq<Blueprint>) -> Seq<Seq<char>>
    decreases bps.len(),
{
    if bps.len() == 0 {
        Seq::empty()
    } else {
        let before = distinct_modules(bps.drop_last());
        let name = module_name(bps.last().source_path@);
        if before.contains(name) {
            before
        } else {
            before.push(name)
        }
    }
}

/// The edges that leave the node `from`: one for every dependency that names
/// a node, in the order of the dependencies.
pub open spec fn edges_from(from: int, deps: Seq<Seq<char>>, nodes: Seq<Seq<char>>) -> Seq<
    (int, int),
>
    decreases deps.len(),
{
    if deps.len() == 0 {
        Seq::empty()
    } else {
        let before = edges_from(from, deps.drop_last(), nodes);
        match position(nodes, deps.last()) {
            Some(to) => before.push((from, to)),
            None => before,
        }
    }
}

/// The edges that one blueprint contributes.
pub open spec fn edges_of_blueprint(b: Blueprint, nodes: Seq<Seq<char>>) -> Seq<(int, int)> {
    match position(nodes, module_name(b.source_path@)) {
        Some(from) => edges_from(from, texts(b.dependencies@), nodes),
        None => Seq::empty(),
    }
}

/// The edges of the dependency graph over the given nodes, blueprint by
/// blueprint. A dependency that names no node gives no edge.
pub open spec fn resolved_edges(bps: Seq<Blueprint>, nodes: Seq<Seq<char>>) -> Seq<(int, int)>
    decreases bps.len(),
{
    if bps.len() == 0 {
        Seq::empty()
    } else {
        resolved_edges(bps.drop_last(), nodes) + edges_of_blueprint(bps.last(), nodes)
    }
}

/// Every edge joins two of the `count` nodes.
pub open spec fn edges_in_range(edges: Seq<(int, int)>, count: int) -> bool {
    forall|k: int|
        0 <= k < edges.len() ==> 0 <= (#[trigger] edges[k]).0 < count && 0 <= edges[k].1 < count
}

/// The edges from the first dependencies are among the edges from all.
pub proof fn lemma_edges_from_grow(from: int, deps: Seq<Seq<char>>, nodes: Seq<Seq<char>>, j: int)
    requires
        0 <= j <= deps.len(),
    ensures
        edges_from(from, deps.take(j), nodes).len() <= edges_from(from, deps, nodes).len(),
    decreases deps.len(),
{
    if j == deps.len() {
        assert(deps.take(j) =~= deps);
    } else {
        assert(deps.drop_last().take(j) =~= deps.take(j));
        lemma_edges_from_grow(from, deps.drop_last(), nodes, j);
    }
}

/// The edges of the first blueprints are among the edges of all.
pub proof fn lemma_resolved_edges_grow(bps: Seq<Blueprint>, nodes: Seq<Seq<char>>, i: int)
    requires
        0 <= i <= bps.len(),
    ensures
        resolved_edges(bps.take(i), nodes).len() <= resolved_edges(bps, nodes).len(),
    decreases bps.len(),
{
    if i == bps.len() {
        assert(bps.take(i) =~= bps);
    } else {
        assert(bps.drop_last().take(i) =~= bps.take(i));
        lemma_resolved_edges_grow(bps.drop_last(), nodes, i);
    }
}

/// The line that declares one node.
pub open spec fn node_line(name: Seq<char>) -> Seq<char> {
    "    "@ + sanitized(name, false, true) + "["@ + name + "]\n"@
}

/// The lines that declare the nodes, in order.
pub open spec fn node_lines(names: Seq<Seq<char>>) -> Seq<char>
    decreases names.len(),
{
    if names.len() == 0 {
        Seq::empty()
    } else {
        node_lines(names.drop_last()) + node_line(names.last())
    }
}

/// The line that draws one edge.
pub open spec fn edge_line(from: Seq<char>, to: Seq<char>) -> Seq<char> {
    "    "@ + sanitized(from, false, true) + " --> "@ + sanitized(to, false, true) + "\n"@
}

/// The lines that draw the edges, in order.
pub open spec fn edge_lines(edges: Seq<(int, int)>, names: Seq<Seq<char>>) -> Seq<char>
    decreases edges.len(),
{
    if edges.len() == 0 {
        Seq::empty()
    } else {
        edge_lines(edges.drop_last(), names) + edge_line(
            names[edges.last().0],
            names[edges.last().1],
        )
    }
}

/// The diagram section: every node, then every edge.
pub open spec fn diagram_text(names: Seq<Seq<char>>, edges: Seq<(int, int)>) -> Seq<char> {
    "## Dependency Graph\n\n```mermaid\ngraph TD\n"@ + node_lines(names) + edge_lines(edges, names)
        + "```\n"@
}

/// The line that lists one element; a module element has none.
pub open spec fn element_line(e: Element, terms: Terms) -> Seq<char> {
    match e {
        Element::Class(c) => "- `"@ + c.name@ + "` ("@ + terms.element_type_singular + ")\n"@,
        Element::Function(f) => "- `"@ + f.name@ + "()` ("@ + terms.function_label + ")\n"@,
        Element::Module(_) => Seq::empty(),
    }
}

/// The lines that list the elements, in declaration order.
pub open spec fn element_lines(elements: Seq<Element>, terms: Terms) -> Seq<char>
    decreases elements.len(),
{
    if elements.len() == 0 {
        Seq::empty()
    } else {
        element_lines(elements.drop_last(), terms) + element_line(elements.last(), terms)
    }
}

/// The heading, the path and the element counts of one module.
pub open spec fn module_head(b: Blueprint) -> Seq<char> {
    let terms = terms_for(b.language@);
    "### `"@ + module_name(b.source_path@) + "`\n\n**File**: "@ + b.source_path@
        + "\n\n**Contents**: "@ + decimal(class_count(b.elements@)) + " "@
        + terms.element_type_plural + ", "@ + decimal(function_count(b.elements@)) + " "@
        + terms.function_label_plural + "\n\n"@
}

/// The entry of one module in the module list.
pub open spec fn module_entry(b: Blueprint) -> Seq<char> {
    module_head(b) + (if b.elements@.len() > 0 {
        "**Key Types and Functions**:\n\n"@ + element_lines(
            b.elements@,
            terms_for(b.language@),
        ) + "\n"@
    } else {
        Seq::<char>::empty()
    }) + (if b.dependencies@.len() > 0 {
        "**Dependencies**: "@ + joined(texts(b.dependencies@), ", "@) + "\n\n"@
    } else {
        Seq::<char>::empty()
    })
}

/// The entries of the blueprints, in their order.
pub open spec fn module_entries(bps: Seq<Blueprint>) -> Seq<char>
    decreases bps.len(),
{
    if bps.len() == 0 {
        Seq::empty()
    } else {
        module_entries(bps.drop_last()) + module_entry(bps.last())
    }
}

/// The module list section: the entries in ascending order of module name,
/// the files of one module in the order of the input.
pub open spec fn module_list_text(bps: Seq<Blueprint>) -> Seq<char> {
    "## Modules\n\n"@ + module_entries(arranged(bps))
}

/// The closing line: a warning where the graph has a cycle, a confirmation
/// where it has none.
pub open spec fn footer_text(has_cycles: bool) -> Seq<char> {
    if has_cycles {
        "\u{26a0}\u{fe0f} **Circular Dependencies Detected**\n\nThis architecture contains circular dependencies. Consider refactoring to break these cycles."@
    } else {
        "\u{2705} No circular dependencies detected."@
    }
}

/// The whole document for the blueprints.
pub open spec fn graph_document(bps: Seq<Blueprint>) -> Seq<char> {
    let nodes = distinct_modules(bps);
    let edges = resolved_edges(bps, nodes);
    diagram_text(nodes, edges) + "\n\n"@ + module_list_text(bps) + "\n\n"@ + footer_text(
        has_cycle(edges),
    )
}

/// Whether the graph of the blueprints is more than a graph can hold.
pub open spec fn graph_too_large(bps: Seq<Blueprint>) -> bool {
    bps.len() > capacity() || resolved_edges(bps, distinct_modules(bps)).len() > capacity()
}

/// The module name of a source path: `src/engine.rs` gives `engine`.
pub fn extract_module_name(path: &str) -> (r: String)
    ensures
        r@ == module_name(path@),
{
    paths::extract_module_name(path)
}

/// A module name as a diagram identifier: `-` and `.` become `_`, and of the
/// rest only alphanumeric characters and `_` stay.
pub fn sanitize_id(name: &str) -> (r: String)
    ensures
        r@ == sanitized(name@, false, true),
{
    sanitize(name, false, true)
}

/// Writes the closing line.
pub fn generate_footer(has_cycles: bool) -> (r: String)
    ensures
        r@ == footer_text(has_cycles),
{
    if has_cycles {
        "\u{26a0}\u{fe0f} **Circular Dependencies Detected**\n\nThis architecture contains circular dependencies. Consider refactoring to break these cycles.".to_string()
    } else {
        "\u{2705} No circular dependencies detected.".to_string()
    }
}

fn write_element_lines(b: &Blueprint) -> (r: String)
    ensures
        r@ == element_lines(b.elements@, terms_for(b.language@)),
{
    let terms = terminology_for_language(b.language.as_str());
    let mut out = String::new();
    let mut i: usize = 0;
    while i < b.elements.len()
        invariant
            i <= b.elements.len(),
            terms@ == terms_for(b.language@),
            out@ == element_lines(b.elements@.take(i as int), terms@),
        decreases b.elements.len() - i,
    {
        proof {
            lemma_take_step(b.elements@, i as int);
        }
        let ghost before = out@;
        match &b.elements[i] {
            Element::Class(c) => {
                out.append("- `");
                out.append(c.name.as_str());
                out.append("` (");
                out.append(terms.element_type_singular.as_str());
                out.append(")\n");
            },
            Element::Function(f) => {
                out.append("- `");
                out.append(f.name.as_str());
                out.append("()` (");
                out.append(terms.function_label.as_str());
                out.append(")\n");
            },
            Element::Module(_) => {},
        }
        assert(out@ =~= before + element_line(b.elements@[i as int], terms@));
        i = i + 1;
    }
    assert(b.elements@.take(b.elements.len() as int) =~= b.elements@);
    out
}

fn write_module_entry(b: &Blueprint) -> (r: String)
    ensures
        r@ == module_entry(*b),
{
    let terms = terminology_for_language(b.language.as_str());
    let mut out = "### `".to_string();
    out.append(paths::extract_module_name(b.source_path.as_str()).as_str());
    out.append("`\n\n**File**: ");
    out.append(b.source_path.as_str());
    out.append("\n\n**Contents**: ");
    out.append(number_text(b.count_classes()).as_str());
    out.append(" ");
    out.append(terms.element_type_plural.as_str());
    out.append(", ");
    out.append(number_text(b.count_functions()).as_str());
    out.append(" ");
    out.append(terms.function_label_plural.as_str());
    out.append("\n\n");
    assert(out@ == module_head(*b));
    if b.elements.len() > 0 {
        let lines = write_element_lines(b);
        let ghost before = out@;
        out.append("**Key Types and Functions**:\n\n");
        out.append(lines.as_str());
        out.append("\n");
        assert(out@ =~= before + ("**Key Types and Functions**:\n\n"@ + element_lines(
            b.elements@,
            terms_for(b.language@),
        ) + "\n"@));
    } else {
        assert(out@ =~= module_head(*b) + Seq::<char>::empty());
    }
    let ghost middle = out@;
    if b.dependencies.len() > 0 {
        let deps = join(&b.dependencies, ", ");
        out.append("**Dependencies**: ");
        out.append(deps.as_str());
        out.append("\n\n");
        assert(out@ =~= middle + ("**Dependencies**: "@ + joined(texts(b.dependencies@), ", "@)
            + "\n\n"@));
    } else {
        assert(out@ =~= middle + Seq::<char>::empty());
    }
    out
}

/// Writes the module list: for every blueprint its module name, path,
/// element counts, elements and dependencies. The entries come in
/// ascending order of module name, whatever the order of the input; files
/// of one module keep the order of the input.
pub fn generate_module_list(blueprints: &[Blueprint]) -> (r: String)
    ensures
        r@ == module_list_text(blueprints@),
{
    let order = arrange(blueprints);
    let ghost shown = arranged(blueprints@);
    let mut out = "## Modules\n\n".to_string();
    let mut k: usize = 0;
    assert(out@ =~= "## Modules\n\n"@ + module_entries(shown.take(0)));
    while k < order.len()
        invariant
            k <= order.len(),
            valid_picks(order@, blueprints@.len()),
            shown == picked(blueprints@, order@),
            out@ == "## Modules\n\n"@ + module_entries(shown.take(k as int)),
        decreases order.len() - k,
    {
        proof {
            lemma_take_step(shown, k as int);
        }
        let b = &blueprints[order[k]];
        assert(*b == shown[k as int]);
        let entry = write_module_entry(b);
        out.append(entry.as_str());
        assert(out@ =~= "## Modules\n\n"@ + (module_entries(shown.take(k as int)) + module_entry(
            shown[k as int],
        )));
        k = k + 1;
    }
    assert(shown.take(order.len() as int) =~= shown);
    out
}

/// The module list does not depend on the order of the input: two inputs
/// in which every module has the same files in the same order give the
/// same list.
pub proof fn lemma_module_list_ignores_input_order(a: Seq<Blueprint>, b: Seq<Blueprint>)
    requires
        forall|name: Seq<char>| module_group(a, name, a.len()) == module_group(b, name, b.len()),
    ensures
        module_list_text(a) == module_list_text(b),
{
    lemma_arrangement_ignores_input_order(a, b);
}

/// Builds the dependency graph: one node per module, one edge per
/// dependency that names a module.
fn build_graph(blueprints: &[Blueprint]) -> (r: Result<Graph<String, (), Directed, u32>, LayoutError>)
    ensures
        match r {
            Ok(g) => {
                &&& !graph_too_large(blueprints@)
                &&& node_names(g) == distinct_modules(blueprints@)
                &&& edge_pairs(g) == resolved_edges(blueprints@, distinct_modules(blueprints@))
                &&& edges_in_range(edge_pairs(g), node_names(g).len() as int)
            },
            Err(e) => graph_too_large(blueprints@) && e@ == LayoutFailure::GraphTooLarge,
        },
{
    if blueprints.len() > 0xffff_ffff {
        return Err(LayoutError::GraphTooLarge);
    }
    let mut graph = new_graph();
    let mut names: Vec<String> = Vec::new();
    let mut i: usize = 0;
    assert(texts(names@) =~= node_names(graph));
    assert(node_names(graph) =~= distinct_modules(blueprints@.take(0)));
    while i < blueprints.len()
        invariant
            i <= blueprints.len() <= capacity(),
            names@.len() <= i,
            texts(names@) == node_names(graph),
            node_names(graph) == distinct_modules(blueprints@.take(i as int)),
            edge_pairs(graph).len() == 0,
        decreases blueprints.len() - i,
    {
        proof {
            lemma_take_step(blueprints@, i as int);
        }
        let name = paths::extract_module_name(blueprints[i].source_path.as_str());
        if find_name(&names, name.as_str()).is_none() {
            let ghost before = texts(names@);
            let index = add_node(&mut graph, name.clone());
            names.push(name);
            assert(texts(names@) =~= before.push(name@));
        }
        i = i + 1;
    }
    assert(blueprints@.take(blueprints.len() as int) =~= blueprints@);
    let ghost nodes = distinct_modules(blueprints@);
    let mut count: usize = 0;
    let mut i: usize = 0;
    assert(edge_pairs(graph) =~= resolved_edges(blueprints@.take(0), nodes));
    while i < blueprints.len()
        invariant
            i <= blueprints.len(),
            nodes == distinct_modules(blueprints@),
            texts(names@) == nodes,
            node_names(graph) == nodes,
            edge_pairs(graph) == resolved_edges(blueprints@.take(i as int), nodes),
            edges_in_range(edge_pairs(graph), nodes.len() as int),
            count == edge_pairs(graph).len(),
            count <= capacity(),
        decreases blueprints.len() - i,
    {
        proof {
            lemma_take_step(blueprints@, i as int);
            lemma_resolved_edges_grow(blueprints@, nodes, i + 1);
        }
        let b = &blueprints[i];
        let ghost done = edge_pairs(graph);
        let name = paths::extract_module_name(b.source_path.as_str());
        match find_name(&names, name.as_str()) {
            Some(from) => {
                let ghost deps = texts(b.dependencies@);
                let mut j: usize = 0;
                assert(edge_pairs(graph) =~= done + edges_from(from as int, deps.take(0), nodes));
                while j < b.dependencies.len()
                    invariant
                        j <= b.dependencies.len(),
                        deps == texts(b.dependencies@),
                        nodes == distinct_modules(blueprints@),
                        texts(names@) == nodes,
                        node_names(graph) == nodes,
                        from < nodes.len(),
                        done == resolved_edges(blueprints@.take(i as int), nodes),
                        edge_pairs(graph) == done + edges_from(
                            from as int,
                            deps.take(j as int),
                            nodes,
                        ),
                        edges_in_range(edge_pairs(graph), nodes.len() as int),
                        count == edge_pairs(graph).len(),
                        count <= capacity(),
                        i < blueprints.len(),
                        blueprints@[i as int] == *b,
                        position(nodes, module_name(b.source_path@)) == Some(from as int),
                        resolved_edges(blueprints@.take(i + 1), nodes).len() <= resolved_edges(
                            blueprints@,
                            nodes,
                        ).len(),
                        resolved_edges(blueprints@.take(i + 1), nodes) == done
                            + edges_of_blueprint(*b, nodes),
                    decreases b.dependencies.len() - j,
                {
                    proof {
                        lemma_take_step(deps, j as int);
                        lemma_edges_from_grow(from as int, deps, nodes, j + 1);
                    }
                    match find_name(&names, b.dependencies[j].as_str()) {
                        Some(to) => {
                            if count >= 0xffff_ffff {
                                proof {
                                    let so_far = edges_from(from as int, deps.take(j as int), nodes);
                                    let next = edges_from(from as int, deps.take(j + 1), nodes);
                                    assert(next == so_far.push((from as int, to as int)));
                                    assert(edges_of_blueprint(*b, nodes) == edges_from(
                                        from as int,
                                        deps,
                                        nodes,
                                    ));
                                    assert(count == done.len() + so_far.len());
                                }
                                return Err(LayoutError::GraphTooLarge);
                            }
                            let ghost before = edge_pairs(graph);
                            add_edge(&mut graph, from, to);
                            count = count + 1;
                            assert(edge_pairs(graph) =~= done + edges_from(
                                from as int,
                                deps.take(j + 1),
                                nodes,
                            ));
                        },
                        None => {},
                    }
                    j = j + 1;
                }
                assert(deps.take(b.dependencies.len() as int) =~= deps);
            },
            None => {
                assert(edge_pairs(graph) =~= done + edges_of_blueprint(*b, nodes));
            },
        }
        i = i + 1;
    }
    assert(blueprints@.take(blueprints.len() as int) =~= blueprints@);
    Ok(graph)
}

/// Writes the diagram section from the graph: every node, then every edge.
fn generate_mermaid_diagram(graph: &Graph<String, (), Directed, u32>) -> (r: String)
    requires
        edges_in_range(edge_pairs(*graph), node_names(*graph).len() as int),
    ensures
        r@ == diagram_text(node_names(*graph), edge_pairs(*graph)),
{
    let names = names_of(graph);
    let edges = edges_of(graph);
    let ghost nodes = node_names(*graph);
    let ghost pairs = edge_pairs(*graph);
    assert(texts(names@) =~= nodes);
    let mut out = "## Dependency Graph\n\n```mermaid\ngraph TD\n".to_string();
    let ghost head = out@;
    let mut i: usize = 0;
    assert(out@ =~= head + node_lines(nodes.take(0)));
    while i < names.len()
        invariant
            i <= names.len(),
            texts(names@) == nodes,
            out@ == head + node_lines(nodes.take(i as int)),
        decreases names.len() - i,
    {
        proof {
            lemma_take_step(nodes, i as int);
        }
        let ghost before = out@;
        out.append("    ");
        out.append(sanitize_id(names[i].as_str()).as_str());
        out.append("[");
        out.append(names[i].as_str());
        out.append("]\n");
        assert(out@ =~= before + node_line(nodes[i as int]));
        assert(out@ =~= head + (node_lines(nodes.take(i as int)) + node_line(nodes[i as int])));
        i = i + 1;
    }
    assert(nodes.take(names.len() as int) =~= nodes);
    let ghost middle = out@;
    let mut k: usize = 0;
    assert(out@ =~= middle + edge_lines(pairs.take(0), nodes));
    while k < edges.len()
        invariant
            k <= edges.len(),
            texts(names@) == nodes,
            edges@.len() == pairs.len(),
            forall|n: int|
                0 <= n < edges@.len() ==> (#[trigger] edges@[n]).0 == pairs[n].0 && edges@[n].1
                    == pairs[n].1,
            edges_in_range(pairs, nodes.len() as int),
            out@ == middle + edge_lines(pairs.take(k as int), nodes),
        decreases edges.len() - k,
    {
        proof {
            lemma_take_step(pairs, k as int);
        }
        let ghost before = out@;
        let from = edges[k].0;
        let to = edges[k].1;
        assert(from == pairs[k as int].0 && to == pairs[k as int].1);
        out.append("    ");
        out.append(sanitize_id(names[from].as_str()).as_str());
        out.append(" --> ");
        out.append(sanitize_id(names[to].as_str()).as_str());
        out.append("\n");
        assert(out@ =~= before + edge_line(nodes[from as int], nodes[to as int]));
        assert(out@ =~= middle + (edge_lines(pairs.take(k as int), nodes) + edge_line(
            nodes[from as int],
            nodes[to as int],
        )));
        k = k + 1;
    }
    assert(pairs.take(edges.len() as int) =~= pairs);
    out.append("```\n");
    out
}

impl Layout for DependencyGraphLayout {
    /// One document, `architecture.md`, unless the graph is too large.
    open spec fn documents(&self, blueprints: Seq<Blueprint>) -> Result<
        Seq<(Seq<char>, Seq<char>)>,
        LayoutFailure,
    > {
        if graph_too_large(blueprints) {
            Err(LayoutFailure::GraphTooLarge)
        } else {
            Ok(seq![("architecture.md"@, graph_document(blueprints))])
        }
    }

    fn format(&self, blueprints: &[Blueprint]) -> (r: Result<Vec<(String, String)>, LayoutError>) {
        let graph = match build_graph(blueprints) {
            Ok(g) => g,
            Err(e) => {
                return Err(e);
            },
        };
        let has_cycles = is_cyclic(&graph);
        let mut content = generate_mermaid_diagram(&graph);
        content.append("\n\n");
        content.append(generate_module_list(blueprints).as_str());
        content.append("\n\n");
        content.append(generate_footer(has_cycles).as_str());
        let mut docs: Vec<(String, String)> = Vec::new();
        docs.push(("architecture.md".to_string(), content));
        assert(document_texts(docs@) =~= seq![("architecture.md"@, graph_document(blueprints@))]);
        Ok(docs)
    }
}

} // verus!
