//! The layered layout: blueprints are partitioned into named layers, drawn
//! as one box per layer with the dependencies between layers, and described
//! layer by layer.

use super::trait_def::{document_texts, Layout, LayoutError, LayoutFailure};
use crate::config::{layer_texts, Layer, LayerText};
use crate::ir::{class_count, function_count, opt_text, Blueprint, Element};
use crate::names::{
    add_new, find_name, insert_sorted, inserted, lemma_inserted_sorted, position, strictly_sorted,
    with_new,
};
use crate::paths;
use crate::paths::{folder_of, module_name};
use crate::patterns::{matches_pattern, pattern_matches};
use crate::text::{
    decimal, join, joined, number_text, sanitize, sanitized, str_eq, texts,
};
use vstd::prelude::*;
use vstd::string::*;

verus! {

/// The layout that groups modules into architectural layers.
pub struct LayeredLayout {
    /// The declared layers; empty means that layers are detected from the
    /// directories of the blueprints.
    pub layers: Vec<Layer>,
}

/// Whether some pattern of the layer matches the path.
pub open spec fn layer_accepts(layer: LayerText, path: Seq<char>) -> bool {
    exists|k: int| 0 <= k < layer.patterns.len() && pattern_matches(path, #[trigger] layer.patterns[k])
}

/// Whether `at` is the first layer that accepts the path.
pub open spec fn first_layer(layers: Seq<LayerText>, path: Seq<char>, at: int) -> bool {
    &&& 0 <= at < layers.len()
    &&& layer_accepts(layers[at], path)
    &&& forall|j: int| 0 <= j < at ==> !layer_accepts(layers[j], path)
}

/// The first declared layer that accepts the path: first match wins.
pub open spec fn assigned(layers: Seq<LayerText>, path: Seq<char>) -> Option<int> {
    if exists|at: int| first_layer(layers, path, at) {
        Some(choose|at: int| first_layer(layers, path, at))
    } else {
        None
    }
}

/// The name of the layer that a file belongs to. With declared layers it is
/// the first layer with a matching pattern; with none declared it is the
/// directory that directly holds the file. `None` means unassigned.
pub open spec fn home_of(declared: Seq<LayerText>, path: Seq<char>) -> Option<Seq<char>> {
    if declared.len() == 0 {
        folder_of(path)
    } else {
        match assigned(declared, path) {
            Some(at) => Some(declared[at].name),
            None => None,
        }
    }
}

/// The home layer of every blueprint.
pub open spec fn homes_of(declared: Seq<LayerText>, bps: Seq<Blueprint>) -> Seq<
    Option<Seq<char>>,
> {
    Seq::new(bps.len(), |i: int| home_of(declared, bps[i].source_path@))
}

/// The optional texts of a list of optional strings.
pub open spec fn opt_texts(items: Seq<Option<String>>) -> Seq<Option<Seq<char>>> {
    Seq::new(items.len(), |i: int| opt_text(items[i]))
}

/// The names of the directories that directly hold the first `n` blueprints,
/// each once, in the order of strings.
pub open spec fn folder_names(bps: Seq<Blueprint>, n: nat) -> Seq<Seq<char>>
    decreases n,
{
    if n == 0 {
        Seq::empty()
    } else {
        let before = folder_names(bps, (n - 1) as nat);
        match folder_of(bps[n - 1].source_path@) {
            Some(folder) => inserted(before, folder),
            None => before,
        }
    }
}

/// The layer that stands for a directory: its pattern takes everything
/// below the directory.
pub open spec fn folder_layer(folder: Seq<char>) -> LayerText {
    LayerText { name: folder, patterns: seq![folder + "/**"@] }
}

/// The detected layers: one per directory that directly holds a blueprint,
/// in the order of strings.
pub open spec fn detected_layers(bps: Seq<Blueprint>) -> Seq<LayerText> {
    Seq::new(
        folder_names(bps, bps.len()).len(),
        |i: int| folder_layer(folder_names(bps, bps.len())[i]),
    )
}

/// The layers that the document shows.
pub open spec fn shown_layers(declared: Seq<LayerText>, bps: Seq<Blueprint>) -> Seq<LayerText> {
    if declared.len() == 0 {
        detected_layers(bps)
    } else {
        declared
    }
}

impl LayeredLayout {
    /// A layered layout over the declared layers.
    pub fn new(layers: Vec<Layer>) -> (r: Self)
        ensures
            r.layers == layers,
    {
        LayeredLayout { layers }
    }

    /// The layers declared when none are configured: none, so that layers
    /// are detected.
    pub fn defaults() -> (r: Vec<Layer>)
        ensures
            r@.len() == 0,
    {
        Vec::new()
    }
}

/// The module name of a source path: `src/engine.rs` gives `engine`.
pub fn extract_module_name(path: &str) -> (r: String)
    ensures
        r@ == module_name(path@),
{
    paths::extract_module_name(path)
}

/// A name as a diagram identifier: space, `-`, `.` and `/` become `_`, and
/// of the rest only alphanumeric characters and `_` stay.
pub fn sanitize_id(name: &str) -> (r: String)
    ensures
        r@ == sanitized(name@, true, true),
{
    sanitize(name, true, true)
}

/// Detects layers from the directories of the blueprints: one layer per
/// directory, named after it, in the order of strings.
pub fn auto_detect_layers(blueprints: &[Blueprint]) -> (r: Vec<Layer>)
    ensures
        layer_texts(r@) == detected_layers(blueprints@),
{
    let mut folders: Vec<String> = Vec::new();
    let mut i: usize = 0;
    assert(texts(folders@) =~= folder_names(blueprints@, 0));
    while i < blueprints.len()
        invariant
            i <= blueprints.len(),
            texts(folders@) == folder_names(blueprints@, i as nat),
        decreases blueprints.len() - i,
    {
        match paths::parent_dir_name(blueprints[i].source_path.as_str()) {
            Some(folder) => {
                insert_sorted(&mut folders, folder);
            },
            None => {},
        }
        i = i + 1;
    }
    let mut layers: Vec<Layer> = Vec::new();
    let mut k: usize = 0;
    let ghost all = folder_names(blueprints@, blueprints@.len());
    assert(layer_texts(layers@) =~= detected_layers(blueprints@).take(0));
    while k < folders.len()
        invariant
            k <= folders.len(),
            texts(folders@) == all,
            all == folder_names(blueprints@, blueprints@.len()),
            layer_texts(layers@) == detected_layers(blueprints@).take(k as int),
        decreases folders.len() - k,
    {
        let mut pattern = folders[k].clone();
        pattern.append("/**");
        let mut patterns: Vec<String> = Vec::new();
        patterns.push(pattern);
        assert(texts(patterns@) =~= seq![all[k as int] + "/**"@]);
        let layer = Layer { name: folders[k].clone(), patterns };
        assert(layer@ == folder_layer(all[k as int]));
        let ghost before = layer_texts(layers@);
        let ghost added = layer@;
        layers.push(layer);
        assert(layer_texts(layers@) =~= before.push(added));
        assert(before.push(added) =~= detected_layers(blueprints@).take(k + 1));
        k = k + 1;
    }
    assert(detected_layers(blueprints@).take(folders.len() as int) =~= detected_layers(
        blueprints@,
    ));
    layers
}

/// Tests whether some pattern of the layer matches the path.
fn layer_accepts_path(layer: &Layer, path: &str) -> (r: bool)
    ensures
        r == layer_accepts(layer@, path@),
{
    let mut k: usize = 0;
    while k < layer.patterns.len()
        invariant
            k <= layer.patterns.len(),
            forall|j: int| 0 <= j < k ==> !pattern_matches(path@, #[trigger] layer@.patterns[j]),
        decreases layer.patterns.len() - k,
    {
        if matches_pattern(path, layer.patterns[k].as_str()) {
            assert(pattern_matches(path@, layer@.patterns[k as int]));
            return true;
        }
        k = k + 1;
    }
    false
}

/// Finds the first declared layer that accepts the path.
pub fn assign_layer(layers: &Vec<Layer>, path: &str) -> (r: Option<usize>)
    ensures
        match r {
            Some(at) => assigned(layer_texts(layers@), path@) == Some(at as int) && at
                < layers@.len(),
            None => assigned(layer_texts(layers@), path@) is None,
        },
{
    let ghost all = layer_texts(layers@);
    let mut i: usize = 0;
    while i < layers.len()
        invariant
            i <= layers.len(),
            all == layer_texts(layers@),
            forall|j: int| 0 <= j < i ==> !layer_accepts(all[j], path@),
        decreases layers.len() - i,
    {
        if layer_accepts_path(&layers[i], path) {
            proof {
                assert(first_layer(all, path@, i as int));
                let c = choose|at: int| first_layer(all, path@, at);
                assert(first_layer(all, path@, c));
                assert(c == i);
            }
            return Some(i);
        }
        i = i + 1;
    }
    proof {
        assert forall|at: int| !first_layer(all, path@, at) by {}
    }
    None
}

/// Finds the home layer of every blueprint.
pub fn assign_homes(declared: &Vec<Layer>, blueprints: &[Blueprint]) -> (r: Vec<Option<String>>)
    ensures
        opt_texts(r@) == homes_of(layer_texts(declared@), blueprints@),
{
    let mut homes: Vec<Option<String>> = Vec::new();
    let mut i: usize = 0;
    let ghost want = homes_of(layer_texts(declared@), blueprints@);
    assert(opt_texts(homes@) =~= want.take(0));
    while i < blueprints.len()
        invariant
            i <= blueprints.len(),
            want == homes_of(layer_texts(declared@), blueprints@),
            opt_texts(homes@) == want.take(i as int),
        decreases blueprints.len() - i,
    {
        let path = blueprints[i].source_path.as_str();
        let home: Option<String> = if declared.len() == 0 {
            paths::parent_dir_name(path)
        } else {
            match assign_layer(declared, path) {
                Some(at) => Some(declared[at].name.clone()),
                None => None,
            }
        };
        assert(opt_text(home) == want[i as int]);
        let ghost before = opt_texts(homes@);
        let ghost added = opt_text(home);
        homes.push(home);
        assert(opt_texts(homes@) =~= before.push(added));
        assert(before.push(added) =~= want.take(i + 1));
        i = i + 1;
    }
    assert(want.take(blueprints.len() as int) =~= want);
    homes
}

/// The module names of the blueprints that live in the layer `name`, among
/// the first `n` blueprints.
pub open spec fn layer_modules(
    bps: Seq<Blueprint>,
    homes: Seq<Option<Seq<char>>>,
    name: Seq<char>,
    n: nat,
) -> Seq<Seq<char>>
    decreases n,
{
    if n == 0 {
        Seq::empty()
    } else {
        let before = layer_modules(bps, homes, name, (n - 1) as nat);
        if homes[n - 1] == Some(name) {
            before.push(module_name(bps[n - 1].source_path@))
        } else {
            before
        }
    }
}

/// The dependency names of the blueprints that live in the layer `name`,
/// each once, in the order in which they first appear.
pub open spec fn layer_dependencies(
    bps: Seq<Blueprint>,
    homes: Seq<Option<Seq<char>>>,
    name: Seq<char>,
    n: nat,
) -> Seq<Seq<char>>
    decreases n,
{
    if n == 0 {
        Seq::empty()
    } else {
        let before = layer_dependencies(bps, homes, name, (n - 1) as nat);
        if homes[n - 1] == Some(name) {
            with_new(before, texts(bps[n - 1].dependencies@))
        } else {
            before
        }
    }
}

/// The line for one element under a module; a module element has none.
pub open spec fn key_item(e: Element) -> Seq<char> {
    match e {
        Element::Class(c) => "  - `"@ + c.name@ + "`\n"@,
        Element::Function(f) => "  - `"@ + f.name@ + "()`\n"@,
        Element::Module(_) => Seq::empty(),
    }
}

/// The lines for the first `n` elements.
pub open spec fn key_items(elements: Seq<Element>, n: nat) -> Seq<char>
    decreases n,
{
    if n == 0 {
        Seq::empty()
    } else {
        key_items(elements, (n - 1) as nat) + key_item(elements[n - 1])
    }
}

/// How many elements a module shows: at most three.
pub open spec fn shown_count(elements: Seq<Element>) -> nat {
    if elements.len() < 3 {
        elements.len()
    } else {
        3
    }
}

/// The lines for one module of a layer: its name and counts, then its
/// first elements.
pub open spec fn member_line(b: Blueprint) -> Seq<char> {
    "- `"@ + module_name(b.source_path@) + "` ("@ + decimal(class_count(b.elements@))
        + " structs, "@ + decimal(function_count(b.elements@)) + " functions)\n"@ + key_items(
        b.elements@,
        shown_count(b.elements@),
    )
}

/// The lines for the modules of the layer `name`.
pub open spec fn member_lines(
    bps: Seq<Blueprint>,
    homes: Seq<Option<Seq<char>>>,
    name: Seq<char>,
    n: nat,
) -> Seq<char>
    decreases n,
{
    if n == 0 {
        Seq::empty()
    } else {
        member_lines(bps, homes, name, (n - 1) as nat) + if homes[n - 1] == Some(name) {
            member_line(bps[n - 1])
        } else {
            Seq::<char>::empty()
        }
    }
}

/// The description of one layer; a layer without modules has none.
pub open spec fn layer_section(
    bps: Seq<Blueprint>,
    homes: Seq<Option<Seq<char>>>,
    layer: LayerText,
) -> Seq<char> {
    let deps = layer_dependencies(bps, homes, layer.name, bps.len());
    if layer_modules(bps, homes, layer.name, bps.len()).len() == 0 {
        Seq::empty()
    } else {
        "### Layer: "@ + layer.name + "\n\n**Pattern(s)**: "@ + joined(layer.patterns, ", "@)
            + "\n\n**Modules**:\n\n"@ + member_lines(bps, homes, layer.name, bps.len()) + (if deps.len()
            > 0 {
            "\n**Internal Dependencies**: "@ + joined(deps, ", "@) + "\n"@
        } else {
            Seq::<char>::empty()
        }) + "\n"@
    }
}

/// The descriptions of the first `n` layers.
pub open spec fn layer_sections(
    bps: Seq<Blueprint>,
    homes: Seq<Option<Seq<char>>>,
    layers: Seq<LayerText>,
    n: nat,
) -> Seq<char>
    decreases n,
{
    if n == 0 {
        Seq::empty()
    } else {
        layer_sections(bps, homes, layers, (n - 1) as nat) + layer_section(
            bps,
            homes,
            layers[n - 1],
        )
    }
}

/// The lines for the blueprints that live in no layer.
pub open spec fn unassigned_lines(bps: Seq<Blueprint>, homes: Seq<Option<Seq<char>>>, n: nat) -> Seq<
    char,
>
    decreases n,
{
    if n == 0 {
        Seq::empty()
    } else {
        unassigned_lines(bps, homes, (n - 1) as nat) + if homes[n - 1] is None {
            "- `"@ + module_name(bps[n - 1].source_path@) + "`\n"@
        } else {
            Seq::<char>::empty()
        }
    }
}

/// The section for the blueprints that live in no layer; absent where
/// every blueprint has a home.
pub open spec fn unassigned_section(bps: Seq<Blueprint>, homes: Seq<Option<Seq<char>>>) -> Seq<
    char,
> {
    let lines = unassigned_lines(bps, homes, bps.len());
    if lines.len() == 0 {
        Seq::empty()
    } else {
        "### Unassigned\n\nFiles not explicitly matched to a layer:\n\n"@ + lines + "\n"@
    }
}

/// The prose part of the document.
pub open spec fn descriptions_text(
    bps: Seq<Blueprint>,
    homes: Seq<Option<Seq<char>>>,
    layers: Seq<LayerText>,
) -> Seq<char> {
    "## Layered Architecture\n\nThis document shows the architecture organized into logical layers.\nEach layer represents a distinct responsibility area.\n\n"@
        + layer_sections(bps, homes, layers, layers.len()) + unassigned_section(bps, homes)
}

/// The node of one module inside the box of its layer.
pub open spec fn box_line(layer: Seq<char>, module: Seq<char>) -> Seq<char> {
    "        "@ + sanitized(layer, true, true) + "_"@ + sanitized(module, true, true) + "["@
        + module + "]\n"@
}

/// The nodes inside the box of the layer `name`.
pub open spec fn box_lines(
    bps: Seq<Blueprint>,
    homes: Seq<Option<Seq<char>>>,
    name: Seq<char>,
    n: nat,
) -> Seq<char>
    decreases n,
{
    if n == 0 {
        Seq::empty()
    } else {
        box_lines(bps, homes, name, (n - 1) as nat) + if homes[n - 1] == Some(name) {
            box_line(name, module_name(bps[n - 1].source_path@))
        } else {
            Seq::<char>::empty()
        }
    }
}

/// The box of one layer; a layer without modules has none.
pub open spec fn layer_box(
    bps: Seq<Blueprint>,
    homes: Seq<Option<Seq<char>>>,
    layer: LayerText,
) -> Seq<char> {
    if layer_modules(bps, homes, layer.name, bps.len()).len() == 0 {
        Seq::empty()
    } else {
        "    subgraph "@ + sanitized(layer.name, true, true) + " ["@ + layer.name + "]\n"@
            + box_lines(bps, homes, layer.name, bps.len()) + "    end\n"@
    }
}

/// The boxes of the first `n` layers.
pub open spec fn layer_boxes(
    bps: Seq<Blueprint>,
    homes: Seq<Option<Seq<char>>>,
    layers: Seq<LayerText>,
    n: nat,
) -> Seq<char>
    decreases n,
{
    if n == 0 {
        Seq::empty()
    } else {
        layer_boxes(bps, homes, layers, (n - 1) as nat) + layer_box(bps, homes, layers[n - 1])
    }
}

/// Whether some name of `deps` is among `modules`.
pub open spec fn meets(deps: Seq<Seq<char>>, modules: Seq<Seq<char>>) -> bool {
    exists|k: int| 0 <= k < deps.len() && modules.contains(#[trigger] deps[k])
}

/// Whether the layer `from` depends on the layer `to`: they are two layers,
/// and a module of `from` names a module of `to` among its dependencies.
pub open spec fn linked(
    bps: Seq<Blueprint>,
    homes: Seq<Option<Seq<char>>>,
    from: Seq<char>,
    to: Seq<char>,
) -> bool {
    from != to && meets(
        layer_dependencies(bps, homes, from, bps.len()),
        layer_modules(bps, homes, to, bps.len()),
    )
}

/// The names of the layers, in order.
pub open spec fn layer_names(layers: Seq<LayerText>) -> Seq<Seq<char>> {
    Seq::new(layers.len(), |i: int| layers[i].name)
}

/// The line that draws the dependency of one layer on another.
pub open spec fn link_line(from: Seq<char>, to: Seq<char>) -> Seq<char> {
    "    "@ + sanitized(from, true, true) + " --> "@ + sanitized(to, true, true) + "\n"@
}

/// The dependencies of the layer at `from` on the first `n` layers. A name
/// that several layers share counts where it stands first.
pub open spec fn links_from(
    bps: Seq<Blueprint>,
    homes: Seq<Option<Seq<char>>>,
    names: Seq<Seq<char>>,
    from: int,
    n: nat,
) -> Seq<char>
    decreases n,
{
    if n == 0 {
        Seq::empty()
    } else {
        links_from(bps, homes, names, from, (n - 1) as nat) + if position(names, names[n - 1])
            == Some(n - 1) && linked(bps, homes, names[from], names[n - 1]) {
            link_line(names[from], names[n - 1])
        } else {
            Seq::<char>::empty()
        }
    }
}

/// The dependencies between layers, for the first `n` layers as sources:
/// each pair of layers once, ordered by source and then by target.
pub open spec fn links(
    bps: Seq<Blueprint>,
    homes: Seq<Option<Seq<char>>>,
    names: Seq<Seq<char>>,
    n: nat,
) -> Seq<char>
    decreases n,
{
    if n == 0 {
        Seq::empty()
    } else {
        links(bps, homes, names, (n - 1) as nat) + if position(names, names[n - 1]) == Some(
            n - 1,
        ) {
            links_from(bps, homes, names, n - 1, names.len())
        } else {
            Seq::<char>::empty()
        }
    }
}

/// The diagram part of the document.
pub open spec fn layer_diagram_text(
    bps: Seq<Blueprint>,
    homes: Seq<Option<Seq<char>>>,
    layers: Seq<LayerText>,
) -> Seq<char> {
    "## Layer Diagram\n\n```mermaid\ngraph TD\n"@ + layer_boxes(bps, homes, layers, layers.len())
        + links(bps, homes, layer_names(layers), layers.len()) + "```\n"@
}

/// The whole document.
pub open spec fn layered_document(bps: Seq<Blueprint>, declared: Seq<LayerText>) -> Seq<char> {
    let homes = homes_of(declared, bps);
    let layers = shown_layers(declared, bps);
    layer_diagram_text(bps, homes, layers) + "\n\n"@ + descriptions_text(bps, homes, layers)
}

/// Tests whether a blueprint lives in the layer `name`.
fn lives_in(homes: &Vec<Option<String>>, i: usize, name: &str) -> (r: bool)
    requires
        i < homes.len(),
    ensures
        r == (opt_texts(homes@)[i as int] == Some(name@)),
{
    match &homes[i] {
        Some(home) => str_eq(home.as_str(), name),
        None => false,
    }
}

/// Collects the module names of the blueprints that live in the layer.
fn collect_modules(blueprints: &[Blueprint], homes: &Vec<Option<String>>, name: &str) -> (r: Vec<
    String,
>)
    requires
        homes.len() == blueprints.len(),
    ensures
        texts(r@) == layer_modules(blueprints@, opt_texts(homes@), name@, blueprints@.len()),
{
    let mut out: Vec<String> = Vec::new();
    let mut i: usize = 0;
    assert(texts(out@) =~= Seq::<Seq<char>>::empty());
    while i < blueprints.len()
        invariant
            i <= blueprints.len(),
            homes.len() == blueprints.len(),
            texts(out@) == layer_modules(blueprints@, opt_texts(homes@), name@, i as nat),
        decreases blueprints.len() - i,
    {
        if lives_in(homes, i, name) {
            let ghost before = texts(out@);
            let module = paths::extract_module_name(blueprints[i].source_path.as_str());
            out.push(module);
            assert(texts(out@) =~= before.push(module_name(blueprints@[i as int].source_path@)));
        }
        i = i + 1;
    }
    out
}

/// Collects the dependency names of the blueprints that live in the layer.
fn collect_dependencies(
    blueprints: &[Blueprint],
    homes: &Vec<Option<String>>,
    name: &str,
) -> (r: Vec<String>)
    requires
        homes.len() == blueprints.len(),
    ensures
        texts(r@) == layer_dependencies(blueprints@, opt_texts(homes@), name@, blueprints@.len()),
{
    let mut out: Vec<String> = Vec::new();
    let mut i: usize = 0;
    assert(texts(out@) =~= Seq::<Seq<char>>::empty());
    while i < blueprints.len()
        invariant
            i <= blueprints.len(),
            homes.len() == blueprints.len(),
            texts(out@) == layer_dependencies(blueprints@, opt_texts(homes@), name@, i as nat),
        decreases blueprints.len() - i,
    {
        if lives_in(homes, i, name) {
            add_new(&mut out, &blueprints[i].dependencies);
        }
        i = i + 1;
    }
    out
}

fn write_key_items(elements: &Vec<Element>) -> (r: String)
    ensures
        r@ == key_items(elements@, shown_count(elements@)),
{
    let shown: usize = if elements.len() < 3 {
        elements.len()
    } else {
        3
    };
    let mut out = String::new();
    let mut i: usize = 0;
    while i < shown
        invariant
            i <= shown <= elements.len(),
            shown == shown_count(elements@),
            out@ == key_items(elements@, i as nat),
        decreases shown - i,
    {
        let ghost before = out@;
        match &elements[i] {
            Element::Class(c) => {
                out.append("  - `");
                out.append(c.name.as_str());
                out.append("`\n");
            },
            Element::Function(f) => {
                out.append("  - `");
                out.append(f.name.as_str());
                out.append("()`\n");
            },
            Element::Module(_) => {},
        }
        assert(out@ =~= before + key_item(elements@[i as int]));
        i = i + 1;
    }
    out
}

fn write_member_line(b: &Blueprint) -> (r: String)
    ensures
        r@ == member_line(*b),
{
    let mut out = "- `".to_string();
    out.append(paths::extract_module_name(b.source_path.as_str()).as_str());
    out.append("` (");
    out.append(number_text(b.count_classes()).as_str());
    out.append(" structs, ");
    out.append(number_text(b.count_functions()).as_str());
    out.append(" functions)\n");
    out.append(write_key_items(&b.elements).as_str());
    out
}

fn write_member_lines(blueprints: &[Blueprint], homes: &Vec<Option<String>>, name: &str) -> (r:
    String)
    requires
        homes.len() == blueprints.len(),
    ensures
        r@ == member_lines(blueprints@, opt_texts(homes@), name@, blueprints@.len()),
{
    let mut out = String::new();
    let mut i: usize = 0;
    while i < blueprints.len()
        invariant
            i <= blueprints.len(),
            homes.len() == blueprints.len(),
            out@ == member_lines(blueprints@, opt_texts(homes@), name@, i as nat),
        decreases blueprints.len() - i,
    {
        let ghost before = out@;
        if lives_in(homes, i, name) {
            out.append(write_member_line(&blueprints[i]).as_str());
        } else {
            assert(out@ =~= before + Seq::<char>::empty());
        }
        i = i + 1;
    }
    out
}

fn write_box_lines(blueprints: &[Blueprint], homes: &Vec<Option<String>>, name: &str) -> (r: String)
    requires
        homes.len() == blueprints.len(),
    ensures
        r@ == box_lines(blueprints@, opt_texts(homes@), name@, blueprints@.len()),
{
    let layer_id = sanitize_id(name);
    let mut out = String::new();
    let mut i: usize = 0;
    while i < blueprints.len()
        invariant
            i <= blueprints.len(),
            homes.len() == blueprints.len(),
            layer_id@ == sanitized(name@, true, true),
            out@ == box_lines(blueprints@, opt_texts(homes@), name@, i as nat),
        decreases blueprints.len() - i,
    {
        let ghost before = out@;
        if lives_in(homes, i, name) {
            let module = paths::extract_module_name(blueprints[i].source_path.as_str());
            out.append("        ");
            out.append(layer_id.as_str());
            out.append("_");
            out.append(sanitize_id(module.as_str()).as_str());
            out.append("[");
            out.append(module.as_str());
            out.append("]\n");
            assert(out@ =~= before + box_line(name@, module@));
        } else {
            assert(out@ =~= before + Seq::<char>::empty());
        }
        i = i + 1;
    }
    out
}

fn write_unassigned_lines(blueprints: &[Blueprint], homes: &Vec<Option<String>>) -> (r: String)
    requires
        homes.len() == blueprints.len(),
    ensures
        r@ == unassigned_lines(blueprints@, opt_texts(homes@), blueprints@.len()),
{
    let mut out = String::new();
    let mut i: usize = 0;
    while i < blueprints.len()
        invariant
            i <= blueprints.len(),
            homes.len() == blueprints.len(),
            out@ == unassigned_lines(blueprints@, opt_texts(homes@), i as nat),
        decreases blueprints.len() - i,
    {
        let ghost before = out@;
        if homes[i].is_none() {
            let module = paths::extract_module_name(blueprints[i].source_path.as_str());
            out.append("- `");
            out.append(module.as_str());
            out.append("`\n");
            assert(out@ =~= before + ("- `"@ + module@ + "`\n"@));
        } else {
            assert(out@ =~= before + Seq::<char>::empty());
        }
        i = i + 1;
    }
    out
}

fn write_layer_section(blueprints: &[Blueprint], homes: &Vec<Option<String>>, layer: &Layer) -> (r:
    String)
    requires
        homes.len() == blueprints.len(),
    ensures
        r@ == layer_section(blueprints@, opt_texts(homes@), layer@),
{
    let name = layer.name.as_str();
    let modules = collect_modules(blueprints, homes, name);
    if modules.len() == 0 {
        return String::new();
    }
    let deps = collect_dependencies(blueprints, homes, name);
    let mut out = "### Layer: ".to_string();
    out.append(name);
    out.append("\n\n**Pattern(s)**: ");
    out.append(join(&layer.patterns, ", ").as_str());
    out.append("\n\n**Modules**:\n\n");
    out.append(write_member_lines(blueprints, homes, name).as_str());
    let ghost before = out@;
    if deps.len() > 0 {
        out.append("\n**Internal Dependencies**: ");
        out.append(join(&deps, ", ").as_str());
        out.append("\n");
        assert(out@ =~= before + ("\n**Internal Dependencies**: "@ + joined(texts(deps@), ", "@)
            + "\n"@));
    } else {
        assert(out@ =~= before + Seq::<char>::empty());
    }
    out.append("\n");
    out
}

fn write_layer_box(blueprints: &[Blueprint], homes: &Vec<Option<String>>, layer: &Layer) -> (r:
    String)
    requires
        homes.len() == blueprints.len(),
    ensures
        r@ == layer_box(blueprints@, opt_texts(homes@), layer@),
{
    let name = layer.name.as_str();
    let modules = collect_modules(blueprints, homes, name);
    if modules.len() == 0 {
        return String::new();
    }
    let mut out = "    subgraph ".to_string();
    out.append(sanitize_id(name).as_str());
    out.append(" [");
    out.append(name);
    out.append("]\n");
    out.append(write_box_lines(blueprints, homes, name).as_str());
    out.append("    end\n");
    out
}

/// Tests whether some name of `deps` is among `modules`.
fn any_shared(deps: &Vec<String>, modules: &Vec<String>) -> (r: bool)
    ensures
        r == meets(texts(deps@), texts(modules@)),
{
    let mut k: usize = 0;
    while k < deps.len()
        invariant
            k <= deps.len(),
            forall|j: int| 0 <= j < k ==> !texts(modules@).contains(#[trigger] texts(deps@)[j]),
        decreases deps.len() - k,
    {
        if find_name(modules, deps[k].as_str()).is_some() {
            assert(texts(modules@).contains(texts(deps@)[k as int]));
            return true;
        }
        k = k + 1;
    }
    false
}

/// Writes the lines for the dependencies of one layer on the others.
fn write_links_from(
    blueprints: &[Blueprint],
    homes: &Vec<Option<String>>,
    names: &Vec<String>,
    modules_of: &Vec<Vec<String>>,
    from: usize,
) -> (r: String)
    requires
        homes.len() == blueprints.len(),
        from < names.len(),
        modules_of.len() == names.len(),
        forall|j: int|
            0 <= j < names.len() ==> texts((#[trigger] modules_of@[j])@) == layer_modules(
                blueprints@,
                opt_texts(homes@),
                texts(names@)[j],
                blueprints@.len(),
            ),
    ensures
        r@ == links_from(
            blueprints@,
            opt_texts(homes@),
            texts(names@),
            from as int,
            names@.len(),
        ),
{
    let source = names[from].as_str();
    let deps = collect_dependencies(blueprints, homes, source);
    let source_id = sanitize_id(source);
    let mut out = String::new();
    let mut to: usize = 0;
    while to < names.len()
        invariant
            to <= names.len(),
            from < names.len(),
            homes.len() == blueprints.len(),
            modules_of.len() == names.len(),
            source@ == texts(names@)[from as int],
            source_id@ == sanitized(source@, true, true),
            texts(deps@) == layer_dependencies(
                blueprints@,
                opt_texts(homes@),
                source@,
                blueprints@.len(),
            ),
            forall|j: int|
                0 <= j < names.len() ==> texts((#[trigger] modules_of@[j])@) == layer_modules(
                    blueprints@,
                    opt_texts(homes@),
                    texts(names@)[j],
                    blueprints@.len(),
                ),
            out@ == links_from(
                blueprints@,
                opt_texts(homes@),
                texts(names@),
                from as int,
                to as nat,
            ),
        decreases names.len() - to,
    {
        let ghost before = out@;
        let target = names[to].as_str();
        assert(target@ == texts(names@)[to as int]);
        let stands_first = match find_name(names, target) {
            Some(at) => at == to,
            None => false,
        };
        assert(modules_of@[to as int] == modules_of[to as int]);
        if stands_first && !str_eq(source, target) && any_shared(&deps, &modules_of[to]) {
            out.append("    ");
            out.append(source_id.as_str());
            out.append(" --> ");
            out.append(sanitize_id(target).as_str());
            out.append("\n");
            assert(out@ =~= before + link_line(source@, target@));
        } else {
            assert(out@ =~= before + Seq::<char>::empty());
        }
        to = to + 1;
    }
    out
}

/// Writes the diagram: one box per layer that has modules, then the
/// dependencies between layers.
fn generate_layer_diagram(
    layers: &Vec<Layer>,
    homes: &Vec<Option<String>>,
    blueprints: &[Blueprint],
) -> (r: String)
    requires
        homes.len() == blueprints.len(),
    ensures
        r@ == layer_diagram_text(blueprints@, opt_texts(homes@), layer_texts(layers@)),
{
    let ghost shown = layer_texts(layers@);
    let ghost places = opt_texts(homes@);
    let mut out = "## Layer Diagram\n\n```mermaid\ngraph TD\n".to_string();
    let ghost head = out@;
    let mut names: Vec<String> = Vec::new();
    let mut modules_of: Vec<Vec<String>> = Vec::new();
    let mut i: usize = 0;
    assert(out@ =~= head + layer_boxes(blueprints@, places, shown, 0));
    assert(texts(names@) =~= layer_names(shown).take(0));
    while i < layers.len()
        invariant
            i <= layers.len(),
            homes.len() == blueprints.len(),
            shown == layer_texts(layers@),
            places == opt_texts(homes@),
            out@ == head + layer_boxes(blueprints@, places, shown, i as nat),
            names.len() == i,
            modules_of.len() == i,
            texts(names@) == layer_names(shown).take(i as int),
            forall|j: int|
                0 <= j < i ==> texts((#[trigger] modules_of@[j])@) == layer_modules(
                    blueprints@,
                    places,
                    layer_names(shown)[j],
                    blueprints@.len(),
                ),
        decreases layers.len() - i,
    {
        let ghost before = out@;
        assert(layers@[i as int]@ == shown[i as int]);
        out.append(write_layer_box(blueprints, homes, &layers[i]).as_str());
        assert(out@ =~= head + (layer_boxes(blueprints@, places, shown, i as nat) + layer_box(
            blueprints@,
            places,
            shown[i as int],
        )));
        let ghost known = texts(names@);
        names.push(layers[i].name.clone());
        assert(texts(names@) =~= known.push(shown[i as int].name));
        assert(known.push(shown[i as int].name) =~= layer_names(shown).take(i + 1));
        let modules = collect_modules(blueprints, homes, layers[i].name.as_str());
        modules_of.push(modules);
        i = i + 1;
    }
    assert(layer_names(shown).take(layers.len() as int) =~= layer_names(shown));
    let ghost middle = out@;
    let mut from: usize = 0;
    assert(out@ =~= middle + links(blueprints@, places, texts(names@), 0));
    while from < names.len()
        invariant
            from <= names.len(),
            homes.len() == blueprints.len(),
            places == opt_texts(homes@),
            modules_of.len() == names.len(),
            forall|j: int|
                0 <= j < names.len() ==> texts((#[trigger] modules_of@[j])@) == layer_modules(
                    blueprints@,
                    places,
                    texts(names@)[j],
                    blueprints@.len(),
                ),
            out@ == middle + links(blueprints@, places, texts(names@), from as nat),
        decreases names.len() - from,
    {
        let ghost before = out@;
        let stands_first = match find_name(&names, names[from].as_str()) {
            Some(at) => at == from,
            None => false,
        };
        if stands_first {
            let row = write_links_from(blueprints, homes, &names, &modules_of, from);
            out.append(row.as_str());
            assert(out@ =~= middle + (links(blueprints@, places, texts(names@), from as nat)
                + row@));
        } else {
            assert(out@ =~= middle + (links(blueprints@, places, texts(names@), from as nat)
                + Seq::<char>::empty()));
        }
        from = from + 1;
    }
    out.append("```\n");
    out
}

/// Writes the prose: the description of every layer that has modules, then
/// the blueprints that live in no layer.
fn write_descriptions(layers: &Vec<Layer>, homes: &Vec<Option<String>>, blueprints: &[Blueprint]) -> (r:
    String)
    requires
        homes.len() == blueprints.len(),
    ensures
        r@ == descriptions_text(blueprints@, opt_texts(homes@), layer_texts(layers@)),
{
    let ghost shown = layer_texts(layers@);
    let ghost places = opt_texts(homes@);
    let mut out =
        "## Layered Architecture\n\nThis document shows the architecture organized into logical layers.\nEach layer represents a distinct responsibility area.\n\n".to_string();
    let ghost head = out@;
    let mut i: usize = 0;
    assert(out@ =~= head + layer_sections(blueprints@, places, shown, 0));
    while i < layers.len()
        invariant
            i <= layers.len(),
            homes.len() == blueprints.len(),
            shown == layer_texts(layers@),
            places == opt_texts(homes@),
            out@ == head + layer_sections(blueprints@, places, shown, i as nat),
        decreases layers.len() - i,
    {
        assert(layers@[i as int]@ == shown[i as int]);
        out.append(write_layer_section(blueprints, homes, &layers[i]).as_str());
        assert(out@ =~= head + (layer_sections(blueprints@, places, shown, i as nat)
            + layer_section(blueprints@, places, shown[i as int])));
        i = i + 1;
    }
    let ghost middle = out@;
    let lines = write_unassigned_lines(blueprints, homes);
    if !lines.as_str().is_empty() {
        out.append("### Unassigned\n\nFiles not explicitly matched to a layer:\n\n");
        out.append(lines.as_str());
        out.append("\n");
        assert(out@ =~= middle + unassigned_section(blueprints@, places));
    } else {
        assert(out@ =~= middle + unassigned_section(blueprints@, places));
    }
    out
}

/// Writes the whole document for the layers to show.
fn write_document(layers: &Vec<Layer>, homes: &Vec<Option<String>>, blueprints: &[Blueprint]) -> (r:
    String)
    requires
        homes.len() == blueprints.len(),
    ensures
        r@ == layer_diagram_text(blueprints@, opt_texts(homes@), layer_texts(layers@)) + "\n\n"@
            + descriptions_text(blueprints@, opt_texts(homes@), layer_texts(layers@)),
{
    let mut out = generate_layer_diagram(layers, homes, blueprints);
    out.append("\n\n");
    out.append(write_descriptions(layers, homes, blueprints).as_str());
    out
}

impl Layout for LayeredLayout {
    /// One document, `architecture.md`.
    open spec fn documents(&self, blueprints: Seq<Blueprint>) -> Result<
        Seq<(Seq<char>, Seq<char>)>,
        LayoutFailure,
    > {
        Ok(seq![("architecture.md"@, layered_document(blueprints, layer_texts(self.layers@)))])
    }

    fn format(&self, blueprints: &[Blueprint]) -> (r: Result<Vec<(String, String)>, LayoutError>) {
        let homes = assign_homes(&self.layers, blueprints);
        assert(opt_texts(homes@).len() == blueprints@.len());
        let content = if self.layers.len() == 0 {
            let detected = auto_detect_layers(blueprints);
            write_document(&detected, &homes, blueprints)
        } else {
            write_document(&self.layers, &homes, blueprints)
        };
        let mut docs: Vec<(String, String)> = Vec::new();
        docs.push(("architecture.md".to_string(), content));
        assert(document_texts(docs@) =~= seq![
            ("architecture.md"@, layered_document(blueprints@, layer_texts(self.layers@))),
        ]);
        Ok(docs)
    }
}

/// The directory names of the first `n` blueprints are in strict order, and
/// they are the directories that directly hold one of those blueprints.
pub proof fn lemma_folder_names(bps: Seq<Blueprint>, n: nat)
    requires
        n <= bps.len(),
    ensures
        strictly_sorted(folder_names(bps, n)),
        forall|folder: Seq<char>|
            #![trigger folder_names(bps, n).contains(folder)]
            folder_names(bps, n).contains(folder) <==> exists|i: int|
                0 <= i < n && folder_of(#[trigger] bps[i].source_path@) == Some(folder),
    decreases n,
{
    if n > 0 {
        let before = folder_names(bps, (n - 1) as nat);
        lemma_folder_names(bps, (n - 1) as nat);
        let now = folder_names(bps, n);
        match folder_of(bps[n - 1].source_path@) {
            Some(last) => {
                lemma_inserted_sorted(before, last);
                assert forall|folder: Seq<char>| #![trigger now.contains(folder)]
                    now.contains(folder) <==> exists|i: int|
                        0 <= i < n && folder_of(#[trigger] bps[i].source_path@) == Some(
                            folder,
                        ) by {
                    if now.contains(folder) {
                        if folder == last {
                            assert(folder_of(bps[n - 1].source_path@) == Some(folder));
                        } else {
                            assert(before.contains(folder));
                        }
                    }
                    if exists|i: int|
                        0 <= i < n && folder_of(#[trigger] bps[i].source_path@) == Some(folder) {
                        let i = choose|i: int|
                            0 <= i < n && folder_of(#[trigger] bps[i].source_path@) == Some(
                                folder,
                            );
                        if i < n - 1 {
                            assert(before.contains(folder));
                        }
                    }
                }
            },
            None => {
                assert forall|folder: Seq<char>| #![trigger now.contains(folder)]
                    now.contains(folder) <==> exists|i: int|
                        0 <= i < n && folder_of(#[trigger] bps[i].source_path@) == Some(
                            folder,
                        ) by {
                    if exists|i: int|
                        0 <= i < n && folder_of(#[trigger] bps[i].source_path@) == Some(folder) {
                        let i = choose|i: int|
                            0 <= i < n && folder_of(#[trigger] bps[i].source_path@) == Some(
                                folder,
                            );
                        assert(i < n - 1);
                        assert(before.contains(folder));
                    }
                }
            },
        }
    }
}

/// Detection gives one layer per directory, in the order of strings, and
/// puts every blueprint into the layer of the directory that directly
/// holds it: blueprints of one directory share a layer, and a blueprint
/// whose path shows no directory is unassigned.
pub proof fn lemma_detection_groups_by_directory(bps: Seq<Blueprint>, i: int)
    requires
        0 <= i < bps.len(),
    ensures
        strictly_sorted(layer_names(detected_layers(bps))),
        homes_of(Seq::empty(), bps)[i] == folder_of(bps[i].source_path@),
        match folder_of(bps[i].source_path@) {
            Some(folder) => layer_names(detected_layers(bps)).contains(folder),
            None => true,
        },
{
    lemma_folder_names(bps, bps.len());
    let names = folder_names(bps, bps.len());
    assert(layer_names(detected_layers(bps)) =~= names);
    match folder_of(bps[i].source_path@) {
        Some(folder) => {
            assert(names.contains(folder));
        },
        None => {},
    }
}

} // verus!
