//! Layouts: each turns a list of blueprints into named documents.

pub mod arrange;
pub mod dependency_graph;
pub mod folder_markdown;
pub mod layered;
pub mod one_per_file;
pub mod readme_embedded;
pub mod trait_def;

pub use trait_def::{Layout, LayoutError};

use crate::config::{layer_texts, Config, ConfigError, Layer, LayerText};
use crate::toml_source::{
    entry_text, parse_table, parsed_toml, read_table, read_text, table_at, table_model, text_at,
    Entry, ValueModel,
};
use crate::ir::{opt_text, Blueprint};
use crate::paths;
use crate::paths::module_name;
use crate::text::{replace_all, replaced, str_eq, texts};
use dependency_graph::DependencyGraphLayout;
use folder_markdown::FolderMarkdownLayout;
use layered::LayeredLayout;
use one_per_file::OnePerFileLayout;
use readme_embedded::ReadmeEmbeddedLayout;
use trait_def::{document_texts, LayoutFailure};
use vstd::prelude::*;
use vstd::string::*;

verus! {

/// The text blocks of a custom layout. A block that is absent is skipped.
#[derive(Debug, Clone)]
pub struct TemplateConfig {
    pub header: Option<String>,
    pub module: Option<String>,
    pub class: Option<String>,
    pub function: Option<String>,
    pub footer: Option<String>,
}

/// A layout defined outside the program: the file it writes and the text
/// blocks it is made of.
#[derive(Debug, Clone)]
pub struct CustomLayoutConfig {
    pub name: String,
    pub output_file: String,
    pub template: TemplateConfig,
}

/// The layout that fills a user-defined template.
pub struct CustomLayout {
    config: CustomLayoutConfig,
}

/// The placeholder for a key: the key between double braces.
pub open spec fn placeholder(key: Seq<char>) -> Seq<char> {
    "{{"@ + key + "}}"@
}

/// The template after the first `n` variables were put in, one after the
/// other. A placeholder of no variable stays as it is.
pub open spec fn substituted(template: Seq<char>, vars: Seq<(Seq<char>, Seq<char>)>, n: nat) -> Seq<
    char,
>
    decreases n,
{
    if n == 0 {
        template
    } else {
        replaced(substituted(template, vars, (n - 1) as nat), placeholder(vars[n - 1].0), vars[n
            - 1].1)
    }
}

/// The variables as plain text.
pub open spec fn var_texts(vars: Seq<(&str, &str)>) -> Seq<(Seq<char>, Seq<char>)> {
    Seq::new(vars.len(), |i: int| (vars[i].0@, vars[i].1@))
}

/// The variables that a module block can name.
pub open spec fn module_vars(b: Blueprint) -> Seq<(Seq<char>, Seq<char>)> {
    seq![
        ("module.name"@, module_name(b.source_path@)),
        ("module.source_path"@, b.source_path@),
        ("module.language"@, b.language@),
    ]
}

/// A block followed by a line break; an absent block gives nothing.
pub open spec fn block_line(block: Option<Seq<char>>) -> Seq<char> {
    match block {
        Some(text) => text + "\n"@,
        None => Seq::empty(),
    }
}

/// The module block filled in for one blueprint.
pub open spec fn module_block(module: Option<Seq<char>>, b: Blueprint) -> Seq<char> {
    match module {
        Some(text) => substituted(text, module_vars(b), 3) + "\n"@,
        None => Seq::empty(),
    }
}

/// The module blocks of the first `n` blueprints.
pub open spec fn module_blocks(module: Option<Seq<char>>, bps: Seq<Blueprint>, n: nat) -> Seq<char>
    decreases n,
{
    if n == 0 {
        Seq::empty()
    } else {
        module_blocks(module, bps, (n - 1) as nat) + module_block(module, bps[n - 1])
    }
}

/// The custom document: header, one module block per blueprint, footer.
pub open spec fn custom_document(template: TemplateConfig, bps: Seq<Blueprint>) -> Seq<char> {
    block_line(opt_text(template.header)) + module_blocks(
        opt_text(template.module),
        bps,
        bps.len(),
    ) + block_line(opt_text(template.footer))
}

impl CustomLayout {
    /// A layout over the given definition.
    pub fn new(config: CustomLayoutConfig) -> (r: Self)
        ensures
            r.definition() == config,
    {
        CustomLayout { config }
    }

    /// The definition that the layout was made from.
    pub closed spec fn definition(&self) -> CustomLayoutConfig {
        self.config
    }

    /// Puts the variables into the template: every `{{key}}` becomes the
    /// value of `key`, variable after variable.
    pub fn substitute(template: &str, vars: &[(&str, &str)]) -> (r: String)
        ensures
            r@ == substituted(template@, var_texts(vars@), vars@.len()),
    {
        let mut result = template.to_string();
        let mut i: usize = 0;
        while i < vars.len()
            invariant
                i <= vars.len(),
                result@ == substituted(template@, var_texts(vars@), i as nat),
            decreases vars.len() - i,
        {
            let mut key = "{{".to_string();
            key.append(vars[i].0);
            key.append("}}");
            result = replace_all(result.as_str(), key.as_str(), vars[i].1);
            i = i + 1;
        }
        result
    }
}

impl Layout for CustomLayout {
    /// One document, named as the definition says.
    open spec fn documents(&self, blueprints: Seq<Blueprint>) -> Result<
        Seq<(Seq<char>, Seq<char>)>,
        LayoutFailure,
    > {
        Ok(
            seq![
                (
                    self.definition().output_file@,
                    custom_document(self.definition().template, blueprints),
                ),
            ],
        )
    }

    fn format(&self, blueprints: &[Blueprint]) -> (r: Result<Vec<(String, String)>, LayoutError>) {
        let template = &self.config.template;
        let mut content = String::new();
        match &template.header {
            Some(header) => {
                content.append(header.as_str());
                content.append("\n");
            },
            None => {},
        }
        assert(content@ =~= block_line(opt_text(template.header)));
        let ghost head = content@;
        let ghost module = opt_text(template.module);
        let mut i: usize = 0;
        assert(content@ =~= head + module_blocks(module, blueprints@, 0));
        while i < blueprints.len()
            invariant
                i <= blueprints.len(),
                module == opt_text(template.module),
                content@ == head + module_blocks(module, blueprints@, i as nat),
            decreases blueprints.len() - i,
        {
            let ghost before = content@;
            let b = &blueprints[i];
            match &template.module {
                Some(text) => {
                    let name = paths::extract_module_name(b.source_path.as_str());
                    let vars: [(&str, &str); 3] = [
                        ("module.name", name.as_str()),
                        ("module.source_path", b.source_path.as_str()),
                        ("module.language", b.language.as_str()),
                    ];
                    assert(var_texts(vars@) =~= module_vars(*b));
                    let filled = Self::substitute(text.as_str(), vars.as_slice());
                    content.append(filled.as_str());
                    content.append("\n");
                    assert(content@ =~= before + module_block(module, *b));
                },
                None => {
                    assert(content@ =~= before + module_block(module, *b));
                },
            }
            assert(content@ =~= head + (module_blocks(module, blueprints@, i as nat)
                + module_block(module, blueprints@[i as int])));
            i = i + 1;
        }
        let ghost middle = content@;
        match &template.footer {
            Some(footer) => {
                content.append(footer.as_str());
                content.append("\n");
            },
            None => {},
        }
        assert(content@ =~= middle + block_line(opt_text(template.footer)));
        let mut docs: Vec<(String, String)> = Vec::new();
        docs.push((self.config.output_file.clone(), content));
        assert(document_texts(docs@) =~= seq![
            (
                self.definition().output_file@,
                custom_document(self.definition().template, blueprints@),
            ),
        ]);
        Ok(docs)
    }
}

/// The layouts that can be chosen by name.
pub enum LayoutKind {
    DependencyGraph(DependencyGraphLayout),
    FolderMarkdown(FolderMarkdownLayout),
    OnePerFile(OnePerFileLayout),
    Layered(LayeredLayout),
    ReadmeEmbedded(ReadmeEmbeddedLayout),
    Custom(CustomLayout),
}

impl Layout for LayoutKind {
    /// The documents of the layout that was chosen.
    open spec fn documents(&self, blueprints: Seq<Blueprint>) -> Result<
        Seq<(Seq<char>, Seq<char>)>,
        LayoutFailure,
    > {
        match self {
            LayoutKind::DependencyGraph(l) => l.documents(blueprints),
            LayoutKind::FolderMarkdown(l) => l.documents(blueprints),
            LayoutKind::OnePerFile(l) => l.documents(blueprints),
            LayoutKind::Layered(l) => l.documents(blueprints),
            LayoutKind::ReadmeEmbedded(l) => l.documents(blueprints),
            LayoutKind::Custom(l) => l.documents(blueprints),
        }
    }

    fn format(&self, blueprints: &[Blueprint]) -> (r: Result<Vec<(String, String)>, LayoutError>) {
        match self {
            LayoutKind::DependencyGraph(l) => l.format(blueprints),
            LayoutKind::FolderMarkdown(l) => l.format(blueprints),
            LayoutKind::OnePerFile(l) => l.format(blueprints),
            LayoutKind::Layered(l) => l.format(blueprints),
            LayoutKind::ReadmeEmbedded(l) => l.format(blueprints),
            LayoutKind::Custom(l) => l.format(blueprints),
        }
    }
}

/// A choice of layout as plain text.
pub enum LayoutChoice {
    DependencyGraph,
    FolderMarkdown(Seq<char>),
    OnePerFile,
    Layered(Seq<LayerText>),
    ReadmeEmbedded,
}

/// The layout that a name stands for, if any. The folder layout writes its
/// index to `architecture.md`; the layered layout takes the configured layers.
pub open spec fn choice_for(name: Seq<char>, layers: Seq<LayerText>) -> Option<LayoutChoice> {
    if name == "dependency-graph"@ {
        Some(LayoutChoice::DependencyGraph)
    } else if name == "folder_markdown"@ || name == "markdown"@ {
        Some(LayoutChoice::FolderMarkdown("architecture.md"@))
    } else if name == "one_per_file"@ {
        Some(LayoutChoice::OnePerFile)
    } else if name == "layered"@ {
        Some(LayoutChoice::Layered(layers))
    } else if name == "readme-embedded"@ {
        Some(LayoutChoice::ReadmeEmbedded)
    } else {
        None
    }
}

/// Whether a layout is the given choice.
pub open spec fn is_choice(kind: LayoutKind, choice: LayoutChoice) -> bool {
    match kind {
        LayoutKind::DependencyGraph(_) => choice == LayoutChoice::DependencyGraph,
        LayoutKind::FolderMarkdown(l) => choice == LayoutChoice::FolderMarkdown(l.index_name()),
        LayoutKind::OnePerFile(_) => choice == LayoutChoice::OnePerFile,
        LayoutKind::Layered(l) => choice == LayoutChoice::Layered(layer_texts(l.layers@)),
        LayoutKind::ReadmeEmbedded(_) => choice == LayoutChoice::ReadmeEmbedded,
        LayoutKind::Custom(_) => false,
    }
}

/// Copies a list of strings.
fn copy_strings(items: &Vec<String>) -> (r: Vec<String>)
    ensures
        texts(r@) == texts(items@),
{
    let mut out: Vec<String> = Vec::new();
    let mut i: usize = 0;
    while i < items.len()
        invariant
            i <= items.len(),
            out@.len() == i,
            forall|k: int| 0 <= k < i ==> (#[trigger] out@[k])@ == items@[k]@,
        decreases items.len() - i,
    {
        out.push(items[i].clone());
        i = i + 1;
    }
    assert(texts(out@) =~= texts(items@));
    out
}

/// Copies a list of layers.
fn copy_layers(layers: &Vec<Layer>) -> (r: Vec<Layer>)
    ensures
        layer_texts(r@) == layer_texts(layers@),
{
    let mut out: Vec<Layer> = Vec::new();
    let mut i: usize = 0;
    while i < layers.len()
        invariant
            i <= layers.len(),
            out@.len() == i,
            forall|k: int| 0 <= k < i ==> (#[trigger] out@[k])@ == layers@[k]@,
        decreases layers.len() - i,
    {
        let layer = Layer {
            name: layers[i].name.clone(),
            patterns: copy_strings(&layers[i].patterns),
        };
        out.push(layer);
        i = i + 1;
    }
    assert(layer_texts(out@) =~= layer_texts(layers@));
    out
}

/// Chooses the layout that the configuration names. An unknown name is an
/// error that carries the name.
pub fn get_layout(config: &Config) -> (r: Result<LayoutKind, LayoutError>)
    ensures
        match r {
            Ok(kind) => match choice_for(config.layout@, layer_texts(config.layers@)) {
                Some(choice) => is_choice(kind, choice),
                None => false,
            },
            Err(e) => choice_for(config.layout@, layer_texts(config.layers@)) is None && e@
                == LayoutFailure::UnknownLayout(config.layout@),
        },
{
    let name = config.layout.as_str();
    if str_eq(name, "dependency-graph") {
        Ok(LayoutKind::DependencyGraph(DependencyGraphLayout))
    } else if str_eq(name, "folder_markdown") || str_eq(name, "markdown") {
        Ok(LayoutKind::FolderMarkdown(FolderMarkdownLayout::new("architecture.md")))
    } else if str_eq(name, "one_per_file") {
        Ok(LayoutKind::OnePerFile(OnePerFileLayout::new()))
    } else if str_eq(name, "layered") {
        Ok(LayoutKind::Layered(LayeredLayout::new(copy_layers(&config.layers))))
    } else if str_eq(name, "readme-embedded") {
        Ok(LayoutKind::ReadmeEmbedded(ReadmeEmbeddedLayout))
    } else {
        Err(LayoutError::UnknownLayout(config.layout.clone()))
    }
}

/// The text blocks of a custom layout as plain text.
pub struct TemplateText {
    pub header: Option<Seq<char>>,
    pub module: Option<Seq<char>>,
    pub class: Option<Seq<char>>,
    pub function: Option<Seq<char>>,
    pub footer: Option<Seq<char>>,
}

/// The definition of a custom layout as plain text.
pub struct CustomLayoutText {
    pub name: Seq<char>,
    pub output_file: Seq<char>,
    pub template: TemplateText,
}

impl View for TemplateConfig {
    type V = TemplateText;

    open spec fn view(&self) -> TemplateText {
        TemplateText {
            header: opt_text(self.header),
            module: opt_text(self.module),
            class: opt_text(self.class),
            function: opt_text(self.function),
            footer: opt_text(self.footer),
        }
    }
}

impl View for CustomLayoutConfig {
    type V = CustomLayoutText;

    open spec fn view(&self) -> CustomLayoutText {
        CustomLayoutText {
            name: self.name@,
            output_file: self.output_file@,
            template: self.template@,
        }
    }
}

/// What a layout definition file says of the text blocks.
#[derive(Debug, Clone, PartialEq, Eq)]
pub struct TemplateDocument {
    pub header: Entry<String>,
    pub module: Entry<String>,
    pub class: Entry<String>,
    pub function: Entry<String>,
    pub footer: Entry<String>,
}

/// What a layout definition file says.
#[derive(Debug, Clone, PartialEq, Eq)]
pub struct CustomLayoutDocument {
    pub name: Entry<String>,
    pub output_file: Entry<String>,
    pub template: Entry<TemplateDocument>,
}

/// A text that must be there.
pub open spec fn required(entry: Entry<String>) -> Result<Seq<char>, ConfigError> {
    match entry {
        Entry::Found(text) => Ok(text@),
        Entry::Absent => Err(ConfigError::MissingField),
        Entry::Other => Err(ConfigError::WrongType),
    }
}

/// A text that may be left out.
pub open spec fn optional(entry: Entry<String>) -> Result<Option<Seq<char>>, ConfigError> {
    match entry {
        Entry::Found(text) => Ok(Some(text@)),
        Entry::Absent => Ok(None),
        Entry::Other => Err(ConfigError::WrongType),
    }
}

/// The text blocks that a document gives: every block may be left out, and
/// none may hold anything but text. Of several faults the first counts, in
/// the order header, module, class, function, footer.
pub open spec fn template_of(doc: TemplateDocument) -> Result<TemplateText, ConfigError> {
    match optional(doc.header) {
        Err(e) => Err(e),
        Ok(header) => match optional(doc.module) {
            Err(e) => Err(e),
            Ok(module) => match optional(doc.class) {
                Err(e) => Err(e),
                Ok(class) => match optional(doc.function) {
                    Err(e) => Err(e),
                    Ok(function) => match optional(doc.footer) {
                        Err(e) => Err(e),
                        Ok(footer) => Ok(TemplateText { header, module, class, function, footer }),
                    },
                },
            },
        },
    }
}

/// The definition that a document gives: the name, the output file and the
/// template must be there. Of several faults the first counts, in the
/// order name, output file, template.
pub open spec fn definition_of(doc: CustomLayoutDocument) -> Result<CustomLayoutText, ConfigError> {
    match required(doc.name) {
        Err(e) => Err(e),
        Ok(name) => match required(doc.output_file) {
            Err(e) => Err(e),
            Ok(output_file) => match doc.template {
                Entry::Absent => Err(ConfigError::MissingField),
                Entry::Other => Err(ConfigError::WrongType),
                Entry::Found(t) => match template_of(t) {
                    Err(e) => Err(e),
                    Ok(template) => Ok(CustomLayoutText { name, output_file, template }),
                },
            },
        },
    }
}

fn take_required(entry: &Entry<String>) -> (r: Result<String, ConfigError>)
    ensures
        match r {
            Ok(text) => required(*entry) == Ok::<Seq<char>, ConfigError>(text@),
            Err(e) => required(*entry) == Err::<Seq<char>, ConfigError>(e),
        },
{
    match entry {
        Entry::Found(text) => Ok(text.clone()),
        Entry::Absent => Err(ConfigError::MissingField),
        Entry::Other => Err(ConfigError::WrongType),
    }
}

fn take_optional(entry: &Entry<String>) -> (r: Result<Option<String>, ConfigError>)
    ensures
        match r {
            Ok(text) => optional(*entry) == Ok::<Option<Seq<char>>, ConfigError>(opt_text(text)),
            Err(e) => optional(*entry) == Err::<Option<Seq<char>>, ConfigError>(e),
        },
{
    match entry {
        Entry::Found(text) => Ok(Some(text.clone())),
        Entry::Absent => Ok(None),
        Entry::Other => Err(ConfigError::WrongType),
    }
}

impl TemplateConfig {
    /// The text blocks that a document gives.
    pub fn from_document(doc: &TemplateDocument) -> (r: Result<TemplateConfig, ConfigError>)
        ensures
            match r {
                Ok(t) => template_of(*doc) == Ok::<TemplateText, ConfigError>(t@),
                Err(e) => template_of(*doc) == Err::<TemplateText, ConfigError>(e),
            },
    {
        let header = match take_optional(&doc.header) {
            Ok(text) => text,
            Err(e) => {
                return Err(e);
            },
        };
        let module = match take_optional(&doc.module) {
            Ok(text) => text,
            Err(e) => {
                return Err(e);
            },
        };
        let class = match take_optional(&doc.class) {
            Ok(text) => text,
            Err(e) => {
                return Err(e);
            },
        };
        let function = match take_optional(&doc.function) {
            Ok(text) => text,
            Err(e) => {
                return Err(e);
            },
        };
        let footer = match take_optional(&doc.footer) {
            Ok(text) => text,
            Err(e) => {
                return Err(e);
            },
        };
        Ok(TemplateConfig { header, module, class, function, footer })
    }
}

impl CustomLayoutConfig {
    /// The definition that a document gives.
    pub fn from_document(doc: &CustomLayoutDocument) -> (r: Result<CustomLayoutConfig, ConfigError>)
        ensures
            match r {
                Ok(c) => definition_of(*doc) == Ok::<CustomLayoutText, ConfigError>(c@),
                Err(e) => definition_of(*doc) == Err::<CustomLayoutText, ConfigError>(e),
            },
    {
        let name = match take_required(&doc.name) {
            Ok(text) => text,
            Err(e) => {
                return Err(e);
            },
        };
        let output_file = match take_required(&doc.output_file) {
            Ok(text) => text,
            Err(e) => {
                return Err(e);
            },
        };
        match &doc.template {
            Entry::Absent => Err(ConfigError::MissingField),
            Entry::Other => Err(ConfigError::WrongType),
            Entry::Found(t) => match TemplateConfig::from_document(t) {
                Ok(template) => Ok(CustomLayoutConfig { name, output_file, template }),
                Err(e) => Err(e),
            },
        }
    }
}

/// What a layout definition file says of the text blocks, as plain values.
pub struct TemplateDocumentModel {
    pub header: Entry<Seq<char>>,
    pub module: Entry<Seq<char>>,
    pub class: Entry<Seq<char>>,
    pub function: Entry<Seq<char>>,
    pub footer: Entry<Seq<char>>,
}

/// What a layout definition file says, as plain values.
pub struct CustomLayoutDocumentModel {
    pub name: Entry<Seq<char>>,
    pub output_file: Entry<Seq<char>>,
    pub template: Entry<TemplateDocumentModel>,
}

impl View for TemplateDocument {
    type V = TemplateDocumentModel;

    open spec fn view(&self) -> TemplateDocumentModel {
        TemplateDocumentModel {
            header: entry_text(self.header),
            module: entry_text(self.module),
            class: entry_text(self.class),
            function: entry_text(self.function),
            footer: entry_text(self.footer),
        }
    }
}

impl View for CustomLayoutDocument {
    type V = CustomLayoutDocumentModel;

    open spec fn view(&self) -> CustomLayoutDocumentModel {
        CustomLayoutDocumentModel {
            name: entry_text(self.name),
            output_file: entry_text(self.output_file),
            template: match self.template {
                Entry::Found(t) => Entry::Found(t@),
                Entry::Absent => Entry::Absent,
                Entry::Other => Entry::Other,
            },
        }
    }
}

/// What a table says of the text blocks: each block under the key of its
/// name.
pub open spec fn template_document(table: Map<Seq<char>, ValueModel>) -> TemplateDocumentModel {
    TemplateDocumentModel {
        header: text_at(table, "header"@),
        module: text_at(table, "module"@),
        class: text_at(table, "class"@),
        function: text_at(table, "function"@),
        footer: text_at(table, "footer"@),
    }
}

/// What a table says of a custom layout: the name, the output file, and
/// the text blocks in the table under `template`.
pub open spec fn layout_document(table: Map<Seq<char>, ValueModel>) -> CustomLayoutDocumentModel {
    CustomLayoutDocumentModel {
        name: text_at(table, "name"@),
        output_file: text_at(table, "output_file"@),
        template: match table_at(table, "template"@) {
            Entry::Found(inner) => Entry::Found(template_document(inner)),
            Entry::Absent => Entry::Absent,
            Entry::Other => Entry::Other,
        },
    }
}

/// Reads a custom layout off the text of its definition file. A text that
/// is not TOML is an error, and so is a definition without a name, an
/// output file or a template, or with a value of the wrong type.
pub fn load_custom_layout(content: &str) -> (r: Result<CustomLayout, ConfigError>)
    ensures
        match parsed_toml(content@) {
            Some(table) => exists|doc: CustomLayoutDocument|
                doc@ == layout_document(table) && match r {
                    Ok(layout) => definition_of(doc) == Ok::<CustomLayoutText, ConfigError>(
                        layout.definition()@,
                    ),
                    Err(e) => definition_of(doc) == Err::<CustomLayoutText, ConfigError>(e),
                },
            None => r is Err && r->Err_0 == ConfigError::Syntax,
        },
{
    let table = match parse_table(content) {
        Ok(table) => table,
        Err(_) => {
            return Err(ConfigError::Syntax);
        },
    };
    let template = match read_table(&table, "template") {
        Entry::Found(inner) => Entry::Found(
            TemplateDocument {
                header: read_text(&inner, "header"),
                module: read_text(&inner, "module"),
                class: read_text(&inner, "class"),
                function: read_text(&inner, "function"),
                footer: read_text(&inner, "footer"),
            },
        ),
        Entry::Absent => Entry::Absent,
        Entry::Other => Entry::Other,
    };
    let doc = CustomLayoutDocument {
        name: read_text(&table, "name"),
        output_file: read_text(&table, "output_file"),
        template,
    };
    assert(doc@ == layout_document(table_model(table)));
    match CustomLayoutConfig::from_document(&doc) {
        Ok(config) => {
            let layout = CustomLayout::new(config);
            assert(definition_of(doc) == Ok::<CustomLayoutText, ConfigError>(
                layout.definition()@,
            ));
            Ok(layout)
        },
        Err(e) => {
            assert(definition_of(doc) == Err::<CustomLayoutText, ConfigError>(e));
            Err(e)
        },
    }
}

} // verus!
