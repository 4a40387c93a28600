//! Run configuration: where the sources are, what to produce, and how.

use crate::text::{join, joined, lemma_take_step, texts};
use crate::toml_source::{
    entry_list, entry_text, list_at, option_tables, parse_table, parsed_toml, read_list,
    read_tables, read_text, table_model, tables_at, text_at, Entry, ValueModel,
};
use toml::Table;
use vstd::prelude::*;
use vstd::string::*;

verus! {

/// A named group of path patterns. When files are partitioned, the first
/// layer with a matching pattern wins.
#[derive(Debug, Clone, PartialEq)]
pub struct Layer {
    pub name: String,
    pub patterns: Vec<String>,
}

/// A layer as plain text.
pub struct LayerText {
    pub name: Seq<char>,
    pub patterns: Seq<Seq<char>>,
}

impl View for Layer {
    type V = LayerText;

    open spec fn view(&self) -> LayerText {
        LayerText { name: self.name@, patterns: texts(self.patterns@) }
    }
}

/// The layers of a list as plain text.
pub open spec fn layer_texts(layers: Seq<Layer>) -> Seq<LayerText> {
    Seq::new(layers.len(), |i: int| layers[i]@)
}

/// The settings of one generation run.
#[derive(Debug, Clone, PartialEq)]
pub struct Config {
    /// Directories that are scanned for source files.
    pub source_dirs: Vec<String>,
    /// The file that the main document is written to.
    pub output_file: String,
    /// The name of the layout.
    pub layout: String,
    /// Patterns of paths that the scan leaves out.
    pub exclude_patterns: Vec<String>,
    /// Layers for the layered layout; empty means that they are detected.
    pub layers: Vec<Layer>,
}

/// The source directories scanned when none are configured.
pub open spec fn default_source_dirs() -> Seq<Seq<char>> {
    seq!["src"@]
}

/// The output file used when none is configured.
pub open spec fn default_output_file() -> Seq<char> {
    "docs/architecture.md"@
}

/// The layout used when none is configured.
pub open spec fn default_layout() -> Seq<char> {
    "dependency-graph"@
}

/// The exclusions used when none are configured.
pub open spec fn default_exclude_patterns() -> Seq<Seq<char>> {
    seq!["**/target/**"@, "**/node_modules/**"@, "**/.git/**"@, "**/tests/**"@]
}

/// The layer name used where a configured layer has none.
pub open spec fn default_layer_name() -> Seq<char> {
    "Unknown"@
}

/// Each text between double quotes.
pub open spec fn quoted(items: Seq<Seq<char>>) -> Seq<Seq<char>> {
    Seq::new(items.len(), |i: int| "\""@ + items[i] + "\""@)
}

/// The items as the inside of a TOML array of strings.
pub open spec fn toml_list(items: Seq<Seq<char>>) -> Seq<char> {
    joined(quoted(items), ", "@)
}

/// The fixed comment lines that open a configuration file.
pub open spec fn toml_banner() -> Seq<char> {
    "# CodeTwin Configuration\n# Code \u{2192} Diagram/Documentation Generator\n# https://github.com/carlosferreyra/codetwin\n\n"@
}

/// The fixed comment lines that show how layers are configured.
pub open spec fn toml_layer_help() -> Seq<char> {
    "\n# Optional: Define custom layers for layered layout\n# If omitted, layers are auto-detected from directory structure\n# Example configuration (uncomment and customize):\n#\n# [[layers]]\n# name = \"Core\"\n# patterns = [\"src/lib.rs\", \"src/core/ir.rs\"]\n#\n# [[layers]]\n# name = \"Engine\"\n# patterns = [\"src/app/engine.rs\", \"src/cli/mod.rs\"]\n#\n# [[layers]]\n# name = \"Drivers\"\n# patterns = [\"src/drivers/**\"]\n"@
}

/// The settings part of a configuration file.
pub open spec fn toml_settings(c: Config) -> Seq<char> {
    "# Source directories to scan\nsource_dirs = ["@ + toml_list(texts(c.source_dirs@))
        + "]\n\n# Output file for generated documentation\n# The parent directory is used as the output directory.\noutput_file = \""@
        + c.output_file@
        + "\"\n\n# Layout: dependency-graph, folder_markdown, one_per_file, layered, readme-embedded\nlayout = \""@
        + c.layout@ + "\"\n\n# Patterns to exclude from scanning\nexclude_patterns = ["@
        + toml_list(texts(c.exclude_patterns@)) + "]\n"@
}

/// One configured layer as a TOML table.
pub open spec fn toml_layer(layer: Layer) -> Seq<char> {
    "\n[[layers]]\nname = \""@ + layer.name@ + "\"\npatterns = ["@ + toml_list(
        texts(layer.patterns@),
    ) + "]\n"@
}

/// The configured layers as TOML tables, in order.
pub open spec fn toml_layers(layers: Seq<Layer>) -> Seq<char>
    decreases layers.len(),
{
    if layers.len() == 0 {
        Seq::empty()
    } else {
        toml_layers(layers.drop_last()) + toml_layer(layers.last())
    }
}

/// The whole configuration file for the settings `c`.
pub open spec fn toml_text(c: Config) -> Seq<char> {
    toml_banner() + toml_settings(c) + toml_layer_help() + if c.layers@.len() == 0 {
        Seq::<char>::empty()
    } else {
        "\n# Layer configuration (for layered layout)\n"@ + toml_layers(c.layers@)
    }
}

/// Writes the items as the inside of a TOML array of strings.
pub fn write_toml_list(items: &Vec<String>) -> (r: String)
    ensures
        r@ == toml_list(texts(items@)),
{
    let mut parts: Vec<String> = Vec::new();
    let mut i: usize = 0;
    while i < items.len()
        invariant
            i <= items.len(),
            parts@.len() == i,
            texts(parts@) == quoted(texts(items@)).take(i as int),
        decreases items.len() - i,
    {
        let mut q = String::new();
        q.append("\"");
        q.append(items[i].as_str());
        q.append("\"");
        parts.push(q);
        assert(texts(parts@) =~= quoted(texts(items@)).take(i + 1));
        i = i + 1;
    }
    assert(quoted(texts(items@)).take(items.len() as int) =~= quoted(texts(items@)));
    join(&parts, ", ")
}

fn strings_of_one(a: &str) -> (r: Vec<String>)
    ensures
        texts(r@) == seq![a@],
{
    let mut v: Vec<String> = Vec::new();
    v.push(a.to_string());
    assert(texts(v@) =~= seq![a@]);
    v
}

fn default_excludes() -> (r: Vec<String>)
    ensures
        texts(r@) == default_exclude_patterns(),
{
    let mut v: Vec<String> = Vec::new();
    v.push("**/target/**".to_string());
    v.push("**/node_modules/**".to_string());
    v.push("**/.git/**".to_string());
    v.push("**/tests/**".to_string());
    assert(texts(v@) =~= default_exclude_patterns());
    v
}

/// Why a configuration could not be read or written.
#[derive(Debug, Clone, Copy, PartialEq, Eq, Structural)]
pub enum ConfigError {
    /// The text is not TOML.
    Syntax,
    /// A setting that must be there is missing.
    MissingField,
    /// A setting holds a value of the wrong type.
    WrongType,
    /// The configuration file exists and is not to be overwritten.
    AlreadyInitialized,
}

/// The text that describes a failure.
pub open spec fn config_error_text(e: ConfigError) -> Seq<char> {
    match e {
        ConfigError::Syntax => "Failed to parse configuration"@,
        ConfigError::MissingField => "Missing field in configuration"@,
        ConfigError::WrongType => "Invalid type in configuration"@,
        ConfigError::AlreadyInitialized => "codetwin.toml already initialized. Use --force to overwrite."@,
    }
}

impl ConfigError {
    /// A sentence that describes the failure.
    pub fn message(&self) -> (r: String)
        ensures
            r@ == config_error_text(*self),
    {
        match self {
            ConfigError::Syntax => "Failed to parse configuration".to_string(),
            ConfigError::MissingField => "Missing field in configuration".to_string(),
            ConfigError::WrongType => "Invalid type in configuration".to_string(),
            ConfigError::AlreadyInitialized => "codetwin.toml already initialized. Use --force to overwrite.".to_string(),
        }
    }
}

/// The settings as plain text.
pub struct ConfigText {
    pub source_dirs: Seq<Seq<char>>,
    pub output_file: Seq<char>,
    pub layout: Seq<char>,
    pub exclude_patterns: Seq<Seq<char>>,
    pub layers: Seq<LayerText>,
}

impl View for Config {
    type V = ConfigText;

    open spec fn view(&self) -> ConfigText {
        ConfigText {
            source_dirs: texts(self.source_dirs@),
            output_file: self.output_file@,
            layout: self.layout@,
            exclude_patterns: texts(self.exclude_patterns@),
            layers: layer_texts(self.layers@),
        }
    }
}

/// The settings used when nothing is configured.
pub open spec fn default_settings() -> ConfigText {
    ConfigText {
        source_dirs: default_source_dirs(),
        output_file: default_output_file(),
        layout: default_layout(),
        exclude_patterns: default_exclude_patterns(),
        layers: Seq::empty(),
    }
}

/// What a configuration file says of one layer.
#[derive(Debug, Clone, PartialEq, Eq)]
pub struct LayerDocument {
    pub name: Entry<String>,
    pub patterns: Entry<Vec<Option<String>>>,
}

/// What a configuration file says of the settings. An item of a list is
/// `None` where the file holds a value of another type in its place.
#[derive(Debug, Clone, PartialEq, Eq)]
pub struct ConfigDocument {
    pub source_dirs: Entry<Vec<Option<String>>>,
    pub output_file: Entry<String>,
    pub layout: Entry<String>,
    pub exclude_patterns: Entry<Vec<Option<String>>>,
    pub layers: Entry<Vec<Option<LayerDocument>>>,
}

/// The texts among the first `n` items; what is no text is left out.
pub open spec fn kept_texts(items: Seq<Option<String>>, n: nat) -> Seq<Seq<char>>
    decreases n,
{
    if n == 0 {
        Seq::empty()
    } else {
        let before = kept_texts(items, (n - 1) as nat);
        match items[n - 1] {
            Some(text) => before.push(text@),
            None => before,
        }
    }
}

/// The texts of a list, or the default where the document holds no list.
pub open spec fn list_or(entry: Entry<Vec<Option<String>>>, default: Seq<Seq<char>>) -> Seq<
    Seq<char>,
> {
    match entry {
        Entry::Found(items) => kept_texts(items@, items@.len()),
        _ => default,
    }
}

/// The text, or the default where the document holds no text.
pub open spec fn text_or(entry: Entry<String>, default: Seq<char>) -> Seq<char> {
    match entry {
        Entry::Found(text) => text@,
        _ => default,
    }
}

/// The layer that a layer document gives: a layer without a name is called
/// `Unknown`, one without patterns has none.
pub open spec fn layer_of(doc: LayerDocument) -> LayerText {
    LayerText {
        name: text_or(doc.name, default_layer_name()),
        patterns: list_or(doc.patterns, Seq::empty()),
    }
}

/// The layers among the first `n` items; what is no table is left out.
pub open spec fn kept_layers(items: Seq<Option<LayerDocument>>, n: nat) -> Seq<LayerText>
    decreases n,
{
    if n == 0 {
        Seq::empty()
    } else {
        let before = kept_layers(items, (n - 1) as nat);
        match items[n - 1] {
            Some(doc) => before.push(layer_of(doc)),
            None => before,
        }
    }
}

/// The settings that a configuration document gives.
pub open spec fn settings_of(doc: ConfigDocument) -> ConfigText {
    ConfigText {
        source_dirs: list_or(doc.source_dirs, default_source_dirs()),
        output_file: text_or(doc.output_file, default_output_file()),
        layout: text_or(doc.layout, default_layout()),
        exclude_patterns: list_or(doc.exclude_patterns, default_exclude_patterns()),
        layers: match doc.layers {
            Entry::Found(items) => kept_layers(items@, items@.len()),
            _ => Seq::empty(),
        },
    }
}

fn keep_texts(items: &Vec<Option<String>>) -> (r: Vec<String>)
    ensures
        texts(r@) == kept_texts(items@, items@.len()),
{
    let mut out: Vec<String> = Vec::new();
    let mut i: usize = 0;
    assert(texts(out@) =~= kept_texts(items@, 0));
    while i < items.len()
        invariant
            i <= items.len(),
            texts(out@) == kept_texts(items@, i as nat),
        decreases items.len() - i,
    {
        match &items[i] {
            Some(text) => {
                let ghost before = texts(out@);
                out.push(text.clone());
                assert(texts(out@) =~= before.push(text@));
            },
            None => {},
        }
        i = i + 1;
    }
    out
}

fn keep_layers(items: &Vec<Option<LayerDocument>>) -> (r: Vec<Layer>)
    ensures
        layer_texts(r@) == kept_layers(items@, items@.len()),
{
    let mut out: Vec<Layer> = Vec::new();
    let mut i: usize = 0;
    assert(layer_texts(out@) =~= kept_layers(items@, 0));
    while i < items.len()
        invariant
            i <= items.len(),
            layer_texts(out@) == kept_layers(items@, i as nat),
        decreases items.len() - i,
    {
        match &items[i] {
            Some(doc) => {
                let name = match &doc.name {
                    Entry::Found(text) => text.clone(),
                    _ => "Unknown".to_string(),
                };
                let patterns = match &doc.patterns {
                    Entry::Found(list) => keep_texts(list),
                    _ => {
                        let none: Vec<String> = Vec::new();
                        assert(texts(none@) =~= Seq::<Seq<char>>::empty());
                        none
                    },
                };
                let layer = Layer { name, patterns };
                assert(layer@ == layer_of(*doc));
                let ghost before = layer_texts(out@);
                let ghost added = layer@;
                out.push(layer);
                assert(layer_texts(out@) =~= before.push(added));
            },
            None => {},
        }
        i = i + 1;
    }
    out
}

/// What a configuration file says of one layer, as plain values.
pub struct LayerDocumentModel {
    pub name: Entry<Seq<char>>,
    pub patterns: Entry<Seq<Option<Seq<char>>>>,
}

/// What a configuration file says of the settings, as plain values.
pub struct ConfigDocumentModel {
    pub source_dirs: Entry<Seq<Option<Seq<char>>>>,
    pub output_file: Entry<Seq<char>>,
    pub layout: Entry<Seq<char>>,
    pub exclude_patterns: Entry<Seq<Option<Seq<char>>>>,
    pub layers: Entry<Seq<Option<LayerDocumentModel>>>,
}

impl View for LayerDocument {
    type V = LayerDocumentModel;

    open spec fn view(&self) -> LayerDocumentModel {
        LayerDocumentModel { name: entry_text(self.name), patterns: entry_list(self.patterns) }
    }
}

/// An optional layer document as plain values.
pub open spec fn option_layer(item: Option<LayerDocument>) -> Option<LayerDocumentModel> {
    match item {
        Some(doc) => Some(doc@),
        None => None,
    }
}

/// Optional layer documents as plain values.
pub open spec fn option_layers(items: Seq<Option<LayerDocument>>) -> Seq<
    Option<LayerDocumentModel>,
> {
    Seq::new(items.len(), |i: int| option_layer(items[i]))
}

impl View for ConfigDocument {
    type V = ConfigDocumentModel;

    open spec fn view(&self) -> ConfigDocumentModel {
        ConfigDocumentModel {
            source_dirs: entry_list(self.source_dirs),
            output_file: entry_text(self.output_file),
            layout: entry_text(self.layout),
            exclude_patterns: entry_list(self.exclude_patterns),
            layers: match self.layers {
                Entry::Found(items) => Entry::Found(option_layers(items@)),
                Entry::Absent => Entry::Absent,
                Entry::Other => Entry::Other,
            },
        }
    }
}

/// What a table says of one layer: its name and its patterns.
pub open spec fn layer_document(table: Map<Seq<char>, ValueModel>) -> LayerDocumentModel {
    LayerDocumentModel { name: text_at(table, "name"@), patterns: list_at(table, "patterns"@) }
}

/// What an item of the list of layers says: a table says a layer, any
/// other item says nothing.
pub open spec fn layer_item(item: Option<Map<Seq<char>, ValueModel>>) -> Option<
    LayerDocumentModel,
> {
    match item {
        Some(table) => Some(layer_document(table)),
        None => None,
    }
}

/// What a table says of the layers, under the key `layers`.
pub open spec fn layers_at(table: Map<Seq<char>, ValueModel>) -> Entry<
    Seq<Option<LayerDocumentModel>>,
> {
    match tables_at(table, "layers"@) {
        Entry::Found(items) => Entry::Found(Seq::new(items.len(), |i: int| layer_item(items[i]))),
        Entry::Absent => Entry::Absent,
        Entry::Other => Entry::Other,
    }
}

/// What a table says of the settings: each setting under the key of its
/// name.
pub open spec fn config_document(table: Map<Seq<char>, ValueModel>) -> ConfigDocumentModel {
    ConfigDocumentModel {
        source_dirs: list_at(table, "source_dirs"@),
        output_file: text_at(table, "output_file"@),
        layout: text_at(table, "layout"@),
        exclude_patterns: list_at(table, "exclude_patterns"@),
        layers: layers_at(table),
    }
}

/// Reads what a table says of the settings.
fn read_config_document(table: &Table) -> (r: ConfigDocument)
    ensures
        r@ == config_document(table_model(*table)),
{
    let layers = match read_tables(table, "layers") {
        Entry::Found(tables) => {
            let ghost items = option_tables(tables@);
            let mut docs: Vec<Option<LayerDocument>> = Vec::new();
            let mut i: usize = 0;
            while i < tables.len()
                invariant
                    i <= tables.len(),
                    items == option_tables(tables@),
                    docs@.len() == i,
                    forall|k: int|
                        0 <= k < i ==> (#[trigger] option_layers(docs@)[k]) == layer_item(items[k]),
                decreases tables.len() - i,
            {
                let doc = match &tables[i] {
                    Some(inner) => Some(
                        LayerDocument {
                            name: read_text(inner, "name"),
                            patterns: read_list(inner, "patterns"),
                        },
                    ),
                    None => None,
                };
                let ghost before = option_layers(docs@);
                let ghost added = option_layer(doc);
                assert(added == layer_item(items[i as int]));
                docs.push(doc);
                assert(option_layers(docs@) =~= before.push(added));
                i = i + 1;
            }
            assert(option_layers(docs@) =~= Seq::new(
                items.len(),
                |k: int| layer_item(items[k]),
            ));
            Entry::Found(docs)
        },
        Entry::Absent => Entry::Absent,
        Entry::Other => Entry::Other,
    };
    ConfigDocument {
        source_dirs: read_list(table, "source_dirs"),
        output_file: read_text(table, "output_file"),
        layout: read_text(table, "layout"),
        exclude_patterns: read_list(table, "exclude_patterns"),
        layers,
    }
}

impl Config {
    /// The settings used when nothing is configured.
    pub fn defaults() -> (r: Config)
        ensures
            r@ == default_settings(),
    {
        let layers: Vec<Layer> = Vec::new();
        assert(layer_texts(layers@) =~= Seq::<LayerText>::empty());
        Config {
            source_dirs: strings_of_one("src"),
            output_file: "docs/architecture.md".to_string(),
            layout: "dependency-graph".to_string(),
            exclude_patterns: default_excludes(),
            layers,
        }
    }

    /// The settings read from a configuration, with the default for each
    /// setting that the configuration leaves out.
    pub fn from_parts(
        source_dirs: Option<Vec<String>>,
        output_file: Option<String>,
        layout: Option<String>,
        exclude_patterns: Option<Vec<String>>,
        layers: Vec<Layer>,
    ) -> (r: Config)
        ensures
            texts(r.source_dirs@) == match source_dirs {
                Some(v) => texts(v@),
                None => default_source_dirs(),
            },
            r.output_file@ == match output_file {
                Some(s) => s@,
                None => default_output_file(),
            },
            r.layout@ == match layout {
                Some(s) => s@,
                None => default_layout(),
            },
            texts(r.exclude_patterns@) == match exclude_patterns {
                Some(v) => texts(v@),
                None => default_exclude_patterns(),
            },
            r.layers == layers,
    {
        Config {
            source_dirs: match source_dirs {
                Some(v) => v,
                None => strings_of_one("src"),
            },
            output_file: match output_file {
                Some(s) => s,
                None => "docs/architecture.md".to_string(),
            },
            layout: match layout {
                Some(s) => s,
                None => "dependency-graph".to_string(),
            },
            exclude_patterns: match exclude_patterns {
                Some(v) => v,
                None => default_excludes(),
            },
            layers,
        }
    }

    /// The settings that a configuration document gives: for each setting
    /// what the document holds, or the default where it holds nothing of the
    /// right type.
    pub fn from_document(doc: &ConfigDocument) -> (r: Config)
        ensures
            r@ == settings_of(*doc),
    {
        let source_dirs = match &doc.source_dirs {
            Entry::Found(items) => keep_texts(items),
            _ => strings_of_one("src"),
        };
        let output_file = match &doc.output_file {
            Entry::Found(text) => text.clone(),
            _ => "docs/architecture.md".to_string(),
        };
        let layout = match &doc.layout {
            Entry::Found(text) => text.clone(),
            _ => "dependency-graph".to_string(),
        };
        let exclude_patterns = match &doc.exclude_patterns {
            Entry::Found(items) => keep_texts(items),
            _ => default_excludes(),
        };
        let layers = match &doc.layers {
            Entry::Found(items) => keep_layers(items),
            _ => {
                let none: Vec<Layer> = Vec::new();
                assert(layer_texts(none@) =~= Seq::<LayerText>::empty());
                none
            },
        };
        Config { source_dirs, output_file, layout, exclude_patterns, layers }
    }

    /// Reads the settings off the text of a configuration file. A text that
    /// is not TOML is an error; any other text gives the settings of what
    /// its table says.
    pub fn load(content: &str) -> (r: Result<Config, ConfigError>)
        ensures
            match parsed_toml(content@) {
                Some(table) => r matches Ok(c) && exists|doc: ConfigDocument|
                    doc@ == config_document(table) && c@ == settings_of(doc),
                None => r == Err::<Config, ConfigError>(ConfigError::Syntax),
            },
    {
        match parse_table(content) {
            Ok(table) => {
                let doc = read_config_document(&table);
                let c = Config::from_document(&doc);
                assert(doc@ == config_document(table_model(table)) && c@ == settings_of(doc));
                Ok(c)
            },
            Err(_) => Err(ConfigError::Syntax),
        }
    }

    /// The settings of a configuration file, or the defaults where the file
    /// could not be read or is not TOML.
    pub fn load_or_defaults(content: Option<&str>) -> (r: Config)
        ensures
            match content {
                Some(text) => match parsed_toml(text@) {
                    Some(table) => exists|doc: ConfigDocument|
                        doc@ == config_document(table) && r@ == settings_of(doc),
                    None => r@ == default_settings(),
                },
                None => r@ == default_settings(),
            },
    {
        match content {
            Some(text) => match Config::load(text) {
                Ok(c) => c,
                Err(_) => Config::defaults(),
            },
            None => Config::defaults(),
        }
    }

    /// Decides whether the settings may be written to a configuration file:
    /// an existing file is overwritten only where that is asked for.
    pub fn may_save(file_exists: bool, force: bool) -> (r: Result<(), ConfigError>)
        ensures
            r is Ok <==> (!file_exists || force),
            r is Err ==> r == Err::<(), ConfigError>(ConfigError::AlreadyInitialized),
    {
        if file_exists && !force {
            Err(ConfigError::AlreadyInitialized)
        } else {
            Ok(())
        }
    }

    /// The configuration file for these settings.
    pub fn to_toml(&self) -> (r: String)
        ensures
            r@ == toml_text(*self),
    {
        let mut out = String::new();
        out.append(
            "# CodeTwin Configuration\n# Code \u{2192} Diagram/Documentation Generator\n# https://github.com/carlosferreyra/codetwin\n\n",
        );
        out.append("# Source directories to scan\nsource_dirs = [");
        out.append(write_toml_list(&self.source_dirs).as_str());
        out.append(
            "]\n\n# Output file for generated documentation\n# The parent directory is used as the output directory.\noutput_file = \"",
        );
        out.append(self.output_file.as_str());
        out.append(
            "\"\n\n# Layout: dependency-graph, folder_markdown, one_per_file, layered, readme-embedded\nlayout = \"",
        );
        out.append(self.layout.as_str());
        out.append("\"\n\n# Patterns to exclude from scanning\nexclude_patterns = [");
        out.append(write_toml_list(&self.exclude_patterns).as_str());
        out.append("]\n");
        out.append(
            "\n# Optional: Define custom layers for layered layout\n# If omitted, layers are auto-detected from directory structure\n# Example configuration (uncomment and customize):\n#\n# [[layers]]\n# name = \"Core\"\n# patterns = [\"src/lib.rs\", \"src/core/ir.rs\"]\n#\n# [[layers]]\n# name = \"Engine\"\n# patterns = [\"src/app/engine.rs\", \"src/cli/mod.rs\"]\n#\n# [[layers]]\n# name = \"Drivers\"\n# patterns = [\"src/drivers/**\"]\n",
        );
        assert(out@ =~= toml_banner() + toml_settings(*self) + toml_layer_help());
        if self.layers.len() > 0 {
            out.append("\n# Layer configuration (for layered layout)\n");
            let ghost head = out@;
            let mut i: usize = 0;
            while i < self.layers.len()
                invariant
                    i <= self.layers.len(),
                    out@ == head + toml_layers(self.layers@.take(i as int)),
                decreases self.layers.len() - i,
            {
                proof {
                    lemma_take_step(self.layers@, i as int);
                }
                let ghost before = out@;
                out.append("\n[[layers]]\nname = \"");
                out.append(self.layers[i].name.as_str());
                out.append("\"\npatterns = [");
                out.append(write_toml_list(&self.layers[i].patterns).as_str());
                out.append("]\n");
                assert(out@ =~= before + toml_layer(self.layers@[i as int]));
                assert(out@ =~= head + (toml_layers(self.layers@.take(i as int)) + toml_layer(
                    self.layers@[i as int],
                )));
                i = i + 1;
            }
            assert(self.layers@.take(self.layers.len() as int) =~= self.layers@);
            assert(out@ =~= toml_text(*self));
        } else {
            assert(out@ =~= toml_text(*self));
        }
        out
    }
}

} // verus!
