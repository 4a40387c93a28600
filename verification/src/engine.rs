//! The decisions of a generation run and of watch mode. Reading files,
//! writing documents and waiting for events is left to the caller.

use crate::config::Config;
use crate::drivers::trait_def::{Driver, DriverError};
use crate::drivers::python::python_blueprint;
use crate::drivers::rust::rust_blueprint;
use crate::drivers::syntax::{syntax_of, Grammar, NodeModel, SyntaxNode};
use crate::drivers::{choice_for_extension, get_driver_for_file, DriverChoice, DriverKind};
use crate::ir::{Blueprint, BlueprintModel};
use crate::layouts::trait_def::{produced, Layout, LayoutError, LayoutFailure};
use crate::layouts::{choice_for, get_layout, is_choice, LayoutKind};
use crate::paths::{extension_of, parent, parent_of};
use vstd::prelude::*;

verus! {

/// Why a run produced no documents.
#[derive(Debug, Clone, PartialEq, Eq)]
pub enum RunError {
    /// No source file gave a blueprint with elements.
    NoElements,
    /// The layout could not be chosen or failed.
    Layout(LayoutError),
}

/// The text that describes the failure of a run.
pub open spec fn run_error_text(e: RunError) -> Seq<char> {
    match e {
        RunError::NoElements => "No elements found in any source files"@,
        RunError::Layout(inner) => crate::layouts::trait_def::failure_text(inner@),
    }
}

impl RunError {
    /// A sentence that describes the failure.
    pub fn message(&self) -> (r: String)
        ensures
            r@ == run_error_text(*self),
    {
        match self {
            RunError::NoElements => "No elements found in any source files".to_string(),
            RunError::Layout(inner) => inner.message(),
        }
    }
}

/// Decides what a parsed file contributes to a run: its blueprint where
/// parsing succeeded and found elements, else nothing.
pub fn keep_blueprint(parsed: Result<Blueprint, DriverError>) -> (r: Option<Blueprint>)
    ensures
        match parsed {
            Ok(b) => if b.elements@.len() > 0 {
                r == Some(b)
            } else {
                r is None
            },
            Err(_) => r is None,
        },
{
    match parsed {
        Ok(b) => if b.elements.len() > 0 {
            Some(b)
        } else {
            None
        },
        Err(_) => None,
    }
}

/// The grammar that a driver parses with, if it parses at all.
pub open spec fn grammar_for(choice: Option<DriverChoice>) -> Option<Grammar> {
    match choice {
        Some(DriverChoice::Rust) => Some(Grammar::Rust),
        Some(DriverChoice::Python) => Some(Grammar::Python),
        _ => None,
    }
}

/// Whether a blueprint is what the source text at `path` gives under the
/// grammar: the blueprint of the syntax tree of the text.
pub open spec fn is_parse_of(
    b: BlueprintModel,
    grammar: Grammar,
    path: Seq<char>,
    source: Seq<char>,
) -> bool {
    exists|root: SyntaxNode|
        syntax_of(grammar, source) == Ok::<NodeModel, DriverError>(root@) && b == (match grammar {
            Grammar::Rust => rust_blueprint(path, root),
            Grammar::Python => python_blueprint(path, root),
        })
}

/// Parses one source file with the driver for its extension. The result is
/// the blueprint of the syntax tree of the text, where the file has a
/// driver that parses, the text has a syntax tree and the blueprint has
/// elements; any other file contributes nothing.
pub fn parse_file(path: &str, source: &str) -> (r: Option<Blueprint>)
    ensures
        match r {
            Some(b) => {
                &&& b.source_path@ == path@
                &&& b.elements@.len() > 0
                &&& b.well_formed()
                &&& grammar_for(choice_for_extension(extension_of(path@))) matches Some(grammar)
                    && is_parse_of(b@, grammar, path@, source@)
            },
            None => match grammar_for(choice_for_extension(extension_of(path@))) {
                Some(grammar) => syntax_of(grammar, source@) is Err || exists|b: BlueprintModel|
                    is_parse_of(b, grammar, path@, source@) && b.elements.len() == 0,
                None => true,
            },
        },
{
    match get_driver_for_file(path) {
        Some(driver) => {
            let parsed = driver.parse(path, source);
            proof {
                match &parsed {
                    Ok(b) => {
                        match driver {
                            DriverKind::Rust(_) => {
                                assert(is_parse_of(b@, Grammar::Rust, path@, source@));
                            },
                            DriverKind::Python(_) => {
                                assert(is_parse_of(b@, Grammar::Python, path@, source@));
                            },
                            _ => {},
                        }
                        assert(b@.elements.len() == b.elements@.len());
                    },
                    Err(_) => {},
                }
            }
            keep_blueprint(parsed)
        },
        None => None,
    }
}

/// The directory that documents are written to: the parent of the output
/// file, or `docs` where the path shows none.
pub open spec fn output_directory_of(output_file: Seq<char>) -> Seq<char> {
    match parent_of(output_file) {
        Some(dir) => dir,
        None => "docs"@,
    }
}

/// Finds the directory that documents are written to.
pub fn output_directory(output_file: &str) -> (r: String)
    ensures
        r@ == output_directory_of(output_file@),
{
    match parent(output_file) {
        Some(dir) => dir,
        None => "docs".to_string(),
    }
}

/// Whether what a run returned is what it was to produce.
pub open spec fn run_produced(
    got: Result<Vec<(String, String)>, RunError>,
    expected: Result<Seq<(Seq<char>, Seq<char>)>, LayoutFailure>,
) -> bool {
    match got {
        Ok(docs) => produced(Ok(docs), expected),
        Err(RunError::Layout(e)) => produced(Err(e), expected),
        Err(RunError::NoElements) => false,
    }
}

/// Produces the documents of a run with the given layout. A run without
/// blueprints fails before the layout is asked.
pub fn format_documents(layout: &LayoutKind, blueprints: &[Blueprint]) -> (r: Result<
    Vec<(String, String)>,
    RunError,
>)
    ensures
        blueprints@.len() == 0 ==> r == Err::<Vec<(String, String)>, RunError>(
            RunError::NoElements,
        ),
        blueprints@.len() > 0 ==> run_produced(r, layout.documents(blueprints@)),
{
    if blueprints.len() == 0 {
        return Err(RunError::NoElements);
    }
    match layout.format(blueprints) {
        Ok(docs) => Ok(docs),
        Err(e) => Err(RunError::Layout(e)),
    }
}

/// Produces the documents of a run with the layout that the configuration
/// names. A run without blueprints fails first; an unknown layout fails next.
pub fn generate_documents(config: &Config, blueprints: &[Blueprint]) -> (r: Result<
    Vec<(String, String)>,
    RunError,
>)
    ensures
        blueprints@.len() == 0 ==> r == Err::<Vec<(String, String)>, RunError>(
            RunError::NoElements,
        ),
        blueprints@.len() > 0 ==> match choice_for(
            config.layout@,
            crate::config::layer_texts(config.layers@),
        ) {
            Some(choice) => exists|layout: LayoutKind|
                is_choice(layout, choice) && run_produced(r, layout.documents(blueprints@)),
            None => r matches Err(RunError::Layout(e)) && e@ == LayoutFailure::UnknownLayout(
                config.layout@,
            ),
        },
{
    if blueprints.len() == 0 {
        return Err(RunError::NoElements);
    }
    match get_layout(config) {
        Ok(layout) => {
            let r = format_documents(&layout, blueprints);
            assert(run_produced(r, layout.documents(blueprints@)));
            r
        },
        Err(e) => Err(RunError::Layout(e)),
    }
}

/// Where watch mode stands.
#[derive(Debug, Clone, Copy, PartialEq, Eq, Structural)]
pub enum WatchState {
    /// Nothing changed since the last run.
    Idle,
    /// Something changed and the quiet period is running.
    Debouncing,
    /// A run is under way; `pending` tells whether something changed since
    /// it started.
    Running { pending: bool },
}

/// What happened.
#[derive(Debug, Clone, Copy, PartialEq, Eq, Structural)]
pub enum WatchEvent {
    /// A watched file changed.
    Changed,
    /// The quiet period passed without a change.
    QuietPeriodOver,
    /// The run ended, well or badly.
    RunFinished,
}

/// What the caller is to do next.
#[derive(Debug, Clone, Copy, PartialEq, Eq, Structural)]
pub enum WatchAction {
    /// Nothing but wait for the next event.
    Wait,
    /// Start the quiet period anew.
    RestartTimer,
    /// Start a run.
    Generate,
}

/// The state and the action that follow an event. Changes start or restart
/// the quiet period; a run starts when the quiet period passes; a change
/// during a run is taken up when the run ends.
pub open spec fn watch_next(state: WatchState, event: WatchEvent) -> (WatchState, WatchAction) {
    match state {
        WatchState::Idle => match event {
            WatchEvent::Changed => (WatchState::Debouncing, WatchAction::RestartTimer),
            _ => (WatchState::Idle, WatchAction::Wait),
        },
        WatchState::Debouncing => match event {
            WatchEvent::Changed => (WatchState::Debouncing, WatchAction::RestartTimer),
            WatchEvent::QuietPeriodOver => (
                WatchState::Running { pending: false },
                WatchAction::Generate,
            ),
            WatchEvent::RunFinished => (WatchState::Debouncing, WatchAction::Wait),
        },
        WatchState::Running { pending } => match event {
            WatchEvent::Changed => (WatchState::Running { pending: true }, WatchAction::Wait),
            WatchEvent::QuietPeriodOver => (WatchState::Running { pending }, WatchAction::Wait),
            WatchEvent::RunFinished => if pending {
                (WatchState::Debouncing, WatchAction::RestartTimer)
            } else {
                (WatchState::Idle, WatchAction::Wait)
            },
        },
    }
}

/// Takes one step of watch mode.
pub fn watch_step(state: WatchState, event: WatchEvent) -> (r: (WatchState, WatchAction))
    ensures
        r == watch_next(state, event),
{
    match state {
        WatchState::Idle => match event {
            WatchEvent::Changed => (WatchState::Debouncing, WatchAction::RestartTimer),
            _ => (WatchState::Idle, WatchAction::Wait),
        },
        WatchState::Debouncing => match event {
            WatchEvent::Changed => (WatchState::Debouncing, WatchAction::RestartTimer),
            WatchEvent::QuietPeriodOver => (
                WatchState::Running { pending: false },
                WatchAction::Generate,
            ),
            WatchEvent::RunFinished => (WatchState::Debouncing, WatchAction::Wait),
        },
        WatchState::Running { pending } => match event {
            WatchEvent::Changed => (WatchState::Running { pending: true }, WatchAction::Wait),
            WatchEvent::QuietPeriodOver => (WatchState::Running { pending }, WatchAction::Wait),
            WatchEvent::RunFinished => if pending {
                (WatchState::Debouncing, WatchAction::RestartTimer)
            } else {
                (WatchState::Idle, WatchAction::Wait)
            },
        },
    }
}

/// A run never starts while another is under way, and it starts only when
/// the quiet period passes.
pub proof fn lemma_runs_do_not_overlap(state: WatchState, event: WatchEvent)
    ensures
        watch_next(state, event).1 == WatchAction::Generate ==> state == WatchState::Debouncing
            && event == WatchEvent::QuietPeriodOver,
        state is Running && event != WatchEvent::RunFinished ==> watch_next(state, event).0
            is Running,
{
}

/// A change is never lost: after a change watch mode is not idle, and it
/// does not become idle before a run that started after the change ended.
pub proof fn lemma_changes_are_taken_up(state: WatchState, event: WatchEvent)
    ensures
        watch_next(state, WatchEvent::Changed).0 != WatchState::Idle,
        state == WatchState::Debouncing ==> watch_next(state, event).0 != WatchState::Idle,
        state == (WatchState::Running { pending: true }) ==> watch_next(state, event).0
            != WatchState::Idle,
{
}

} // verus!
