//! Static per-function call-graph reconstruction from the source text of a
//! block-structured, expression-oriented language: a graph engine that
//! wires each visited expression to the expression it feeds, an import-path
//! resolver, and the recursive traversal that drives both.
use vstd::prelude::*;

pub mod ast;
pub mod config;
pub mod edge;
pub mod file;
pub mod graph;
pub mod layer;
pub mod node;
pub mod stack;
pub mod state;
pub mod strutil;
pub mod toml;
pub mod tree;
pub mod utils;
pub mod visit;

use crate::config::{default_settings, Settings, SettingsV};
use crate::state::{initial_state, State, StateV};

verus! {

/// Mathematical image of an [`Ara`].
pub ghost struct AraV {
    pub state: StateV,
    pub settings: SettingsV,
}

/// The front of the library: one run's state beside its configuration.
/// The setters adjust the configuration before the caller drives the run.
pub struct Ara {
    pub state: State,
    pub settings: Settings,
}

impl View for Ara {
    type V = AraV;

    open spec fn view(&self) -> AraV {
        AraV { state: self.state@, settings: self.settings@ }
    }
}

impl Ara {
    /// A fresh run with the default configuration.
    pub fn new() -> (a: Ara)
        ensures
            a@ == (AraV { state: initial_state(), settings: default_settings() }),
    {
        Ara { state: State::new(), settings: Settings::new() }
    }

    /// Sets the ignored path substrings.
    pub fn ignore(&mut self, ignore: Vec<String>)
        ensures
            final(self)@ == (AraV {
                settings: SettingsV { ignore: ignore.deep_view(), ..old(self)@.settings },
                ..old(self)@
            }),
    {
        self.settings.ignore = ignore;
    }

    /// Sets the function-name allow-list; empty means every function.
    pub fn function_name(&mut self, function_name: Vec<String>)
        ensures
            final(self)@ == (AraV {
                settings: SettingsV {
                    function_name: function_name.deep_view(),
                    ..old(self)@.settings
                },
                ..old(self)@
            }),
    {
        self.settings.function_name = function_name;
    }

    /// Sets the debug mode.
    pub fn debug(&mut self, debug: bool)
        ensures
            final(self)@ == (AraV {
                settings: SettingsV { debug, ..old(self)@.settings },
                ..old(self)@
            }),
    {
        self.settings.debug = debug;
    }

    /// Sets the verbose mode.
    pub fn verbose(&mut self, verbose: bool)
        ensures
            final(self)@ == (AraV {
                settings: SettingsV { verbose, ..old(self)@.settings },
                ..old(self)@
            }),
    {
        self.settings.verbose = verbose;
    }

    /// Sets the project root path.
    pub fn path(&mut self, path: String)
        ensures
            final(self)@ == (AraV {
                settings: SettingsV { path: path@, ..old(self)@.settings },
                ..old(self)@
            }),
    {
        self.settings.path = path;
    }
}

} // verus!
