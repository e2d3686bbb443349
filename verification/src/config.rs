//! Run configuration: built once by the caller and passed to the
//! components that need it — the file filter, the traversal's allow-list,
//! and the diagnostics switches.
use vstd::prelude::*;

verus! {

/// Mathematical image of a [`Settings`].
pub ghost struct SettingsV {
    pub ignore: Seq<Seq<char>>,
    pub function_name: Seq<Seq<char>>,
    pub debug: bool,
    pub verbose: bool,
    pub path: Seq<char>,
}

/// The default configuration: build outputs and test directories ignored,
/// every function traversed, quiet, rooted at the current directory.
pub open spec fn default_settings() -> SettingsV {
    SettingsV {
        ignore: seq!["/target"@, "/tests"@],
        function_name: Seq::<Seq<char>>::empty(),
        debug: false,
        verbose: false,
        path: "."@,
    }
}

/// What one run is configured with.
#[derive(Debug, Clone)]
pub struct Settings {
    /// Path substrings whose files and directories are skipped.
    pub ignore: Vec<String>,
    /// Only functions with these names are traversed; empty means all.
    pub function_name: Vec<String>,
    /// Debug mode.
    pub debug: bool,
    /// Verbose mode.
    pub verbose: bool,
    /// Path to the project root.
    pub path: String,
}

impl View for Settings {
    type V = SettingsV;

    open spec fn view(&self) -> SettingsV {
        SettingsV {
            ignore: self.ignore.deep_view(),
            function_name: self.function_name.deep_view(),
            debug: self.debug,
            verbose: self.verbose,
            path: self.path@,
        }
    }
}

impl Settings {
    /// The defaults: build outputs and test directories ignored, every
    /// function traversed, quiet, rooted at the current directory.
    pub fn new() -> (s: Settings)
        ensures
            s@ == default_settings(),
    {
        let mut ignore: Vec<String> = Vec::new();
        ignore.push("/target".to_owned());
        ignore.push("/tests".to_owned());
        let s = Settings {
            ignore,
            function_name: Vec::new(),
            debug: false,
            verbose: false,
            path: ".".to_owned(),
        };
        proof {
            assert(s.ignore.deep_view() =~= seq!["/target"@, "/tests"@]);
            assert(s.function_name.deep_view() =~= Seq::<Seq<char>>::empty());
        }
        s
    }
}

} // verus!
