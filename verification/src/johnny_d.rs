//! The organizer of a Johnny Decimal workspace.
//!
//! An organizer is made from a base directory and from what was found where
//! that directory keeps its configuration file. Initializing the workspace
//! is a dialogue: the organizer names an action, the caller performs it on
//! disk and reports the outcome as an event, until the action is `Finish`.

use crate::config::{config_path, Config, ConfigView, FileRead, FileReadView, FileWrite};
use crate::error::ConfigError;
use crate::paths::{join, joined};
use vstd::prelude::*;
use vstd::string::*;

verus! {

/// What the caller reports to an organizer that is initializing.
#[derive(Debug, Clone, Copy, PartialEq, Eq, Structural)]
pub enum Event {
    /// Nothing has been done yet.
    Begin,
    /// The destination was looked for: whether anything exists there.
    Probed { found: bool },
    /// The destination directory was asked for: whether it could be made.
    Created { ok: bool },
    /// The configuration file was handed over: whether it could be written.
    Written { ok: bool },
}

/// What an organizer asks its caller to do next.
#[derive(Debug, PartialEq, Eq)]
pub enum Action {
    /// Find out whether anything exists at `path`.
    Probe { path: String },
    /// Create the directory `path`, with every ancestor that is missing.
    CreateDirAll { path: String },
    /// Write the file, replacing what is there.
    WriteFile { file: FileWrite },
    /// Nothing more to do: the initialization ended with `result`.
    Finish { result: Result<(), ConfigError> },
}

/// An action, with its texts as sequences.
pub enum ActionView {
    Probe { path: Seq<char> },
    CreateDirAll { path: Seq<char> },
    WriteFile { path: Seq<char>, content: Seq<char> },
    Finish { result: Result<(), ConfigError> },
}

impl View for Action {
    type V = ActionView;

    open spec fn view(&self) -> ActionView {
        match self {
            Action::Probe { path } => ActionView::Probe { path: path@ },
            Action::CreateDirAll { path } => ActionView::CreateDirAll { path: path@ },
            Action::WriteFile { file } => ActionView::WriteFile {
                path: file.path@,
                content: file.content@,
            },
            Action::Finish { result } => ActionView::Finish { result: *result },
        }
    }
}

/// Organizer of a Johnny Decimal workspace.
pub struct JohnnyD {
    /// The directory that holds the configuration file.
    base_dir: String,
    /// The configuration in use.
    config: Config,
    /// Whether no configuration could be loaded when this organizer was made.
    first_run: bool,
}

/// An organizer as plain values.
pub struct JohnnyDView {
    pub base_dir: Seq<char>,
    pub config: ConfigView,
    pub first_run: bool,
}

impl JohnnyDView {
    /// The organizer of `base_dir`, given what was found at the path of its
    /// configuration file: the configuration that loads from it, or, where
    /// none does for whatever reason, the initial one on a first run.
    pub open spec fn opened(base_dir: Seq<char>, read: FileReadView) -> JohnnyDView {
        match ConfigView::loaded(read) {
            Ok(config) => JohnnyDView { base_dir, config, first_run: false },
            Err(_) => JohnnyDView { base_dir, config: ConfigView::initial(), first_run: true },
        }
    }

    /// On a first run the configuration is the initial one.
    pub open spec fn wf(self) -> bool {
        self.first_run ==> self.config == ConfigView::initial()
    }

    /// The directory that files are organized into: the configured
    /// destination, taken from the base directory unless it is absolute.
    pub open spec fn destination(self) -> Seq<char> {
        joined(self.base_dir, self.config.destination)
    }

    /// What follows once the destination directory is known to exist: on a
    /// first run the configuration is written to the base directory,
    /// otherwise nothing is left to do.
    pub open spec fn persist(self) -> ActionView {
        if self.first_run {
            ActionView::WriteFile {
                path: config_path(self.base_dir),
                content: self.config.rendered(),
            }
        } else {
            ActionView::Finish { result: Ok(()) }
        }
    }

    /// The action that answers `event`.
    pub open spec fn next(self, event: Event) -> ActionView {
        match event {
            Event::Begin => ActionView::Probe { path: self.destination() },
            Event::Probed { found } => if found {
                self.persist()
            } else {
                ActionView::CreateDirAll { path: self.destination() }
            },
            Event::Created { ok } => if ok {
                self.persist()
            } else {
                ActionView::Finish { result: Err(ConfigError::IoError) }
            },
            Event::Written { ok } => ActionView::Finish {
                result: if ok {
                    Ok(())
                } else {
                    Err(ConfigError::IoError)
                },
            },
        }
    }

}

impl View for JohnnyD {
    type V = JohnnyDView;

    closed spec fn view(&self) -> JohnnyDView {
        JohnnyDView { base_dir: self.base_dir@, config: self.config@, first_run: self.first_run }
    }
}

impl JohnnyD {
    #[verifier::type_invariant]
    spec fn inv(self) -> bool {
        self@.wf()
    }

    /// Makes the organizer of `base_dir` from what was found at
    /// `Config::file_in(base_dir)`. A configuration that loads is used as it
    /// is. Where none loads, whether the file is absent, unreadable or
    /// malformed, the organizer starts from the default configuration and
    /// remembers that this is a first run.
    pub fn new(base_dir: &str, read: FileRead) -> (r: JohnnyD)
        ensures
            r@ == JohnnyDView::opened(base_dir@, read@),
            r@.wf(),
    {
        let base_dir = String::from_str(base_dir);
        match Config::try_load(read) {
            Ok(config) => JohnnyD { base_dir, config, first_run: false },
            Err(_) => JohnnyD { base_dir, config: Config::default(), first_run: true },
        }
    }

    /// The directory that files are organized into.
    pub fn destination(&self) -> (r: String)
        ensures
            r@ == self@.destination(),
    {
        join(self.base_dir.as_str(), self.config.destination.as_str())
    }

    /// The action once the destination directory exists.
    fn persist(&self) -> (r: Action)
        ensures
            r@ == self@.persist(),
    {
        if self.first_run {
            match self.config.save(self.base_dir.as_str()) {
                Ok(file) => Action::WriteFile { file },
                Err(error) => Action::Finish { result: Err(error) },
            }
        } else {
            Action::Finish { result: Ok(()) }
        }
    }

    /// One turn of initializing the workspace: the action that answers
    /// `event`. The caller starts with `Event::Begin`, performs each action
    /// and reports its outcome, and stops at `Action::Finish`.
    ///
    /// The destination is looked for and created if nothing is there; then,
    /// on a first run, the configuration is saved to the base directory. A
    /// directory that cannot be made or a file that cannot be written ends
    /// the initialization with `IoError`.
    pub fn initialize(&self, event: Event) -> (r: Action)
        ensures
            self@.wf(),
            r@ == self@.next(event),
    {
        proof {
            use_type_invariant(self);
        }
        match event {
            Event::Begin => Action::Probe { path: self.destination() },
            Event::Probed { found } => if found {
                self.persist()
            } else {
                Action::CreateDirAll { path: self.destination() }
            },
            Event::Created { ok } => if ok {
                self.persist()
            } else {
                Action::Finish { result: Err(ConfigError::IoError) }
            },
            Event::Written { ok } => if ok {
                Action::Finish { result: Ok(()) }
            } else {
                Action::Finish { result: Err(ConfigError::IoError) }
            },
        }
    }

    /// The base directory of this organizer.
    pub fn base_dir(&self) -> (r: &str)
        ensures
            r@ == self@.base_dir,
    {
        self.base_dir.as_str()
    }

    /// The configuration in use.
    pub fn config(&self) -> (r: &Config)
        ensures
            r@ == self@.config,
    {
        &self.config
    }

    /// Whether this is a first run: no configuration could be loaded when
    /// the organizer was made. The configuration in use is then the default
    /// one.
    pub fn first_run(&self) -> (r: bool)
        ensures
            r == self@.first_run,
            self@.wf(),
    {
        proof {
            use_type_invariant(self);
        }
        self.first_run
    }
}

} // verus!
