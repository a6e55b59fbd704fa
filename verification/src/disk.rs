//! A model of the disk, to state what loading and initializing amount to
//! when the caller does as it is asked.
//!
//! The model knows directories and text files by their paths and nothing
//! else: every action that is performed on it succeeds, every file in it can
//! be read, and the ancestors that creating a directory makes on the way are
//! left out. The lemmas below are statements about the organizer's
//! decisions, played against this model.

use crate::config::{config_path, ConfigView, FileReadView};
use crate::error::ConfigError;
use crate::johnny_d::{ActionView, Event, JohnnyDView};
use vstd::prelude::*;

verus! {

/// The directories and the text files of a disk, by path.
pub struct Disk {
    pub dirs: Set<Seq<char>>,
    pub files: Map<Seq<char>, Seq<char>>,
}

/// A disk, and how the initialization that led to it ended, if it has.
pub struct Run {
    pub disk: Disk,
    pub result: Option<Result<(), ConfigError>>,
}

impl Disk {
    /// Whether anything is at `path`.
    pub open spec fn occupied(self, path: Seq<char>) -> bool {
        self.dirs.contains(path) || self.files.contains_key(path)
    }

    /// What reading the file at `path` finds.
    pub open spec fn read(self, path: Seq<char>) -> FileReadView {
        if self.files.contains_key(path) {
            FileReadView::Text(self.files[path])
        } else if self.dirs.contains(path) {
            FileReadView::Unreadable
        } else {
            FileReadView::Missing
        }
    }

    /// The organizer that is made for `base_dir` on this disk.
    pub open spec fn organizer(self, base_dir: Seq<char>) -> JohnnyDView {
        JohnnyDView::opened(base_dir, self.read(config_path(base_dir)))
    }

    /// The disk after `action` was performed.
    pub open spec fn perform(self, action: ActionView) -> Disk {
        match action {
            ActionView::CreateDirAll { path } => Disk { dirs: self.dirs.insert(path), ..self },
            ActionView::WriteFile { path, content } => Disk {
                files: self.files.insert(path, content),
                ..self
            },
            _ => self,
        }
    }

    /// The event that reports `action` as performed on this disk.
    pub open spec fn report(self, action: ActionView) -> Event {
        match action {
            ActionView::Probe { path } => Event::Probed { found: self.occupied(path) },
            ActionView::CreateDirAll { .. } => Event::Created { ok: true },
            ActionView::WriteFile { .. } => Event::Written { ok: true },
            ActionView::Finish { .. } => Event::Begin,
        }
    }

    /// Plays the dialogue of an initialization from `event` on, for at most
    /// `turns` actions before the one that finishes.
    pub open spec fn run(self, organizer: JohnnyDView, event: Event, turns: nat) -> Run
        decreases turns,
    {
        match organizer.next(event) {
            ActionView::Finish { result } => Run { disk: self, result: Some(result) },
            action => if turns == 0 {
                Run { disk: self, result: None }
            } else {
                self.perform(action).run(organizer, self.report(action), (turns - 1) as nat)
            },
        }
    }

    /// Plays a whole initialization: the longest dialogue probes, creates
    /// and writes.
    pub open spec fn initialize(self, organizer: JohnnyDView) -> Run {
        self.run(organizer, Event::Begin, 3)
    }

    /// The disk that an initialization is meant to leave: the destination
    /// is a directory unless something was already there, and on a first run
    /// the configuration file of the base directory holds the configuration.
    pub open spec fn initialized(self, organizer: JohnnyDView) -> Disk {
        Disk {
            dirs: if self.occupied(organizer.destination()) {
                self.dirs
            } else {
                self.dirs.insert(organizer.destination())
            },
            files: if organizer.first_run {
                self.files.insert(config_path(organizer.base_dir), organizer.config.rendered())
            } else {
                self.files
            },
        }
    }
}

/// Loading from a base directory that holds nothing at the path of the
/// configuration file fails with `FileNotFound`, and the organizer made for
/// it is on its first run with the initial configuration.
pub proof fn lemma_open_without_config(disk: Disk, base_dir: Seq<char>)
    requires
        !disk.occupied(config_path(base_dir)),
    ensures
        ConfigView::loaded(disk.read(config_path(base_dir))) == Err::<ConfigView, ConfigError>(
            ConfigError::FileNotFound,
        ),
        disk.organizer(base_dir) == (JohnnyDView {
            base_dir,
            config: ConfigView::initial(),
            first_run: true,
        }),
{
}

/// Where the configuration file of the base directory holds a
/// configuration, the organizer made for it uses that configuration and is
/// not on its first run.
pub proof fn lemma_open_with_config(disk: Disk, base_dir: Seq<char>, config: ConfigView)
    requires
        disk.files.contains_key(config_path(base_dir)),
        ConfigView::decoded(disk.files[config_path(base_dir)]) == Some(config),
    ensures
        disk.organizer(base_dir) == (JohnnyDView { base_dir, config, first_run: false }),
{
}

/// After a configuration was saved to a directory, loading from that
/// directory gives what the saved text decodes to, whatever else is on the
/// disk. So a configuration whose text decodes to itself is loaded back
/// unchanged, and the organizer made for the directory uses it and is not on
/// its first run.
pub proof fn lemma_load_after_save(disk: Disk, dir: Seq<char>, config: ConfigView)
    ensures
        ({
            let saved = disk.perform(
                ActionView::WriteFile { path: config_path(dir), content: config.rendered() },
            );
            &&& saved.read(config_path(dir)) == FileReadView::Text(config.rendered())
            &&& ConfigView::decoded(config.rendered()) == Some(config) ==> {
                &&& ConfigView::loaded(saved.read(config_path(dir))) == Ok::<
                    ConfigView,
                    ConfigError,
                >(config)
                &&& saved.organizer(dir) == (JohnnyDView {
                    base_dir: dir,
                    config,
                    first_run: false,
                })
            }
        }),
{
}

/// An initialization whose actions all succeed ends with success and leaves
/// the disk as `initialized` describes it: the destination exists, nothing
/// else was created, and the configuration file was written on a first run
/// and on no other.
pub proof fn lemma_initialize_effect(disk: Disk, organizer: JohnnyDView)
    ensures
        disk.initialize(organizer).result == Some(Ok::<(), ConfigError>(())),
        disk.initialize(organizer).disk == disk.initialized(organizer),
        disk.initialize(organizer).disk.occupied(organizer.destination()),
        !organizer.first_run ==> disk.initialize(organizer).disk.files == disk.files,
{
    reveal_with_fuel(Disk::run, 4);
    let after = disk.initialize(organizer).disk;
    let meant = disk.initialized(organizer);
    assert(after.dirs =~= meant.dirs);
    assert(after.files =~= meant.files);
}

/// Initializing twice leaves the disk as initializing once does: the second
/// time the destination is found, and on a first run the configuration file
/// is written again with the same text.
pub proof fn lemma_initialize_idempotent(disk: Disk, organizer: JohnnyDView)
    ensures
        disk.initialize(organizer).disk.initialize(organizer) == disk.initialize(organizer),
{
    lemma_initialize_effect(disk, organizer);
    let once = disk.initialize(organizer).disk;
    lemma_initialize_effect(once, organizer);
    let twice = once.initialize(organizer).disk;
    assert(twice.dirs =~= once.dirs);
    assert(twice.files =~= once.files);
}

} // verus!
