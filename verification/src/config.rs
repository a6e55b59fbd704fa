//! The configuration record and its file.

use crate::error::ConfigError;
use crate::json::{json_quoted, json_text_members, quote, text_members};
use crate::paths::{join, joined};
use vstd::prelude::*;
use vstd::string::*;

verus! {

/// The name of the configuration file inside a base directory.
pub const CONFIG_FILENAME: &'static str = "johnny-d-config.json";

/// The key of the source directory in the configuration file.
pub const SOURCE_KEY: &'static str = "source";

/// The key of the destination directory in the configuration file.
pub const DESTINATION_KEY: &'static str = "destination";

/// Configuration of a Johnny Decimal workspace.
#[derive(Debug, Eq)]
pub struct Config {
    /// The directory to organize files from.
    pub source: String,
    /// The directory to organize files into.
    pub destination: String,
}

/// A configuration as a pair of texts.
pub struct ConfigView {
    pub source: Seq<char>,
    pub destination: Seq<char>,
}

impl View for Config {
    type V = ConfigView;

    open spec fn view(&self) -> ConfigView {
        ConfigView { source: self.source@, destination: self.destination@ }
    }
}

/// What was found where the configuration file is looked for.
#[derive(Debug, Clone, PartialEq, Eq)]
pub enum FileRead {
    /// Nothing exists at the path.
    Missing,
    /// Something exists there, but its text could not be read.
    Unreadable,
    /// The text of the file.
    Text(String),
}

/// What was found at a path, with the text of a file as a sequence.
pub enum FileReadView {
    Missing,
    Unreadable,
    Text(Seq<char>),
}

impl View for FileRead {
    type V = FileReadView;

    open spec fn view(&self) -> FileReadView {
        match self {
            FileRead::Missing => FileReadView::Missing,
            FileRead::Unreadable => FileReadView::Unreadable,
            FileRead::Text(text) => FileReadView::Text(text@),
        }
    }
}

/// A file to write: where, and what.
#[derive(Debug, Clone, PartialEq, Eq)]
pub struct FileWrite {
    pub path: String,
    pub content: String,
}

/// The path of the configuration file of the base directory `dir`.
pub open spec fn config_path(dir: Seq<char>) -> Seq<char> {
    joined(dir, CONFIG_FILENAME@)
}

/// The text of a configuration file whose two values are written as the
/// JSON literals `source` and `destination`: an object over four lines,
/// indented by two spaces.
pub open spec fn framed(source: Seq<char>, destination: Seq<char>) -> Seq<char> {
    "{\n  \"source\": "@ + source + ",\n  \"destination\": "@ + destination + "\n}"@
}

/// The configuration that the members of a JSON object stand for: there are
/// exactly two of them, one under each key, in either order.
pub open spec fn config_of_members(members: Seq<(Seq<char>, Seq<char>)>) -> Option<ConfigView> {
    if members.len() != 2 {
        None
    } else if members[0].0 == SOURCE_KEY@ && members[1].0 == DESTINATION_KEY@ {
        Some(ConfigView { source: members[0].1, destination: members[1].1 })
    } else if members[0].0 == DESTINATION_KEY@ && members[1].0 == SOURCE_KEY@ {
        Some(ConfigView { source: members[1].1, destination: members[0].1 })
    } else {
        None
    }
}

impl ConfigView {
    /// The configuration of a workspace that has none yet.
    pub open spec fn initial() -> ConfigView {
        ConfigView { source: "."@, destination: "johnny-d"@ }
    }

    /// The text of the file that holds this configuration.
    pub open spec fn rendered(self) -> Seq<char> {
        framed(json_quoted(self.source), json_quoted(self.destination))
    }

    /// The configuration that a file with the text `text` holds, if any.
    pub open spec fn decoded(text: Seq<char>) -> Option<ConfigView> {
        match json_text_members(text) {
            Some(members) => config_of_members(members),
            None => None,
        }
    }

    /// What loading gives for what was found at the file's path.
    pub open spec fn loaded(read: FileReadView) -> Result<ConfigView, ConfigError> {
        match read {
            FileReadView::Missing => Err(ConfigError::FileNotFound),
            FileReadView::Unreadable => Err(ConfigError::IoError),
            FileReadView::Text(text) => match ConfigView::decoded(text) {
                Some(config) => Ok(config),
                None => Err(ConfigError::ParseError),
            },
        }
    }
}

/// Whether two texts are the same.
fn same_text(a: &str, b: &str) -> (r: bool)
    ensures
        r == (a@ == b@),
{
    let left = String::from_str(a);
    let right = String::from_str(b);
    left == right
}

impl Clone for Config {
    fn clone(&self) -> (r: Config)
        ensures
            r@ == self@,
    {
        Config { source: self.source.clone(), destination: self.destination.clone() }
    }
}

impl PartialEq for Config {
    /// Two configurations are equal when their sources are and their
    /// destinations are.
    fn eq(&self, other: &Config) -> (r: bool) {
        self.source == other.source && self.destination == other.destination
    }
}

impl vstd::std_specs::cmp::PartialEqSpecImpl for Config {
    open spec fn obeys_eq_spec() -> bool {
        true
    }

    open spec fn eq_spec(&self, other: &Config) -> bool {
        self.source@ == other.source@ && self.destination@ == other.destination@
    }
}

impl Default for Config {
    /// Source `.`, destination `johnny-d`.
    fn default() -> (r: Config)
        ensures
            r@ == ConfigView::initial(),
    {
        Config { source: String::from_str("."), destination: String::from_str("johnny-d") }
    }
}

impl Config {
    /// The path of the configuration file of the base directory `dir`.
    pub fn file_in(dir: &str) -> (r: String)
        ensures
            r@ == config_path(dir@),
    {
        join(dir, CONFIG_FILENAME)
    }

    /// Puts two JSON literals into the text of a configuration file.
    pub fn frame(source: &str, destination: &str) -> (r: String)
        ensures
            r@ == framed(source@, destination@),
    {
        let mut out = String::from_str("{\n  \"source\": ");
        out.append(source);
        out.append(",\n  \"destination\": ");
        out.append(destination);
        out.append("\n}");
        out
    }

    /// The text of the file that holds this configuration, its two values
    /// quoted by the JSON writer. Rendering always succeeds.
    pub fn render(&self) -> (r: Result<String, ConfigError>)
        ensures
            r is Ok,
            r matches Ok(text) ==> text@ == self@.rendered(),
    {
        match quote(self.source.as_str()) {
            Ok(source) => match quote(self.destination.as_str()) {
                Ok(destination) => Ok(Config::frame(source.as_str(), destination.as_str())),
                Err(_) => Err(ConfigError::IoError),
            },
            Err(_) => Err(ConfigError::IoError),
        }
    }

    /// The configuration that the members of a JSON object stand for, or
    /// `ParseError` unless they are exactly a source and a destination.
    pub fn from_members(members: &Vec<(String, String)>) -> (r: Result<Config, ConfigError>)
        ensures
            match r {
                Ok(config) => config_of_members(members.deep_view()) == Some(config@),
                Err(error) => error == ConfigError::ParseError && config_of_members(
                    members.deep_view(),
                ).is_none(),
            },
    {
        if members.len() != 2 {
            return Err(ConfigError::ParseError);
        }
        let first = &members[0];
        let second = &members[1];
        if same_text(first.0.as_str(), SOURCE_KEY) && same_text(second.0.as_str(), DESTINATION_KEY) {
            Ok(Config { source: first.1.clone(), destination: second.1.clone() })
        } else if same_text(first.0.as_str(), DESTINATION_KEY) && same_text(
            second.0.as_str(),
            SOURCE_KEY,
        ) {
            Ok(Config { source: second.1.clone(), destination: first.1.clone() })
        } else {
            Err(ConfigError::ParseError)
        }
    }

    /// Reads a configuration from the text of its file, or fails with
    /// `ParseError`. The text has to be one JSON object with a `source` and
    /// a `destination`, both strings, and no other member. A key that is
    /// written more than once counts once, with the last of its values: the
    /// JSON reader hands the members out as a map.
    pub fn parse(text: &str) -> (r: Result<Config, ConfigError>)
        ensures
            match r {
                Ok(config) => ConfigView::decoded(text@) == Some(config@),
                Err(error) => error == ConfigError::ParseError && ConfigView::decoded(
                    text@,
                ).is_none(),
            },
    {
        match text_members(text) {
            Ok(members) => Config::from_members(&members),
            Err(_) => Err(ConfigError::ParseError),
        }
    }

    /// Loads the configuration from what was found at the path of its file:
    /// `FileNotFound` where nothing was there, `IoError` where it could not
    /// be read, `ParseError` where its text holds no configuration.
    pub fn try_load(read: FileRead) -> (r: Result<Config, ConfigError>)
        ensures
            match r {
                Ok(config) => ConfigView::loaded(read@) == Ok::<ConfigView, ConfigError>(config@),
                Err(error) => ConfigView::loaded(read@) == Err::<ConfigView, ConfigError>(error),
            },
    {
        match read {
            FileRead::Missing => Err(ConfigError::FileNotFound),
            FileRead::Unreadable => Err(ConfigError::IoError),
            FileRead::Text(text) => Config::parse(text.as_str()),
        }
    }

    /// The file that saving this configuration to the base directory `dir`
    /// writes, replacing what was there. This always succeeds; whether the
    /// file can be written is for the caller to find out.
    pub fn save(&self, dir: &str) -> (r: Result<FileWrite, ConfigError>)
        ensures
            r is Ok,
            r matches Ok(file) ==> file.path@ == config_path(dir@) && file.content@
                == self@.rendered(),
    {
        match self.render() {
            Ok(content) => Ok(FileWrite { path: Config::file_in(dir), content }),
            Err(error) => Err(error),
        }
    }
}

} // verus!
