//! The configuration file: what it holds, where it is looked for, and what
//! can go wrong reading and writing it.

use super::full_config::{ConfigOffset, ConfigResolution};
use crate::path::{join, joined};
use crate::utils::{failure_kind, failure_of, text_of, IoFailure};
use vstd::prelude::*;
use vstd::string::*;

verus! {

/// The environment variable that names the base directory of
/// configuration files.
pub const ENV_VAR_XDG_CONFIG_DIR: &'static str = "XDG_CONFIG_HOME";

/// The environment variable that names the home directory.
pub const ENV_VAR_HOME: &'static str = "HOME";

/// What the configuration file holds. Every field may be left out.
#[derive(Clone, Debug, PartialEq, Eq)]
pub struct ConfigFile {
    pub wallpapers_dir: Option<String>,
    pub cache_dir: Option<String>,
    pub socket_path: Option<String>,
    pub resolution: Option<ConfigResolution>,
    pub offset: Option<ConfigOffset>,
}

/// A `ConfigFile` as a mathematical value.
pub ghost struct ConfigFileView {
    pub wallpapers_dir: Option<Seq<char>>,
    pub cache_dir: Option<Seq<char>>,
    pub socket_path: Option<Seq<char>>,
    pub resolution: Option<ConfigResolution>,
    pub offset: Option<ConfigOffset>,
}

impl View for ConfigFile {
    type V = ConfigFileView;

    open spec fn view(&self) -> ConfigFileView {
        ConfigFileView {
            wallpapers_dir: self.wallpapers_dir.deep_view(),
            cache_dir: self.cache_dir.deep_view(),
            socket_path: self.socket_path.deep_view(),
            resolution: self.resolution,
            offset: self.offset,
        }
    }
}

impl Default for ConfigFile {
    /// The configuration file that states nothing.
    fn default() -> (r: Self)
        ensures
            r@ == (ConfigFileView {
                wallpapers_dir: None,
                cache_dir: None,
                socket_path: None,
                resolution: None,
                offset: None,
            }),
    {
        ConfigFile {
            wallpapers_dir: None,
            cache_dir: None,
            socket_path: None,
            resolution: None,
            offset: None,
        }
    }
}

/// Where the configuration file lies below the base directory of
/// configuration files.
pub open spec fn config_subpath() -> Seq<char> {
    "wallpaper-manager/config.toml"@
}

/// The path of the configuration file as the environment gives it: below
/// `xdg_config_home` when that is set, else below `.config` in `home` when
/// that is set, else none.
pub open spec fn config_path_from_env_of(
    xdg_config_home: Option<Seq<char>>,
    home: Option<Seq<char>>,
) -> Option<Seq<char>> {
    match xdg_config_home {
        Some(base) => Some(joined(base, config_subpath())),
        None => match home {
            Some(base) => Some(joined(joined(base, ".config"@), config_subpath())),
            None => None,
        },
    }
}

impl ConfigFile {
    /// The path of the configuration file as the environment gives it,
    /// from the values of `XDG_CONFIG_HOME` and `HOME`.
    pub fn resolve_config_path_from_env(xdg_config_home: Option<String>, home: Option<String>) -> (r:
        Option<String>)
        ensures
            r.deep_view() == config_path_from_env_of(xdg_config_home.deep_view(), home.deep_view()),
    {
        match xdg_config_home {
            Some(base) => Some(join(base.as_str(), "wallpaper-manager/config.toml")),
            None => match home {
                Some(base) => Some(
                    join(join(base.as_str(), ".config").as_str(), "wallpaper-manager/config.toml"),
                ),
                None => None,
            },
        }
    }
}

/// Why the configuration file could not be read.
#[derive(Clone, Debug, PartialEq, Eq)]
pub enum ConfigFileReadError {
    /// No file at this path.
    ConfigFileNotFound(String),
    /// The file at this path may not be read.
    ConfigFilePermissionDenied(String),
    /// The file is no valid configuration; what the parser said.
    ParsingError(String),
    /// Any other failure; what the system said.
    IoError(String),
}

/// A `ConfigFileReadError` as a mathematical value.
pub ghost enum ConfigFileReadErrorView {
    ConfigFileNotFound(Seq<char>),
    ConfigFilePermissionDenied(Seq<char>),
    ParsingError(Seq<char>),
    IoError(Seq<char>),
}

impl View for ConfigFileReadError {
    type V = ConfigFileReadErrorView;

    open spec fn view(&self) -> ConfigFileReadErrorView {
        match *self {
            ConfigFileReadError::ConfigFileNotFound(path) => {
                ConfigFileReadErrorView::ConfigFileNotFound(path@)
            },
            ConfigFileReadError::ConfigFilePermissionDenied(path) => {
                ConfigFileReadErrorView::ConfigFilePermissionDenied(path@)
            },
            ConfigFileReadError::ParsingError(text) => ConfigFileReadErrorView::ParsingError(text@),
            ConfigFileReadError::IoError(text) => ConfigFileReadErrorView::IoError(text@),
        }
    }
}

impl ConfigFileReadErrorView {
    /// The message of the error.
    pub open spec fn message(self) -> Seq<char> {
        match self {
            ConfigFileReadErrorView::ConfigFileNotFound(path) => {
                "No configuration file found at "@ + path
            },
            ConfigFileReadErrorView::ConfigFilePermissionDenied(path) => {
                "Could not open configuration file at "@ + path + ". Permission Denied"@
            },
            ConfigFileReadErrorView::ParsingError(text) => {
                "Failed to parse configuration file. Error: "@ + text
            },
            ConfigFileReadErrorView::IoError(text) => text,
        }
    }
}

/// The error for a failed read of the configuration file at `path`: that
/// the file may not be read, that it was not found, or else what the
/// system said, `text`.
pub open spec fn read_failure_of(path: Seq<char>, failure: IoFailure, text: Seq<char>) ->
    ConfigFileReadErrorView {
    match failure {
        IoFailure::PermissionDenied => ConfigFileReadErrorView::ConfigFilePermissionDenied(path),
        IoFailure::NotFound => ConfigFileReadErrorView::ConfigFileNotFound(path),
        IoFailure::Other => ConfigFileReadErrorView::IoError(text),
    }
}

impl ConfigFileReadError {
    /// The message of the error.
    pub fn message(&self) -> (r: String)
        ensures
            r@ == self@.message(),
    {
        match self {
            ConfigFileReadError::ConfigFileNotFound(path) => {
                "No configuration file found at ".to_owned().concat(path.as_str())
            },
            ConfigFileReadError::ConfigFilePermissionDenied(path) => {
                "Could not open configuration file at ".to_owned().concat(path.as_str()).concat(
                    ". Permission Denied",
                )
            },
            ConfigFileReadError::ParsingError(text) => {
                "Failed to parse configuration file. Error: ".to_owned().concat(text.as_str())
            },
            ConfigFileReadError::IoError(text) => text.clone(),
        }
    }

    /// The error for a read of the file at `path` that failed in the way
    /// `failure`, of which the system said `text`.
    pub fn from_failure(path: &str, failure: IoFailure, text: String) -> (r: ConfigFileReadError)
        ensures
            r@ == read_failure_of(path@, failure, text@),
    {
        match failure {
            IoFailure::PermissionDenied => ConfigFileReadError::ConfigFilePermissionDenied(
                path.to_owned(),
            ),
            IoFailure::NotFound => ConfigFileReadError::ConfigFileNotFound(path.to_owned()),
            IoFailure::Other => ConfigFileReadError::IoError(text),
        }
    }

    /// The error for a read of the file at `path` that ended with `err`:
    /// the kind of `err` decides which error it is, and what the system
    /// says of `err` is its text where it has one.
    pub fn from_error(path: &str, err: std::io::Error) -> (r: ConfigFileReadError)
        ensures
            exists|text: Seq<char>| r@ == read_failure_of(path@, failure_kind(err), text),
    {
        let failure = failure_of(&err);
        let text = text_of(&err);
        ConfigFileReadError::from_failure(path, failure, text)
    }
}

/// Why the configuration file could not be written.
#[derive(Clone, Debug, PartialEq, Eq)]
pub enum ConfigFileWriteError {
    /// The directory of the file may not be created; what the system said.
    DirPermissionDenied(String),
    /// The directory at this path could not be created; what the system
    /// said.
    IoCreateDirError(String, String),
    /// The file at this path could not be written; what the system said.
    IoWriteFileError(String, String),
    /// The file at this path may not be written; what the system said.
    FileWriteFileError(String, String),
}

/// A `ConfigFileWriteError` as a mathematical value.
pub ghost enum ConfigFileWriteErrorView {
    DirPermissionDenied(Seq<char>),
    IoCreateDirError(Seq<char>, Seq<char>),
    IoWriteFileError(Seq<char>, Seq<char>),
    FileWriteFileError(Seq<char>, Seq<char>),
}

impl View for ConfigFileWriteError {
    type V = ConfigFileWriteErrorView;

    open spec fn view(&self) -> ConfigFileWriteErrorView {
        match *self {
            ConfigFileWriteError::DirPermissionDenied(text) => {
                ConfigFileWriteErrorView::DirPermissionDenied(text@)
            },
            ConfigFileWriteError::IoCreateDirError(path, text) => {
                ConfigFileWriteErrorView::IoCreateDirError(path@, text@)
            },
            ConfigFileWriteError::IoWriteFileError(path, text) => {
                ConfigFileWriteErrorView::IoWriteFileError(path@, text@)
            },
            ConfigFileWriteError::FileWriteFileError(path, text) => {
                ConfigFileWriteErrorView::FileWriteFileError(path@, text@)
            },
        }
    }
}

impl ConfigFileWriteErrorView {
    /// The message of the error.
    pub open spec fn message(self) -> Seq<char> {
        match self {
            ConfigFileWriteErrorView::DirPermissionDenied(text) => {
                "Permission denied when writing configuration directory at "@ + text
            },
            ConfigFileWriteErrorView::IoCreateDirError(path, text) => {
                "Could not create configuration file directory at "@ + path + ": "@ + text
            },
            ConfigFileWriteErrorView::IoWriteFileError(path, text) => {
                "Could not write configuration file at "@ + path + ": "@ + text
            },
            ConfigFileWriteErrorView::FileWriteFileError(path, text) => {
                "Permission denied when writing configuration at "@ + path + ": "@ + text
            },
        }
    }
}

/// The error for a failed creation of the directory `parent` of the
/// configuration file.
pub open spec fn create_dir_failure_of(parent: Seq<char>, failure: IoFailure, text: Seq<char>) ->
    ConfigFileWriteErrorView {
    if failure == IoFailure::PermissionDenied {
        ConfigFileWriteErrorView::DirPermissionDenied(text)
    } else {
        ConfigFileWriteErrorView::IoCreateDirError(parent, text)
    }
}

/// The error for a failed write of the configuration file at `path`.
pub open spec fn write_failure_of(path: Seq<char>, failure: IoFailure, text: Seq<char>) ->
    ConfigFileWriteErrorView {
    if failure == IoFailure::PermissionDenied {
        ConfigFileWriteErrorView::FileWriteFileError(path, text)
    } else {
        ConfigFileWriteErrorView::IoWriteFileError(path, text)
    }
}

impl ConfigFileWriteError {
    /// The message of the error.
    pub fn message(&self) -> (r: String)
        ensures
            r@ == self@.message(),
    {
        match self {
            ConfigFileWriteError::DirPermissionDenied(text) => {
                "Permission denied when writing configuration directory at ".to_owned().concat(
                    text.as_str(),
                )
            },
            ConfigFileWriteError::IoCreateDirError(path, text) => {
                "Could not create configuration file directory at ".to_owned().concat(
                    path.as_str(),
                ).concat(": ").concat(text.as_str())
            },
            ConfigFileWriteError::IoWriteFileError(path, text) => {
                "Could not write configuration file at ".to_owned().concat(path.as_str()).concat(
                    ": ",
                ).concat(text.as_str())
            },
            ConfigFileWriteError::FileWriteFileError(path, text) => {
                "Permission denied when writing configuration at ".to_owned().concat(
                    path.as_str(),
                ).concat(": ").concat(text.as_str())
            },
        }
    }

    /// The error for a creation of the directory `parent` that failed in
    /// the way `failure`, of which the system said `text`.
    pub fn from_create_dir_failure(parent: &str, failure: IoFailure, text: String) -> (r:
        ConfigFileWriteError)
        ensures
            r@ == create_dir_failure_of(parent@, failure, text@),
    {
        match failure {
            IoFailure::PermissionDenied => ConfigFileWriteError::DirPermissionDenied(text),
            _ => ConfigFileWriteError::IoCreateDirError(parent.to_owned(), text),
        }
    }

    /// The error for a creation of the directory `parent` that ended with
    /// `err`: the kind of `err` decides which error it is, and what the
    /// system says of `err` is its text.
    pub fn from_create_dir_error(parent: &str, err: std::io::Error) -> (r: ConfigFileWriteError)
        ensures
            exists|text: Seq<char>| r@ == create_dir_failure_of(parent@, failure_kind(err), text),
    {
        let failure = failure_of(&err);
        let text = text_of(&err);
        ConfigFileWriteError::from_create_dir_failure(parent, failure, text)
    }

    /// The error for a write of the file at `path` that failed in the way
    /// `failure`, of which the system said `text`.
    pub fn from_write_failure(path: &str, failure: IoFailure, text: String) -> (r:
        ConfigFileWriteError)
        ensures
            r@ == write_failure_of(path@, failure, text@),
    {
        match failure {
            IoFailure::PermissionDenied => ConfigFileWriteError::FileWriteFileError(
                path.to_owned(),
                text,
            ),
            _ => ConfigFileWriteError::IoWriteFileError(path.to_owned(), text),
        }
    }

    /// The error for a write of the file at `path` that ended with `err`:
    /// the kind of `err` decides which error it is, and what the system
    /// says of `err` is its text.
    pub fn from_write_error(path: &str, err: std::io::Error) -> (r: ConfigFileWriteError)
        ensures
            exists|text: Seq<char>| r@ == write_failure_of(path@, failure_kind(err), text),
    {
        let failure = failure_of(&err);
        let text = text_of(&err);
        ConfigFileWriteError::from_write_failure(path, failure, text)
    }
}

} // verus!
