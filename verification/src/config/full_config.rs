//! The resolved configuration: what the commands run with once the
//! command line, the configuration file and the platform's defaults are
//! taken together.

use super::config_file::{
    config_path_from_env_of, config_subpath, ConfigFile, ConfigFileView, ConfigFileWriteError,
    ConfigFileWriteErrorView,
};
use crate::path::{join, joined};
use vstd::prelude::*;
use vstd::string::*;

verus! {

/// A width and a height in pixels: the resolution wallpapers are shown at,
/// or the one a file was recorded in.
#[derive(Clone, Copy, Debug, PartialEq, Eq, Structural)]
pub struct ConfigResolution {
    pub width: i32,
    pub height: i32,
}

/// Where on the screen the player's window is put.
#[derive(Clone, Copy, Debug, PartialEq, Eq, Structural)]
pub struct ConfigOffset {
    pub x: i32,
    pub y: i32,
}

impl Default for ConfigOffset {
    /// The origin.
    fn default() -> (r: Self)
        ensures
            r == (ConfigOffset { x: 0, y: 0 }),
    {
        ConfigOffset { x: 0, y: 0 }
    }
}

impl Default for ConfigResolution {
    /// Full HD.
    fn default() -> (r: Self)
        ensures
            r == (ConfigResolution { width: 1920, height: 1080 }),
    {
        ConfigResolution { width: 1920, height: 1080 }
    }
}

/// The directories given on the command line. Each takes precedence over
/// what the configuration file says.
#[derive(Clone, Debug, PartialEq, Eq)]
pub struct Args {
    /// The directory to look for the wallpapers.
    pub wallpapers_dir: Option<String>,
    /// Where thumbnails and rescaled wallpapers are stored.
    pub cache_dir: Option<String>,
    /// Where the configuration is found.
    pub config_dir: Option<String>,
}

/// `Args` as a mathematical value.
pub ghost struct ArgsView {
    pub wallpapers_dir: Option<Seq<char>>,
    pub cache_dir: Option<Seq<char>>,
    pub config_dir: Option<Seq<char>>,
}

impl View for Args {
    type V = ArgsView;

    open spec fn view(&self) -> ArgsView {
        ArgsView {
            wallpapers_dir: self.wallpapers_dir.deep_view(),
            cache_dir: self.cache_dir.deep_view(),
            config_dir: self.config_dir.deep_view(),
        }
    }
}

/// The configuration that the commands run with.
#[derive(Clone, Debug, PartialEq, Eq)]
pub struct FullConfig {
    /// The control socket of the player, when the configuration file names
    /// one.
    pub socket_path: Option<String>,
    pub cache_dir: String,
    /// The resolution wallpapers are shown at.
    pub resolution: ConfigResolution,
    /// Where on the screen the player's window is put.
    pub offset: ConfigOffset,
    pub wallpapers_dir: String,
    /// The thumbnail cache, a directory of the cache directory.
    pub thumbnails_cache_dir: String,
    /// The rescaled cache, a directory of the cache directory.
    pub wallpapers_rescaled_dir: String,
}

/// A `FullConfig` as a mathematical value.
pub ghost struct FullConfigView {
    pub socket_path: Option<Seq<char>>,
    pub cache_dir: Seq<char>,
    pub resolution: ConfigResolution,
    pub offset: ConfigOffset,
    pub wallpapers_dir: Seq<char>,
    pub thumbnails_cache_dir: Seq<char>,
    pub wallpapers_rescaled_dir: Seq<char>,
}

impl View for FullConfig {
    type V = FullConfigView;

    open spec fn view(&self) -> FullConfigView {
        FullConfigView {
            socket_path: self.socket_path.deep_view(),
            cache_dir: self.cache_dir@,
            resolution: self.resolution,
            offset: self.offset,
            wallpapers_dir: self.wallpapers_dir@,
            thumbnails_cache_dir: self.thumbnails_cache_dir@,
            wallpapers_rescaled_dir: self.wallpapers_rescaled_dir@,
        }
    }
}

/// Why no configuration could be resolved.
#[derive(Clone, Debug, PartialEq, Eq)]
pub enum ConfigReadError {
    /// Nothing says where the configuration file is.
    NoConfigPath,
    /// Nothing says where the cache is.
    CacheDirNotFound,
    /// Nothing says where the wallpapers are.
    WallpaperDirNotProvided,
    /// The thumbnail cache could not be created; what the system said.
    FailedCreateThumbnailDir(String),
    /// The rescaled cache could not be created; what the system said.
    FailedCreateWallpapersRescaleDir(String),
    /// The wallpaper directory does not exist.
    WallpaperDirNotFound,
    /// The default configuration file could not be written.
    ConfigWriteError(ConfigFileWriteError),
}

/// A `ConfigReadError` as a mathematical value.
pub ghost enum ConfigReadErrorView {
    NoConfigPath,
    CacheDirNotFound,
    WallpaperDirNotProvided,
    FailedCreateThumbnailDir(Seq<char>),
    FailedCreateWallpapersRescaleDir(Seq<char>),
    WallpaperDirNotFound,
    ConfigWriteError(ConfigFileWriteErrorView),
}

impl View for ConfigReadError {
    type V = ConfigReadErrorView;

    open spec fn view(&self) -> ConfigReadErrorView {
        match *self {
            ConfigReadError::NoConfigPath => ConfigReadErrorView::NoConfigPath,
            ConfigReadError::CacheDirNotFound => ConfigReadErrorView::CacheDirNotFound,
            ConfigReadError::WallpaperDirNotProvided => ConfigReadErrorView::WallpaperDirNotProvided,
            ConfigReadError::FailedCreateThumbnailDir(text) => {
                ConfigReadErrorView::FailedCreateThumbnailDir(text@)
            },
            ConfigReadError::FailedCreateWallpapersRescaleDir(text) => {
                ConfigReadErrorView::FailedCreateWallpapersRescaleDir(text@)
            },
            ConfigReadError::WallpaperDirNotFound => ConfigReadErrorView::WallpaperDirNotFound,
            ConfigReadError::ConfigWriteError(error) => ConfigReadErrorView::ConfigWriteError(
                error@,
            ),
        }
    }
}

impl ConfigReadErrorView {
    /// The message of the error.
    pub open spec fn message(self) -> Seq<char> {
        match self {
            ConfigReadErrorView::NoConfigPath => {
                "Could not resolve the config directory. Either provide it as a command line argument (through --config-dir), or set either the XDG_CONFIG_HOME or HOME environment variables"@
            },
            ConfigReadErrorView::CacheDirNotFound => {
                "Could not resolve the cache directory. Provide it in the configuration file or through --cache-dir"@
            },
            ConfigReadErrorView::WallpaperDirNotProvided => {
                "Could not resolve the wallpapers directory. Provide it in the configuration file or through --wallpapers-dir"@
            },
            ConfigReadErrorView::FailedCreateThumbnailDir(text) => {
                "Failed to create thumbnails cache directory: "@ + text
            },
            ConfigReadErrorView::FailedCreateWallpapersRescaleDir(text) => {
                "Failed to create wallpapers rescaled cache directory: "@ + text
            },
            ConfigReadErrorView::WallpaperDirNotFound => "Wallpapers directory does not exist"@,
            ConfigReadErrorView::ConfigWriteError(error) => error.message(),
        }
    }
}

impl ConfigReadError {
    /// The message of the error.
    pub fn message(&self) -> (r: String)
        ensures
            r@ == self@.message(),
    {
        match self {
            ConfigReadError::NoConfigPath => {
                "Could not resolve the config directory. Either provide it as a command line argument (through --config-dir), or set either the XDG_CONFIG_HOME or HOME environment variables".to_owned()
            },
            ConfigReadError::CacheDirNotFound => {
                "Could not resolve the cache directory. Provide it in the configuration file or through --cache-dir".to_owned()
            },
            ConfigReadError::WallpaperDirNotProvided => {
                "Could not resolve the wallpapers directory. Provide it in the configuration file or through --wallpapers-dir".to_owned()
            },
            ConfigReadError::FailedCreateThumbnailDir(text) => {
                "Failed to create thumbnails cache directory: ".to_owned().concat(text.as_str())
            },
            ConfigReadError::FailedCreateWallpapersRescaleDir(text) => {
                "Failed to create wallpapers rescaled cache directory: ".to_owned().concat(
                    text.as_str(),
                )
            },
            ConfigReadError::WallpaperDirNotFound => {
                "Wallpapers directory does not exist".to_owned()
            },
            ConfigReadError::ConfigWriteError(error) => error.message(),
        }
    }
}

/// The platform's directory of configuration files, by `dirs::config_dir`,
/// which asks the environment. Nothing is claimed of the result.
#[verifier::external_body]
fn platform_config_dir() -> Option<String> {
    dirs::config_dir().map(|dir| dir.to_string_lossy().into_owned())
}

/// The platform's directory of caches, by `dirs::cache_dir`, which asks
/// the environment. Nothing is claimed of the result.
#[verifier::external_body]
fn platform_cache_dir() -> Option<String> {
    dirs::cache_dir().map(|dir| dir.to_string_lossy().into_owned())
}

/// The first of two optional values that is present.
pub open spec fn preferred_of(first: Option<Seq<char>>, second: Option<Seq<char>>) -> Option<Seq<char>> {
    if first is Some {
        first
    } else {
        second
    }
}

fn preferred(first: Option<String>, second: Option<String>) -> (r: Option<String>)
    ensures
        r.deep_view() == preferred_of(first.deep_view(), second.deep_view()),
{
    match first {
        Some(value) => Some(value),
        None => second,
    }
}

/// The configuration file below the platform's directory of configuration
/// files, when the platform has one.
pub open spec fn platform_config_path_of(platform: Option<Seq<char>>) -> Option<Seq<char>> {
    match platform {
        Some(dir) => Some(joined(dir, config_subpath())),
        None => None,
    }
}

/// The path of the configuration file: what the command line gives, else
/// what the environment gives, else the file below the platform's
/// directory of configuration files; an error when none of them is there.
pub open spec fn config_file_path_of(
    config_dir: Option<Seq<char>>,
    xdg_config_home: Option<Seq<char>>,
    home: Option<Seq<char>>,
    platform: Option<Seq<char>>,
) -> Result<Seq<char>, ConfigReadErrorView> {
    match preferred_of(
        preferred_of(config_dir, config_path_from_env_of(xdg_config_home, home)),
        platform_config_path_of(platform),
    ) {
        Some(path) => Ok(path),
        None => Err(ConfigReadErrorView::NoConfigPath),
    }
}

/// The view of a resolved path.
pub open spec fn path_view(r: Result<String, ConfigReadError>) -> Result<
    Seq<char>,
    ConfigReadErrorView,
> {
    match r {
        Ok(path) => Ok(path@),
        Err(error) => Err(error@),
    }
}

/// The path of the configuration file, with `platform` for the platform's
/// directory of configuration files.
pub fn choose_config_file_path(
    config_dir: Option<String>,
    xdg_config_home: Option<String>,
    home: Option<String>,
    platform: Option<String>,
) -> (r: Result<String, ConfigReadError>)
    ensures
        path_view(r) == config_file_path_of(
            config_dir.deep_view(),
            xdg_config_home.deep_view(),
            home.deep_view(),
            platform.deep_view(),
        ),
{
    let from_env = ConfigFile::resolve_config_path_from_env(xdg_config_home, home);
    let from_platform = match platform {
        Some(dir) => Some(join(dir.as_str(), "wallpaper-manager/config.toml")),
        None => None,
    };
    match preferred(preferred(config_dir, from_env), from_platform) {
        Some(path) => Ok(path),
        None => Err(ConfigReadError::NoConfigPath),
    }
}

/// The path of the configuration file, from the command line's
/// `config_dir` and the values of `XDG_CONFIG_HOME` and `HOME`. The
/// platform is asked only when all three are absent, and what it answers
/// decides then.
pub fn config_file_path(
    config_dir: Option<String>,
    xdg_config_home: Option<String>,
    home: Option<String>,
) -> (r: Result<String, ConfigReadError>)
    ensures
        exists|platform: Option<Seq<char>>|
            path_view(r) == config_file_path_of(
                config_dir.deep_view(),
                xdg_config_home.deep_view(),
                home.deep_view(),
                platform,
            ),
        config_dir is Some || xdg_config_home is Some || home is Some ==> path_view(r)
            == config_file_path_of(
            config_dir.deep_view(),
            xdg_config_home.deep_view(),
            home.deep_view(),
            None,
        ),
{
    if config_dir.is_some() || xdg_config_home.is_some() || home.is_some() {
        let r = choose_config_file_path(config_dir, xdg_config_home, home, None);
        assert(path_view(r) == config_file_path_of(
            config_dir.deep_view(),
            xdg_config_home.deep_view(),
            home.deep_view(),
            None::<String>.deep_view(),
        ));
        r
    } else {
        let platform = platform_config_dir();
        let r = choose_config_file_path(config_dir, xdg_config_home, home, platform);
        assert(path_view(r) == config_file_path_of(
            config_dir.deep_view(),
            xdg_config_home.deep_view(),
            home.deep_view(),
            platform.deep_view(),
        ));
        r
    }
}

/// What is asked when no configuration file is found at `path`.
pub open spec fn missing_config_question_of(path: Seq<char>) -> Seq<char> {
    "Could not find a configuration file at "@ + path
        + ". Would you like to create a default configuration at this location?"@
}

/// What is asked when no configuration file is found at `path`.
pub fn missing_config_question(path: &str) -> (r: String)
    ensures
        r@ == missing_config_question_of(path@),
{
    "Could not find a configuration file at ".to_owned().concat(path).concat(
        ". Would you like to create a default configuration at this location?",
    )
}

/// The name of the thumbnail cache within the cache directory.
pub open spec fn thumbnails_subdir() -> Seq<char> {
    "wallpapers-thumbnail"@
}

/// The name of the rescaled cache within the cache directory.
pub open spec fn rescaled_subdir() -> Seq<char> {
    "wallpapers-rescaled"@
}

/// The configuration resolved from the command line `args`, the
/// configuration file `file` and the platform's cache directory
/// `platform_cache_dir`. For the cache directory the command line comes
/// first, then the file, then the platform; for the wallpaper directory
/// the command line, then the file. Both caches lie in the cache
/// directory. A missing cache directory is found before a missing
/// wallpaper directory. Resolution and offset are the file's, or the
/// defaults.
pub open spec fn resolved(
    args: ArgsView,
    file: ConfigFileView,
    platform_cache_dir: Option<Seq<char>>,
) -> Result<FullConfigView, ConfigReadErrorView> {
    match preferred_of(preferred_of(args.cache_dir, file.cache_dir), platform_cache_dir) {
        None => Err(ConfigReadErrorView::CacheDirNotFound),
        Some(cache_dir) => match preferred_of(args.wallpapers_dir, file.wallpapers_dir) {
            None => Err(ConfigReadErrorView::WallpaperDirNotProvided),
            Some(wallpapers_dir) => Ok(
                FullConfigView {
                    socket_path: file.socket_path,
                    cache_dir,
                    resolution: match file.resolution {
                        Some(resolution) => resolution,
                        None => ConfigResolution { width: 1920, height: 1080 },
                    },
                    offset: match file.offset {
                        Some(offset) => offset,
                        None => ConfigOffset { x: 0, y: 0 },
                    },
                    wallpapers_dir,
                    thumbnails_cache_dir: joined(cache_dir, thumbnails_subdir()),
                    wallpapers_rescaled_dir: joined(cache_dir, rescaled_subdir()),
                },
            ),
        },
    }
}

/// The view of a resolved configuration.
pub open spec fn config_view(r: Result<FullConfig, ConfigReadError>) -> Result<
    FullConfigView,
    ConfigReadErrorView,
> {
    match r {
        Ok(config) => Ok(config@),
        Err(error) => Err(error@),
    }
}

/// Resolves the configuration, with `platform_cache_dir` for the
/// platform's cache directory.
pub fn resolve(args: &Args, file: ConfigFile, platform_cache_dir: Option<String>) -> (r: Result<
    FullConfig,
    ConfigReadError,
>)
    ensures
        config_view(r) == resolved(args@, file@, platform_cache_dir.deep_view()),
{
    let cache_dir = match preferred(preferred(args.cache_dir.clone(), file.cache_dir), platform_cache_dir) {
        Some(dir) => dir,
        None => {
            return Err(ConfigReadError::CacheDirNotFound);
        },
    };
    let wallpapers_dir = match preferred(args.wallpapers_dir.clone(), file.wallpapers_dir) {
        Some(dir) => dir,
        None => {
            return Err(ConfigReadError::WallpaperDirNotProvided);
        },
    };
    let thumbnails_cache_dir = join(cache_dir.as_str(), "wallpapers-thumbnail");
    let wallpapers_rescaled_dir = join(cache_dir.as_str(), "wallpapers-rescaled");
    Ok(
        FullConfig {
            socket_path: file.socket_path,
            cache_dir,
            resolution: match file.resolution {
                Some(resolution) => resolution,
                None => ConfigResolution::default(),
            },
            offset: match file.offset {
                Some(offset) => offset,
                None => ConfigOffset::default(),
            },
            wallpapers_dir,
            thumbnails_cache_dir,
            wallpapers_rescaled_dir,
        },
    )
}

/// Resolves the configuration that the commands run with from the command
/// line and the configuration file. The platform is asked for its cache
/// directory only when neither names one, and what it answers decides
/// then.
pub fn read(args: &Args, file: ConfigFile) -> (r: Result<FullConfig, ConfigReadError>)
    ensures
        exists|platform: Option<Seq<char>>| config_view(r) == resolved(args@, file@, platform),
        args.cache_dir is Some || file.cache_dir is Some ==> config_view(r) == resolved(
            args@,
            file@,
            None,
        ),
{
    if args.cache_dir.is_some() || file.cache_dir.is_some() {
        let ghost before = file@;
        let r = resolve(args, file, None);
        assert(config_view(r) == resolved(args@, before, None::<String>.deep_view()));
        r
    } else {
        let ghost before = file@;
        let platform = platform_cache_dir();
        let r = resolve(args, file, platform);
        assert(config_view(r) == resolved(args@, before, platform.deep_view()));
        r
    }
}

impl FullConfig {
    /// The configuration, unless the wallpaper directory does not exist.
    pub fn checked(self, wallpapers_dir_exists: bool) -> (r: Result<FullConfig, ConfigReadError>)
        ensures
            config_view(r) == if wallpapers_dir_exists {
                Ok::<FullConfigView, ConfigReadErrorView>(self@)
            } else {
                Err::<FullConfigView, ConfigReadErrorView>(
                    ConfigReadErrorView::WallpaperDirNotFound,
                )
            },
    {
        if wallpapers_dir_exists {
            Ok(self)
        } else {
            Err(ConfigReadError::WallpaperDirNotFound)
        }
    }

    /// The directory that the picker shows: the wallpapers themselves for
    /// a static image, the thumbnails otherwise.
    pub fn picker_dir(&self, is_static: bool) -> (dir: String)
        ensures
            dir@ == if is_static {
                self@.wallpapers_dir
            } else {
                self@.thumbnails_cache_dir
            },
    {
        if is_static {
            self.wallpapers_dir.clone()
        } else {
            self.thumbnails_cache_dir.clone()
        }
    }

    /// The path of the wallpaper named `name`.
    pub fn wallpaper_path(&self, name: &str) -> (path: String)
        ensures
            path@ == joined(self@.wallpapers_dir, name@),
    {
        join(self.wallpapers_dir.as_str(), name)
    }

    /// The path of the thumbnail cache entry `key`.
    pub fn thumbnail_path(&self, key: &str) -> (path: String)
        ensures
            path@ == joined(self@.thumbnails_cache_dir, key@),
    {
        join(self.thumbnails_cache_dir.as_str(), key)
    }

    /// The path of the rescaled cache entry `key`.
    pub fn rescaled_path(&self, key: &str) -> (path: String)
        ensures
            path@ == joined(self@.wallpapers_rescaled_dir, key@),
    {
        join(self.wallpapers_rescaled_dir.as_str(), key)
    }
}

} // verus!
