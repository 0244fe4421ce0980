use std::io::{Error, ErrorKind};
use wallpaper_manager::config::config_file::{
    ConfigFileReadError, ConfigFileWriteError, ENV_VAR_HOME, ENV_VAR_XDG_CONFIG_DIR,
};
use wallpaper_manager::config::full_config::{
    choose_config_file_path, config_file_path, missing_config_question, read, resolve, Args,
    ConfigReadError, FullConfig,
};
use wallpaper_manager::config::{ConfigFile, ConfigOffset, ConfigResolution};
use wallpaper_manager::utils::IoFailure;

fn some(text: &str) -> Option<String> {
    Some(text.to_string())
}

fn no_args() -> Args {
    Args { wallpapers_dir: None, cache_dir: None, config_dir: None }
}

fn platform_dir(dir: Option<std::path::PathBuf>) -> Option<String> {
    dir.map(|dir| dir.to_string_lossy().into_owned())
}

#[test]
fn defaults() {
    assert_eq!(ConfigResolution::default(), ConfigResolution { width: 1920, height: 1080 });
    assert_eq!(ConfigOffset::default(), ConfigOffset { x: 0, y: 0 });
    assert_eq!(
        ConfigFile::default(),
        ConfigFile {
            wallpapers_dir: None,
            cache_dir: None,
            socket_path: None,
            resolution: None,
            offset: None,
        }
    );
}

#[test]
fn environment_names() {
    assert_eq!(ENV_VAR_XDG_CONFIG_DIR, "XDG_CONFIG_HOME");
    assert_eq!(ENV_VAR_HOME, "HOME");
}

#[test]
fn config_path_from_the_environment() {
    assert_eq!(
        ConfigFile::resolve_config_path_from_env(some("/xdg"), some("/home/u")),
        some("/xdg/wallpaper-manager/config.toml")
    );
    assert_eq!(
        ConfigFile::resolve_config_path_from_env(None, some("/home/u")),
        some("/home/u/.config/wallpaper-manager/config.toml")
    );
    assert_eq!(
        ConfigFile::resolve_config_path_from_env(some("/xdg/"), None),
        some("/xdg/wallpaper-manager/config.toml")
    );
    assert_eq!(ConfigFile::resolve_config_path_from_env(None, None), None);
}

#[test]
fn config_path_precedence() {
    assert_eq!(
        choose_config_file_path(some("/cli.toml"), some("/xdg"), some("/home/u"), some("/p")),
        Ok("/cli.toml".to_string())
    );
    assert_eq!(
        choose_config_file_path(None, some("/xdg"), some("/home/u"), some("/p")),
        Ok("/xdg/wallpaper-manager/config.toml".to_string())
    );
    assert_eq!(
        choose_config_file_path(None, None, some("/home/u"), some("/p")),
        Ok("/home/u/.config/wallpaper-manager/config.toml".to_string())
    );
    assert_eq!(
        choose_config_file_path(None, None, None, some("/p")),
        Ok("/p/wallpaper-manager/config.toml".to_string())
    );
    assert_eq!(choose_config_file_path(None, None, None, None), Err(ConfigReadError::NoConfigPath));
}

#[test]
fn config_path_without_asking_the_platform() {
    assert_eq!(config_file_path(some("/cli.toml"), None, None), Ok("/cli.toml".to_string()));
    assert_eq!(
        config_file_path(None, some("/xdg"), None),
        Ok("/xdg/wallpaper-manager/config.toml".to_string())
    );
    assert_eq!(
        config_file_path(None, None, some("/home/u")),
        Ok("/home/u/.config/wallpaper-manager/config.toml".to_string())
    );
}

#[test]
fn config_path_of_the_platform() {
    assert_eq!(
        config_file_path(None, None, None).ok(),
        dirs::config_dir()
            .map(|dir| dir.join("wallpaper-manager/config.toml").to_string_lossy().into_owned())
    );
}

#[test]
fn resolved_configuration() {
    let args = Args { wallpapers_dir: some("/cli/w"), cache_dir: some("/cli/c"), config_dir: None };
    let file = ConfigFile {
        wallpapers_dir: some("/file/w"),
        cache_dir: some("/file/c"),
        socket_path: some("/tmp/socket"),
        resolution: Some(ConfigResolution { width: 1280, height: 720 }),
        offset: Some(ConfigOffset { x: 3, y: -4 }),
    };
    assert_eq!(
        resolve(&args, file, some("/platform/c")),
        Ok(FullConfig {
            socket_path: some("/tmp/socket"),
            cache_dir: "/cli/c".to_string(),
            resolution: ConfigResolution { width: 1280, height: 720 },
            offset: ConfigOffset { x: 3, y: -4 },
            wallpapers_dir: "/cli/w".to_string(),
            thumbnails_cache_dir: "/cli/c/wallpapers-thumbnail".to_string(),
            wallpapers_rescaled_dir: "/cli/c/wallpapers-rescaled".to_string(),
        })
    );
}

#[test]
fn the_file_comes_after_the_command_line() {
    let file = ConfigFile {
        wallpapers_dir: some("/file/w"),
        cache_dir: some("/file/c"),
        ..ConfigFile::default()
    };
    let config = resolve(&no_args(), file, some("/platform/c")).unwrap();
    assert_eq!(config.cache_dir, "/file/c");
    assert_eq!(config.wallpapers_dir, "/file/w");
    assert_eq!(config.thumbnails_cache_dir, "/file/c/wallpapers-thumbnail");
    assert_eq!(config.wallpapers_rescaled_dir, "/file/c/wallpapers-rescaled");
    assert_eq!(config.resolution, ConfigResolution { width: 1920, height: 1080 });
    assert_eq!(config.offset, ConfigOffset { x: 0, y: 0 });
    assert_eq!(config.socket_path, None);
}

#[test]
fn the_platform_comes_last() {
    let file = ConfigFile { wallpapers_dir: some("/file/w"), ..ConfigFile::default() };
    let config = resolve(&no_args(), file, some("/platform/c")).unwrap();
    assert_eq!(config.cache_dir, "/platform/c");
    assert_eq!(config.thumbnails_cache_dir, "/platform/c/wallpapers-thumbnail");
}

#[test]
fn no_cache_directory() {
    let file = ConfigFile { wallpapers_dir: some("/file/w"), ..ConfigFile::default() };
    assert_eq!(resolve(&no_args(), file, None), Err(ConfigReadError::CacheDirNotFound));
    assert_eq!(
        resolve(&no_args(), ConfigFile::default(), None),
        Err(ConfigReadError::CacheDirNotFound)
    );
}

#[test]
fn no_wallpaper_directory() {
    let file = ConfigFile { cache_dir: some("/file/c"), ..ConfigFile::default() };
    assert_eq!(resolve(&no_args(), file, None), Err(ConfigReadError::WallpaperDirNotProvided));
    assert_eq!(
        resolve(&no_args(), ConfigFile::default(), some("/platform/c")),
        Err(ConfigReadError::WallpaperDirNotProvided)
    );
}

#[test]
fn read_without_asking_the_platform() {
    let args = Args { wallpapers_dir: some("/w"), cache_dir: some("/c"), config_dir: None };
    let config = read(&args, ConfigFile::default()).unwrap();
    assert_eq!(config.cache_dir, "/c");
    assert_eq!(config.wallpapers_dir, "/w");
    assert_eq!(config.thumbnails_cache_dir, "/c/wallpapers-thumbnail");
    let args = Args { wallpapers_dir: None, cache_dir: some("/c"), config_dir: None };
    assert_eq!(read(&args, ConfigFile::default()), Err(ConfigReadError::WallpaperDirNotProvided));
}

#[test]
fn read_with_the_platforms_cache() {
    let args = Args { wallpapers_dir: some("/w"), cache_dir: None, config_dir: None };
    let config = read(&args, ConfigFile::default());
    match platform_dir(dirs::cache_dir()) {
        Some(dir) => assert_eq!(config.unwrap().cache_dir, dir),
        None => assert_eq!(config, Err(ConfigReadError::CacheDirNotFound)),
    }
}

#[test]
fn missing_wallpaper_directory() {
    let args = Args { wallpapers_dir: some("/w"), cache_dir: some("/c"), config_dir: None };
    let config = read(&args, ConfigFile::default()).unwrap();
    assert_eq!(config.clone().checked(true), Ok(config.clone()));
    assert_eq!(config.checked(false), Err(ConfigReadError::WallpaperDirNotFound));
}

#[test]
fn paths_below_the_configured_directories() {
    let args = Args { wallpapers_dir: some("/w"), cache_dir: some("/c/"), config_dir: None };
    let config = read(&args, ConfigFile::default()).unwrap();
    assert_eq!(config.wallpaper_path("clip.mp4"), "/w/clip.mp4");
    assert_eq!(config.thumbnail_path("clip.jpg"), "/c/wallpapers-thumbnail/clip.jpg");
    assert_eq!(config.rescaled_path("clip.mp4"), "/c/wallpapers-rescaled/clip.mp4");
}

#[test]
fn question_for_a_missing_file() {
    assert_eq!(
        missing_config_question("/xdg/wallpaper-manager/config.toml"),
        "Could not find a configuration file at /xdg/wallpaper-manager/config.toml. Would you like to create a default configuration at this location?"
    );
}

#[test]
fn config_read_error_messages() {
    assert_eq!(
        ConfigReadError::NoConfigPath.message(),
        "Could not resolve the config directory. Either provide it as a command line argument (through --config-dir), or set either the XDG_CONFIG_HOME or HOME environment variables"
    );
    assert_eq!(
        ConfigReadError::CacheDirNotFound.message(),
        "Could not resolve the cache directory. Provide it in the configuration file or through --cache-dir"
    );
    assert_eq!(
        ConfigReadError::WallpaperDirNotProvided.message(),
        "Could not resolve the wallpapers directory. Provide it in the configuration file or through --wallpapers-dir"
    );
    assert_eq!(
        ConfigReadError::FailedCreateThumbnailDir("denied".to_string()).message(),
        "Failed to create thumbnails cache directory: denied"
    );
    assert_eq!(
        ConfigReadError::FailedCreateWallpapersRescaleDir("denied".to_string()).message(),
        "Failed to create wallpapers rescaled cache directory: denied"
    );
    assert_eq!(
        ConfigReadError::WallpaperDirNotFound.message(),
        "Wallpapers directory does not exist"
    );
    assert_eq!(
        ConfigReadError::ConfigWriteError(ConfigFileWriteError::IoWriteFileError(
            "/p".to_string(),
            "full".to_string()
        ))
        .message(),
        "Could not write configuration file at /p: full"
    );
}

#[test]
fn read_failures() {
    assert_eq!(
        ConfigFileReadError::from_failure("/p", IoFailure::PermissionDenied, "x".to_string()),
        ConfigFileReadError::ConfigFilePermissionDenied("/p".to_string())
    );
    assert_eq!(
        ConfigFileReadError::from_failure("/p", IoFailure::NotFound, "x".to_string()),
        ConfigFileReadError::ConfigFileNotFound("/p".to_string())
    );
    assert_eq!(
        ConfigFileReadError::from_failure("/p", IoFailure::Other, "x".to_string()),
        ConfigFileReadError::IoError("x".to_string())
    );
}

#[test]
fn read_errors_by_kind() {
    assert_eq!(
        ConfigFileReadError::from_error("/p", Error::new(ErrorKind::PermissionDenied, "x")),
        ConfigFileReadError::ConfigFilePermissionDenied("/p".to_string())
    );
    assert_eq!(
        ConfigFileReadError::from_error("/p", Error::new(ErrorKind::NotFound, "x")),
        ConfigFileReadError::ConfigFileNotFound("/p".to_string())
    );
    assert_eq!(
        ConfigFileReadError::from_error("/p", Error::new(ErrorKind::InvalidData, "not utf-8")),
        ConfigFileReadError::IoError("not utf-8".to_string())
    );
}

#[test]
fn read_error_messages() {
    assert_eq!(
        ConfigFileReadError::ConfigFileNotFound("/p".to_string()).message(),
        "No configuration file found at /p"
    );
    assert_eq!(
        ConfigFileReadError::ConfigFilePermissionDenied("/p".to_string()).message(),
        "Could not open configuration file at /p. Permission Denied"
    );
    assert_eq!(
        ConfigFileReadError::ParsingError("line 1".to_string()).message(),
        "Failed to parse configuration file. Error: line 1"
    );
    assert_eq!(ConfigFileReadError::IoError("odd".to_string()).message(), "odd");
}

#[test]
fn write_failures() {
    assert_eq!(
        ConfigFileWriteError::from_create_dir_failure(
            "/d",
            IoFailure::PermissionDenied,
            "x".to_string()
        ),
        ConfigFileWriteError::DirPermissionDenied("x".to_string())
    );
    assert_eq!(
        ConfigFileWriteError::from_create_dir_failure("/d", IoFailure::NotFound, "x".to_string()),
        ConfigFileWriteError::IoCreateDirError("/d".to_string(), "x".to_string())
    );
    assert_eq!(
        ConfigFileWriteError::from_create_dir_failure("/d", IoFailure::Other, "x".to_string()),
        ConfigFileWriteError::IoCreateDirError("/d".to_string(), "x".to_string())
    );
    assert_eq!(
        ConfigFileWriteError::from_write_failure(
            "/d/f",
            IoFailure::PermissionDenied,
            "x".to_string()
        ),
        ConfigFileWriteError::FileWriteFileError("/d/f".to_string(), "x".to_string())
    );
    assert_eq!(
        ConfigFileWriteError::from_write_failure("/d/f", IoFailure::NotFound, "x".to_string()),
        ConfigFileWriteError::IoWriteFileError("/d/f".to_string(), "x".to_string())
    );
    assert_eq!(
        ConfigFileWriteError::from_write_failure("/d/f", IoFailure::Other, "x".to_string()),
        ConfigFileWriteError::IoWriteFileError("/d/f".to_string(), "x".to_string())
    );
}

#[test]
fn write_errors_by_kind() {
    assert_eq!(
        ConfigFileWriteError::from_create_dir_error(
            "/d",
            Error::new(ErrorKind::PermissionDenied, "denied")
        ),
        ConfigFileWriteError::DirPermissionDenied("denied".to_string())
    );
    assert_eq!(
        ConfigFileWriteError::from_create_dir_error("/d", Error::new(ErrorKind::Other, "odd")),
        ConfigFileWriteError::IoCreateDirError("/d".to_string(), "odd".to_string())
    );
    assert_eq!(
        ConfigFileWriteError::from_write_error(
            "/d/f",
            Error::new(ErrorKind::PermissionDenied, "denied")
        ),
        ConfigFileWriteError::FileWriteFileError("/d/f".to_string(), "denied".to_string())
    );
    assert_eq!(
        ConfigFileWriteError::from_write_error("/d/f", Error::new(ErrorKind::Other, "odd")),
        ConfigFileWriteError::IoWriteFileError("/d/f".to_string(), "odd".to_string())
    );
}

#[test]
fn write_error_messages() {
    assert_eq!(
        ConfigFileWriteError::DirPermissionDenied("denied".to_string()).message(),
        "Permission denied when writing configuration directory at denied"
    );
    assert_eq!(
        ConfigFileWriteError::IoCreateDirError("/d".to_string(), "odd".to_string()).message(),
        "Could not create configuration file directory at /d: odd"
    );
    assert_eq!(
        ConfigFileWriteError::IoWriteFileError("/d/f".to_string(), "odd".to_string()).message(),
        "Could not write configuration file at /d/f: odd"
    );
    assert_eq!(
        ConfigFileWriteError::FileWriteFileError("/d/f".to_string(), "denied".to_string())
            .message(),
        "Permission denied when writing configuration at /d/f: denied"
    );
}
