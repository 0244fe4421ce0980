//! Configuration: what the configuration file holds and what the commands
//! run with once command line, file and platform defaults are resolved.

pub mod config_file;
pub mod full_config;

pub use config_file::ConfigFile;
pub use full_config::ConfigOffset;
pub use full_config::ConfigResolution;
pub use full_config::FullConfig as Config;
pub use full_config::read as read_config;
