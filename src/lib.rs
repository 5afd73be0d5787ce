//! Persists an application's settings value to a per-user configuration file.
//!
//! The library holds the settings value and the rules around it: where the
//! file lives, how a load attempt turns into the new settings value or an
//! error, and whether the value is written back when the manager is released.
//! Reading and writing the file, and encoding the value as text, are left to
//! the caller, which hands the outcome back to the manager.
mod error;
mod laws;
mod location;
mod manager;

pub use error::{is_recoverable, ConfigError};
pub use laws::{lemma_load_returns_saved, lemma_malformed_file, lemma_missing_file_gives_default};
pub use location::{
    config_dir_name, config_dir_name_spec, config_file_name, config_file_name_spec, locate,
    locate_in, ConfigLocation, CONFIG_FILE_NAME,
};
pub use manager::{result_of_load, value_after_load, AppConfigManager};
