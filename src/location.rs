use std::path::PathBuf;
use vstd::prelude::*;
use vstd::string::StringExecFns;

use crate::error::ConfigError;

verus! {

#[verifier::external_type_specification]
#[verifier::external_body]
pub struct ExPathBuf(PathBuf);

/// Name of the configuration file inside its directory.
pub const CONFIG_FILE_NAME: &'static str = "app_config.toml";

/// The file name, as characters.
pub open spec fn config_file_name_spec() -> Seq<char> {
    seq!['a', 'p', 'p', '_', 'c', 'o', 'n', 'f', 'i', 'g', '.', 't', 'o', 'm', 'l']
}

/// Name of the directory under the per-user configuration root that holds the
/// file: `com.<organization>.<app>`.
pub open spec fn config_dir_name_spec(organization_name: Seq<char>, app_name: Seq<char>) -> Seq<char> {
    seq!['c', 'o', 'm', '.'] + organization_name + seq!['.'] + app_name
}

/// Where the configuration file lives: `<root>/<dir_name>/<file_name>`, with the
/// directory to be created before the file is written.
pub struct ConfigLocation {
    /// The per-user configuration root of the platform.
    pub root: PathBuf,
    /// The directory under the root that belongs to this application.
    pub dir_name: String,
    /// The file inside that directory.
    pub file_name: String,
}

/// Builds the directory name `com.<organization_name>.<app_name>`.
pub fn config_dir_name(organization_name: &str, app_name: &str) -> (r: String)
    ensures
        r@ == config_dir_name_spec(organization_name@, app_name@),
{
    proof {
        reveal_strlit("com.");
        reveal_strlit(".");
    }
    let mut name = String::from_str("com.");
    name.append(organization_name);
    name.append(".");
    name.append(app_name);
    name
}

/// Builds the file name `app_config.toml`.
pub fn config_file_name() -> (r: String)
    ensures
        r@ == config_file_name_spec(),
{
    proof {
        reveal_strlit("app_config.toml");
    }
    String::from_str(CONFIG_FILE_NAME)
}

/// Relies on dirs_next::config_dir: the platform's per-user configuration root
/// (`$XDG_CONFIG_HOME` or `$HOME/.config` on Linux), or `None` where none can
/// be determined. It reads the environment, so nothing is promised of it.
#[verifier::external_body]
fn os_config_root() -> (r: Option<PathBuf>) {
    dirs_next::config_dir()
}

/// The location of the configuration file under a configuration root that was
/// looked up: an error when there was none.
pub fn locate_in(root: Option<PathBuf>, organization_name: &str, app_name: &str) -> (r: Result<
    ConfigLocation,
    ConfigError,
>)
    ensures
        root is None <==> r == Err::<ConfigLocation, ConfigError>(ConfigError::PathResolution),
        root is Some <==> r is Ok,
        r is Ok ==> {
            &&& r->Ok_0.root == root->Some_0
            &&& r->Ok_0.dir_name@ == config_dir_name_spec(organization_name@, app_name@)
            &&& r->Ok_0.file_name@ == config_file_name_spec()
        },
{
    match root {
        None => Err(ConfigError::PathResolution),
        Some(root) => Ok(
            ConfigLocation {
                root,
                dir_name: config_dir_name(organization_name, app_name),
                file_name: config_file_name(),
            },
        ),
    }
}

/// The location of the configuration file under the platform's per-user
/// configuration root. Which root that is depends on the environment; the
/// names under it depend on the two names alone.
pub fn locate(organization_name: &str, app_name: &str) -> (r: Result<ConfigLocation, ConfigError>)
    ensures
        r is Err ==> r->Err_0 == ConfigError::PathResolution,
        r is Ok ==> {
            &&& r->Ok_0.dir_name@ == config_dir_name_spec(organization_name@, app_name@)
            &&& r->Ok_0.file_name@ == config_file_name_spec()
        },
{
    locate_in(os_config_root(), organization_name, app_name)
}

} // verus!
