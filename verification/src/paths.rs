use vstd::prelude::*;
use vstd::string::*;

use crate::path::{join, join_spec};

verus! {

/// Why no configuration directory could be found.
#[derive(Debug, Clone, Copy, PartialEq, Eq, Structural)]
pub enum ConfigError {
    /// Neither `XDG_CONFIG_HOME` nor `HOME` holds a value.
    HomeNotSet,
}

impl ConfigError {
    /// The text that describes the error to a user.
    pub fn message(&self) -> (res: String)
        ensures
            res@ == "HOME is not set"@,
    {
        match self {
            ConfigError::HomeNotSet => String::from_str("HOME is not set"),
        }
    }
}

/// The value of an environment variable, as the caller read it.
pub open spec fn env_value(v: Option<&str>) -> Option<Seq<char>> {
    match v {
        Some(s) => Some(s@),
        None => None,
    }
}

/// The configuration directory: `XDG_CONFIG_HOME` where it is set, else
/// `$HOME/.config`, else none.
pub open spec fn config_dir_spec(xdg_config_home: Option<Seq<char>>, home: Option<Seq<char>>) -> Option<
    Seq<char>,
> {
    match xdg_config_home {
        Some(dir) => Some(dir),
        None => match home {
            Some(home) => Some(join_spec(home, ".config"@)),
            None => None,
        },
    }
}

/// `<config>/nemoclaw`, the directory of all the navigator's files.
pub open spec fn app_dir_spec(config: Seq<char>) -> Seq<char> {
    join_spec(config, "nemoclaw"@)
}

/// `<config>/nemoclaw/active_cluster`.
pub open spec fn active_cluster_spec(config: Seq<char>) -> Seq<char> {
    join_spec(app_dir_spec(config), "active_cluster"@)
}

/// `<config>/nemoclaw/clusters`.
pub open spec fn clusters_dir_spec(config: Seq<char>) -> Seq<char> {
    join_spec(app_dir_spec(config), "clusters"@)
}

/// `<config>/nemoclaw/clusters/<cluster>/last_sandbox`: the cluster's name,
/// whatever it holds, goes into the clusters directory after a separator.
pub open spec fn last_sandbox_spec(config: Seq<char>, cluster: Seq<char>) -> Seq<char> {
    clusters_dir_spec(config) + seq!['/'] + cluster + "/last_sandbox"@
}

/// The configuration directory that the values of `XDG_CONFIG_HOME` and
/// `HOME` give.
pub open spec fn config_dir_of(xdg_config_home: Option<&str>, home: Option<&str>) -> Option<
    Seq<char>,
> {
    config_dir_spec(env_value(xdg_config_home), env_value(home))
}

/// The configuration directory, from the values of `XDG_CONFIG_HOME` and
/// `HOME`: the first where it is set, else `.config` under the second.
pub fn xdg_config_dir(xdg_config_home: Option<&str>, home: Option<&str>) -> (res: Result<
    String,
    ConfigError,
>)
    ensures
        match config_dir_of(xdg_config_home, home) {
            Some(config) => res matches Ok(p) && p@ == config,
            None => res == Err::<String, ConfigError>(ConfigError::HomeNotSet),
        },
{
    match xdg_config_home {
        Some(dir) => Ok(String::from_str(dir)),
        None => match home {
            Some(home) => Ok(join(home, ".config")),
            None => Err(ConfigError::HomeNotSet),
        },
    }
}

/// Path to the file that stores the active cluster name:
/// `<config>/nemoclaw/active_cluster`.
pub fn active_cluster_path(xdg_config_home: Option<&str>, home: Option<&str>) -> (res: Result<
    String,
    ConfigError,
>)
    ensures
        match config_dir_of(xdg_config_home, home) {
            Some(config) => res matches Ok(p) && p@ == active_cluster_spec(config),
            None => res == Err::<String, ConfigError>(ConfigError::HomeNotSet),
        },
{
    match xdg_config_dir(xdg_config_home, home) {
        Ok(config) => {
            let app = join(config.as_str(), "nemoclaw");
            Ok(join(app.as_str(), "active_cluster"))
        },
        Err(e) => Err(e),
    }
}

/// Base directory for all cluster metadata files: `<config>/nemoclaw/clusters`.
pub fn clusters_dir(xdg_config_home: Option<&str>, home: Option<&str>) -> (res: Result<
    String,
    ConfigError,
>)
    ensures
        match config_dir_of(xdg_config_home, home) {
            Some(config) => res matches Ok(p) && p@ == clusters_dir_spec(config),
            None => res == Err::<String, ConfigError>(ConfigError::HomeNotSet),
        },
{
    match xdg_config_dir(xdg_config_home, home) {
        Ok(config) => {
            let app = join(config.as_str(), "nemoclaw");
            Ok(join(app.as_str(), "clusters"))
        },
        Err(e) => Err(e),
    }
}

/// Path to the file that stores the last-used sandbox name for a cluster:
/// `<config>/nemoclaw/clusters/<cluster>/last_sandbox`.
pub fn last_sandbox_path(xdg_config_home: Option<&str>, home: Option<&str>, cluster: &str) -> (res:
    Result<String, ConfigError>)
    ensures
        match config_dir_of(xdg_config_home, home) {
            Some(config) => res matches Ok(p) && p@ == last_sandbox_spec(config, cluster@),
            None => res == Err::<String, ConfigError>(ConfigError::HomeNotSet),
        },
{
    match clusters_dir(xdg_config_home, home) {
        Ok(dir) => {
            let mut path = dir;
            path.append("/");
            path.append(cluster);
            path.append("/last_sandbox");
            proof {
                reveal_strlit("/");
            }
            Ok(path)
        },
        Err(e) => Err(e),
    }
}

} // verus!
