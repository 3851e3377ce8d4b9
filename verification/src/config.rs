//! The configuration value and where it comes from.
//!
//! Reading the environment and the configuration file is the front end's
//! work. This module decides which file that is and which value wins.

use vstd::prelude::*;
use vstd::string::*;
use crate::path::{join, joined};

verus! {

/// Settings that apply to every invocation.
#[derive(Clone, Debug, PartialEq, Eq)]
pub struct Config {
    /// Name of a subdirectory of the system temp root under which temp
    /// entries are made; `None` means the system temp root itself.
    pub tmpdir: Option<String>,
}

impl View for Config {
    type V = Option<Seq<char>>;

    open spec fn view(&self) -> Option<Seq<char>> {
        self.tmpdir.deep_view()
    }
}

impl DeepView for Config {
    type V = Option<Seq<char>>;

    open spec fn deep_view(&self) -> Option<Seq<char>> {
        self@
    }
}

/// The temp-directory setting in force: the environment's value where there
/// is one, else the file's, else none.
pub open spec fn effective_tmpdir(file: Option<Option<Seq<char>>>, env: Option<Seq<char>>) -> Option<
    Seq<char>,
> {
    match env {
        Some(name) => Some(name),
        None => match file {
            Some(tmpdir) => tmpdir,
            None => None,
        },
    }
}

/// The configuration file below the configuration directory `dir`.
pub open spec fn config_file_in(dir: Seq<char>) -> Seq<char> {
    joined(joined(dir, "slap"@), "config.toml"@)
}

/// Where the configuration file is looked for: below the directory that
/// `XDG_CONFIG_HOME` names, else below `.config` in the home directory, else
/// nowhere.
pub open spec fn config_file(xdg_config_home: Option<Seq<char>>, home: Option<Seq<char>>) -> Option<
    Seq<char>,
> {
    match xdg_config_home {
        Some(dir) => Some(config_file_in(dir)),
        None => match home {
            Some(dir) => Some(config_file_in(joined(dir, ".config"@))),
            None => None,
        },
    }
}

impl Default for Config {
    fn default() -> (r: Config)
        ensures
            r@ is None,
    {
        Config { tmpdir: None }
    }
}

impl Config {
    /// The configuration in force, given what the configuration file held
    /// (`None` where it is absent, unreadable or malformed) and the value of
    /// the `SLAP_TMPDIR` environment variable, which overrides the file.
    pub fn load(from_file: Option<Config>, env_tmpdir: Option<String>) -> (r: Config)
        ensures
            r@ == effective_tmpdir(from_file.deep_view(), env_tmpdir.deep_view()),
    {
        let mut config = match from_file {
            Some(config) => config,
            None => Config::default(),
        };
        if let Some(tmpdir) = env_tmpdir {
            config.tmpdir = Some(tmpdir);
        }
        config
    }

    /// The path of the configuration file, given the values of
    /// `XDG_CONFIG_HOME` and of the home directory where they are known.
    pub fn file_path(xdg_config_home: Option<&str>, home: Option<&str>) -> (r: Option<String>)
        ensures
            r.deep_view() == config_file(xdg_config_home.deep_view(), home.deep_view()),
    {
        let config_dir = match xdg_config_home {
            Some(dir) => dir.to_owned(),
            None => match home {
                Some(dir) => join(dir, ".config"),
                None => {
                    return None;
                },
            },
        };
        let app_dir = join(config_dir.as_str(), "slap");
        Some(join(app_dir.as_str(), "config.toml"))
    }
}

} // verus!
