//! Where the configuration lives and what it holds.
use vstd::prelude::*;
use crate::command::CommandBuilder;
use crate::paths::{home_dir, join, parent_dir, popped, pushed, string_text_of, text_of};

verus! {

/// The configuration file: the commands to run.
#[derive(Debug)]
pub struct ConfigFile {
    pub commands: Vec<CommandBuilder>,
}

/// The configuration and the directory of its file, against which the
/// commands' running directories are taken.
#[derive(Debug)]
pub struct Config {
    pub config: ConfigFile,
    pub directory: String,
}

/// Why the configuration cannot be had.
#[derive(Clone, Debug)]
pub enum ConfigError {
    /// No file could be read at this path
    NotFound(String),
    /// The file is not a valid configuration; the parser's message
    Parse(String),
    /// The file's path could not be made canonical; the system's message
    Io(String),
    /// No location was given and there is no home directory to look in
    NoHomeDirectory,
}

/// Where the configuration file is looked for under the home directory `home`.
pub open spec fn default_location(home: Seq<char>) -> Seq<char> {
    pushed(home, "./.config/bang/bang.toml"@)
}

/// Where the configuration file is looked for: the given location, else the
/// default location under the home directory, if there is one.
pub open spec fn location_for(config_location: Option<Seq<char>>, home: Option<Seq<char>>) -> Option<
    Seq<char>,
> {
    match config_location {
        Some(c) => Some(c),
        None => match home {
            Some(h) => Some(default_location(h)),
            None => None,
        },
    }
}

/// A location that is given is the location, whatever the home directory
/// is or whether there is one; only without one does the home directory
/// matter, and then the location is the default under it.
pub proof fn lemma_given_location_wins(
    c: Seq<char>,
    home: Option<Seq<char>>,
    other_home: Option<Seq<char>>,
)
    ensures
        location_for(Some(c), home) == Some(c),
        location_for(Some(c), home) == location_for(Some(c), other_home),
        home matches Some(h) ==> location_for(None, home) == Some(
            pushed(h, "./.config/bang/bang.toml"@),
        ),
        location_for(None, None) is None,
{
}

impl ConfigError {
    /// What the error says to the user.
    pub open spec fn text(&self) -> Seq<char> {
        match self {
            ConfigError::NotFound(p) => "config not found at "@ + p@,
            ConfigError::Parse(e) => e@,
            ConfigError::Io(e) => e@,
            ConfigError::NoHomeDirectory => "home directory not found"@,
        }
    }

    /// What the error says to the user.
    pub fn message(&self) -> (r: String)
        ensures
            r@ == self.text(),
    {
        match self {
            ConfigError::NotFound(p) => String::from_str("config not found at ").concat(p.as_str()),
            ConfigError::Parse(e) => e.clone(),
            ConfigError::Io(e) => e.clone(),
            ConfigError::NoHomeDirectory => String::from_str("home directory not found"),
        }
    }
}

impl Config {
    /// Where the configuration file is looked for under the home directory.
    pub fn default_location(home: &str) -> (r: String)
        ensures
            r@ == default_location(home@),
    {
        join(home, "./.config/bang/bang.toml")
    }

    /// Where the configuration file is looked for, given the home directory.
    pub fn location_with_home(config_location: Option<String>, home: Option<&str>) -> (r: Option<
        String,
    >)
        ensures
            string_text_of(r) == location_for(string_text_of(config_location), text_of(home)),
            config_location matches Some(c) ==> (r matches Some(l) && l@ == c@),
            config_location is None ==> (home is None <==> r is None),
            config_location is None ==> (home matches Some(h) ==> (r matches Some(l) && l@
                == pushed(h@, "./.config/bang/bang.toml"@))),
    {
        match config_location {
            Some(c) => Some(c),
            None => match home {
                Some(h) => Some(Config::default_location(h)),
                None => None,
            },
        }
    }

    /// Where the configuration file is looked for: the given location, else
    /// `./.config/bang/bang.toml` under the home directory. With no location
    /// and no home directory the error `NoHomeDirectory` is reported, not
    /// panicked on: the home directory comes from the environment, so no
    /// caller could rule this out beforehand. `location_with_home`, which takes
    /// the home directory as an argument, gives `None` in that case.
    /// The home directory is looked up only when no location is
    /// given; what it is the caller cannot know, so the outcome is stated for
    /// some home directory.
    pub fn location(config_location: Option<String>) -> (r: Result<String, ConfigError>)
        ensures
            config_location matches Some(c) ==> (r matches Ok(l) && l@ == c@),
            config_location is None ==> match r {
                Ok(l) => exists|h: Seq<char>| l@ == #[trigger] default_location(h),
                Err(e) => e is NoHomeDirectory,
            },
    {
        match config_location {
            Some(c) => Ok(c),
            None => match home_dir() {
                Some(h) => Ok(Config::default_location(h.as_str())),
                None => Err(ConfigError::NoHomeDirectory),
            },
        }
    }

    /// The configuration read from `config_path`: `parsed` is `None` when no
    /// file could be read there, else what the file parsed to; `canonical` is
    /// the canonical form of `config_path`, whose parent becomes the
    /// configuration's directory. The first failure in that order is the error.
    pub fn create_or_get_config(
        config_path: String,
        parsed: Option<Result<ConfigFile, String>>,
        canonical: Result<String, String>,
    ) -> (r: Result<Config, ConfigError>)
        ensures
            parsed is None ==> (r matches Err(ConfigError::NotFound(p)) && p@ == config_path@),
            parsed matches Some(Err(e)) ==> (r matches Err(ConfigError::Parse(m)) && m@ == e@),
            parsed matches Some(Ok(_)) ==> (canonical matches Err(e) ==> (r matches Err(
                ConfigError::Io(m),
            ) && m@ == e@)),
            parsed matches Some(Ok(f)) ==> (canonical matches Ok(c) ==> (r matches Ok(cfg)
                && cfg.config == f && cfg.directory@ == popped(c@))),
    {
        match parsed {
            None => Err(ConfigError::NotFound(config_path)),
            Some(Err(e)) => Err(ConfigError::Parse(e)),
            Some(Ok(f)) => match canonical {
                Err(e) => Err(ConfigError::Io(e)),
                Ok(c) => {
                    let directory = parent_dir(c.as_str());
                    Ok(Config { config: f, directory })
                },
            },
        }
    }
}

} // verus!
