//! User configuration loaded from `~/.config/jigolo/config.toml`.
//!
//! All fields are optional so a partial config file works. A missing file
//! gives `Config::default()` (all `None`). Reading the file and parsing its
//! TOML happen at the program's edge; this module holds the rules that
//! decide what a read and a parse amount to.

use vstd::prelude::*;
use vstd::string::*;

use crate::text::push_char;

verus! {

/// User preferences persisted across sessions.
#[derive(Debug, Clone, PartialEq, Eq)]
pub struct Config {
    /// Color theme: `"dark"` or `"light"`.
    pub theme: Option<String>,
    /// Default directories to scan when no CLI paths are provided.
    pub default_paths: Option<Vec<String>>,
    /// Default maximum scan depth (overrides the built-in default of 3).
    pub default_depth: Option<usize>,
}

impl Config {
    /// Whether every setting is absent, as in `Config::default()`.
    pub open spec fn is_empty_config(&self) -> bool {
        &&& self.theme is None
        &&& self.default_paths is None
        &&& self.default_depth is None
    }
}

impl Default for Config {
    fn default() -> (r: Self)
        ensures
            r.is_empty_config(),
    {
        Config { theme: None, default_paths: None, default_depth: None }
    }
}

/// Where the configuration file lies below the home directory.
pub open spec fn config_relative_path() -> Seq<char> {
    seq![
        '.', 'c', 'o', 'n', 'f', 'i', 'g', '/', 'j', 'i', 'g', 'o', 'l', 'o', '/', 'c', 'o', 'n',
        'f', 'i', 'g', '.', 't', 'o', 'm', 'l',
    ]
}

/// `base` joined with the relative path `rel` the way `Path::join` does it:
/// a separator goes between them unless `base` is empty or already ends with one.
pub open spec fn join_relative(base: Seq<char>, rel: Seq<char>) -> Seq<char> {
    if base.len() == 0 || base.last() == '/' {
        base + rel
    } else {
        base + seq!['/'] + rel
    }
}

/// Pushes each character of `tail` onto `out`.
fn push_all(out: &mut String, tail: &[char])
    ensures
        final(out)@ == old(out)@ + tail@,
{
    let mut k: usize = 0;
    while k < tail.len()
        invariant
            k <= tail@.len(),
            out@ == old(out)@ + tail@.take(k as int),
        decreases tail.len() - k,
    {
        push_char(out, tail[k]);
        proof {
            assert(tail@.take(k + 1) =~= tail@.take(k as int).push(tail@[k as int]));
        }
        k = k + 1;
    }
    proof {
        assert(tail@.take(tail@.len() as int) =~= tail@);
    }
}

/// Returns the config file path relative to a given home directory.
pub fn config_path_in(home: &str) -> (r: String)
    ensures
        r@ == join_relative(home@, config_relative_path()),
{
    let mut out = String::from_str(home);
    let len = home.unicode_len();
    if len > 0 && home.get_char(len - 1) != '/' {
        push_char(&mut out, '/');
    }
    let tail = [
        '.', 'c', 'o', 'n', 'f', 'i', 'g', '/', 'j', 'i', 'g', 'o', 'l', 'o', '/', 'c', 'o', 'n',
        'f', 'i', 'g', '.', 't', 'o', 'm', 'l',
    ];
    push_all(&mut out, tail.as_slice());
    assert(tail@ =~= config_relative_path());
    out
}

/// Returns the default config file path for the home directory that the
/// environment names, if it names one.
pub fn config_path(home: Option<String>) -> (r: Option<String>)
    ensures
        r matches Some(p) <==> home is Some,
        r matches Some(p) ==> p@ == join_relative(home->0@, config_relative_path()),
{
    match home {
        Some(h) => Some(config_path_in(h.as_str())),
        None => None,
    }
}

/// What reading and parsing the configuration file gave.
#[derive(Debug, Clone, PartialEq, Eq)]
pub enum ConfigFile {
    /// No file exists at the path.
    Missing,
    /// The file exists but could not be read; the reason.
    Unreadable(String),
    /// The file was read and its TOML gave this configuration.
    Parsed(Config),
    /// The file was read but is not a valid configuration; the parser's reason.
    Malformed(String),
}

/// Why the configuration could not be loaded.
#[derive(Debug, Clone, PartialEq, Eq)]
pub enum ConfigError {
    /// The file at `path` exists but could not be read.
    Read { path: String, detail: String },
    /// The file at `path` is not a valid configuration.
    Parse { path: String, detail: String },
}

/// `"failed to read "`
pub open spec fn read_failure_prefix() -> Seq<char> {
    seq!['f', 'a', 'i', 'l', 'e', 'd', ' ', 't', 'o', ' ', 'r', 'e', 'a', 'd', ' ']
}

/// `"failed to parse "`
pub open spec fn parse_failure_prefix() -> Seq<char> {
    seq!['f', 'a', 'i', 'l', 'e', 'd', ' ', 't', 'o', ' ', 'p', 'a', 'r', 's', 'e', ' ']
}

impl ConfigError {
    /// The message shown for this error: `failed to read PATH: DETAIL`, or
    /// `failed to parse PATH` (the parser's detail stays in the error).
    pub open spec fn message_of(&self) -> Seq<char> {
        match self {
            ConfigError::Read { path, detail } => read_failure_prefix() + path@ + seq![':', ' ']
                + detail@,
            ConfigError::Parse { path, detail } => parse_failure_prefix() + path@,
        }
    }

    /// The message shown for this error.
    pub fn message(&self) -> (r: String)
        ensures
            r@ == self.message_of(),
    {
        let mut out = String::new();
        match self {
            ConfigError::Read { path, detail } => {
                let prefix = [
                    'f', 'a', 'i', 'l', 'e', 'd', ' ', 't', 'o', ' ', 'r', 'e', 'a', 'd', ' ',
                ];
                push_all(&mut out, prefix.as_slice());
                assert(prefix@ =~= read_failure_prefix());
                out.append(path.as_str());
                push_char(&mut out, ':');
                push_char(&mut out, ' ');
                out.append(detail.as_str());
                assert(out@ =~= self.message_of());
            },
            ConfigError::Parse { path, detail: _ } => {
                let prefix = [
                    'f', 'a', 'i', 'l', 'e', 'd', ' ', 't', 'o', ' ', 'p', 'a', 'r', 's', 'e', ' ',
                ];
                push_all(&mut out, prefix.as_slice());
                assert(prefix@ =~= parse_failure_prefix());
                out.append(path.as_str());
            },
        }
        out
    }
}

/// Loads configuration from a specific path, given what reading and parsing
/// the file there gave. Returns `Config::default()` if the file does not exist.
pub fn load_config_from(path: &str, file: ConfigFile) -> (r: Result<Config, ConfigError>)
    ensures
        match file {
            ConfigFile::Missing => r matches Ok(c) && c.is_empty_config(),
            ConfigFile::Parsed(c) => r == Ok::<Config, ConfigError>(c),
            ConfigFile::Unreadable(e) => r matches Err(ConfigError::Read { path: p, detail: d })
                && p@ == path@ && d@ == e@,
            ConfigFile::Malformed(e) => r matches Err(ConfigError::Parse { path: p, detail: d })
                && p@ == path@ && d@ == e@,
        },
{
    match file {
        ConfigFile::Missing => Ok(Config::default()),
        ConfigFile::Parsed(c) => Ok(c),
        ConfigFile::Unreadable(e) => Err(ConfigError::Read { path: String::from_str(path), detail: e }),
        ConfigFile::Malformed(e) => Err(ConfigError::Parse { path: String::from_str(path), detail: e }),
    }
}

/// Loads configuration from the default path: `located` is that path with
/// what reading it gave, or `None` where no home directory is known, in
/// which case the configuration is `Config::default()`.
pub fn load_config(located: Option<(String, ConfigFile)>) -> (r: Result<Config, ConfigError>)
    ensures
        match located {
            None => r matches Ok(c) && c.is_empty_config(),
            Some((path, file)) => match file {
                ConfigFile::Missing => r matches Ok(c) && c.is_empty_config(),
                ConfigFile::Parsed(c) => r == Ok::<Config, ConfigError>(c),
                ConfigFile::Unreadable(e) => r matches Err(ConfigError::Read { path: p, detail: d })
                    && p@ == path@ && d@ == e@,
                ConfigFile::Malformed(e) => r matches Err(ConfigError::Parse { path: p, detail: d })
                    && p@ == path@ && d@ == e@,
            },
        },
{
    match located {
        Some((path, file)) => load_config_from(path.as_str(), file),
        None => Ok(Config::default()),
    }
}

} // verus!
