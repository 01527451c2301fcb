//! The settings record, its built-in defaults and its bounds.

use vstd::prelude::*;
use vstd::string::*;

use crate::error::{ConfigFault, ConfigFaultView, Error, ErrorView};
use crate::model::{model_named, Model};
use crate::text::text_of;

verus! {

/// The fewest suggestions that may be asked for.
pub const MIN_SUGGESTIONS: u8 = 1;

/// The most suggestions that may be asked for.
pub const MAX_SUGGESTIONS: u8 = 10;

/// The lowest token limit.
pub const MIN_TOKENS: u64 = 1;

/// The highest token limit.
pub const MAX_TOKENS: u64 = 128000;

/// The number of suggestions asked for when the settings name none.
pub const DEFAULT_SUGGESTIONS: u8 = 5;

/// Whether whitespace-only changes are left out of the diff when the
/// settings do not say.
pub const DEFAULT_IGNORE_SPACE: bool = true;

/// The token limit when the settings name none.
pub const DEFAULT_TOKENS: u64 = 400;

/// The instruction given to the completion service when the settings name
/// no other.
pub const DEFAULT_CONTEXT_PREFIX: &'static str =
    "You are a helpful assistant which helps to write commit messages based on the given diff and reason.\nThe first line is explaining why there are specific changes and the other lines describes what have been changed.\nFollow the following git commit message convention:\n<type>: <description>\n\n<why>\n\nChanges:\n<what>";

/// The number of suggestions asked for when the settings name none.
pub fn default_suggestions() -> (n: u8)
    ensures
        n == DEFAULT_SUGGESTIONS,
{
    DEFAULT_SUGGESTIONS
}

/// Whether whitespace-only changes are left out of the diff when the
/// settings do not say.
pub fn default_ignore_space() -> (ignore: bool)
    ensures
        ignore == DEFAULT_IGNORE_SPACE,
{
    DEFAULT_IGNORE_SPACE
}

/// The token limit when the settings name none.
pub fn default_tokens() -> (n: u64)
    ensures
        n == DEFAULT_TOKENS,
{
    DEFAULT_TOKENS
}

/// The context prefix when the settings name none.
pub fn default_context_prefix() -> (prefix: String)
    ensures
        prefix@ == DEFAULT_CONTEXT_PREFIX@,
{
    String::from_str(DEFAULT_CONTEXT_PREFIX)
}

/// The settings of one run.
#[derive(Debug, PartialEq, Eq)]
pub struct Config {
    /// The key that authenticates against the completion service.
    pub api_key: String,
    /// The system-level instruction sent ahead of the diff.
    pub context_prefix: String,
    /// How many candidate messages to ask for.
    pub suggestions: u8,
    /// Whether whitespace-only and blank-line changes are left out.
    pub ignore_space: bool,
    /// The most tokens the service may spend on one candidate.
    pub max_tokens: u64,
    /// The completion model.
    pub model: Model,
}

/// A settings record as a mathematical value.
pub struct Settings {
    pub api_key: Seq<char>,
    pub context_prefix: Seq<char>,
    pub suggestions: u8,
    pub ignore_space: bool,
    pub max_tokens: u64,
    pub model: Model,
}

impl View for Config {
    type V = Settings;

    open spec fn view(&self) -> Settings {
        Settings {
            api_key: self.api_key@,
            context_prefix: self.context_prefix@,
            suggestions: self.suggestions,
            ignore_space: self.ignore_space,
            max_tokens: self.max_tokens,
            model: self.model,
        }
    }
}

/// What a settings source holds: the key, and whatever else it names.
#[derive(Debug, PartialEq, Eq)]
pub struct FileConfig {
    pub api_key: String,
    pub context_prefix: Option<String>,
    pub suggestions: Option<u8>,
    pub ignore_space: Option<bool>,
    pub max_tokens: Option<u64>,
    /// The model by its name on the wire.
    pub model: Option<String>,
}

/// The content of a settings source as a mathematical value.
pub struct FileSettings {
    pub api_key: Seq<char>,
    pub context_prefix: Option<Seq<char>>,
    pub suggestions: Option<u8>,
    pub ignore_space: Option<bool>,
    pub max_tokens: Option<u64>,
    pub model: Option<Seq<char>>,
}

impl View for FileConfig {
    type V = FileSettings;

    open spec fn view(&self) -> FileSettings {
        FileSettings {
            api_key: self.api_key@,
            context_prefix: text_of(self.context_prefix),
            suggestions: self.suggestions,
            ignore_space: self.ignore_space,
            max_tokens: self.max_tokens,
            model: text_of(self.model),
        }
    }
}

impl FileSettings {
    /// The record that this content stands for, or why it stands for
    /// none. A model's name that is unknown is found before anything
    /// else. Then the fields that are left out get their defaults, and
    /// the record is held to its bounds.
    pub open spec fn finished(self) -> Result<Settings, ConfigFaultView> {
        let model = match self.model {
            Some(name) => model_named(name),
            None => None,
        };
        let settings = Settings::with_defaults(
            self.api_key,
            self.context_prefix,
            self.suggestions,
            self.ignore_space,
            self.max_tokens,
            model,
        );
        match (self.model, model, settings.fault()) {
            (Some(name), None, _) => Err(ConfigFaultView::Model(name)),
            (_, _, Some(fault)) => Err(fault),
            (_, _, None) => Ok(settings),
        }
    }
}

impl Settings {
    /// The first bound that the record breaks, if it breaks one: the key is
    /// looked at first, then the suggestions, then the token limit.
    pub open spec fn fault(self) -> Option<ConfigFaultView> {
        if self.api_key.len() == 0 {
            Some(ConfigFaultView::EmptyApiKey)
        } else if !(MIN_SUGGESTIONS <= self.suggestions <= MAX_SUGGESTIONS) {
            Some(ConfigFaultView::Suggestions)
        } else if !(MIN_TOKENS <= self.max_tokens <= MAX_TOKENS) {
            Some(ConfigFaultView::MaxTokens)
        } else {
            None
        }
    }

    /// The key is not empty and both numbers lie within their bounds.
    pub open spec fn valid(self) -> bool {
        &&& self.api_key.len() > 0
        &&& MIN_SUGGESTIONS <= self.suggestions <= MAX_SUGGESTIONS
        &&& MIN_TOKENS <= self.max_tokens <= MAX_TOKENS
    }

    /// The record that a settings source gives: the key, and for every
    /// other field the value it names or else the built-in default.
    pub open spec fn with_defaults(
        api_key: Seq<char>,
        context_prefix: Option<Seq<char>>,
        suggestions: Option<u8>,
        ignore_space: Option<bool>,
        max_tokens: Option<u64>,
        model: Option<Model>,
    ) -> Settings {
        Settings {
            api_key,
            context_prefix: match context_prefix {
                Some(prefix) => prefix,
                None => DEFAULT_CONTEXT_PREFIX@,
            },
            suggestions: match suggestions {
                Some(n) => n,
                None => DEFAULT_SUGGESTIONS,
            },
            ignore_space: match ignore_space {
                Some(ignore) => ignore,
                None => DEFAULT_IGNORE_SPACE,
            },
            max_tokens: match max_tokens {
                Some(n) => n,
                None => DEFAULT_TOKENS,
            },
            model: match model {
                Some(m) => m,
                None => Model::GPT3X5Turbo,
            },
        }
    }
}

impl Config {
    /// Builds the record from what a settings source holds. A field that
    /// the source leaves out gets its built-in default.
    pub fn with_defaults(
        api_key: String,
        context_prefix: Option<String>,
        suggestions: Option<u8>,
        ignore_space: Option<bool>,
        max_tokens: Option<u64>,
        model: Option<Model>,
    ) -> (config: Config)
        ensures
            config@ == Settings::with_defaults(
                api_key@,
                text_of(context_prefix),
                suggestions,
                ignore_space,
                max_tokens,
                model,
            ),
    {
        Config {
            api_key,
            context_prefix: match context_prefix {
                Some(prefix) => prefix,
                None => default_context_prefix(),
            },
            suggestions: match suggestions {
                Some(n) => n,
                None => default_suggestions(),
            },
            ignore_space: match ignore_space {
                Some(ignore) => ignore,
                None => default_ignore_space(),
            },
            max_tokens: match max_tokens {
                Some(n) => n,
                None => default_tokens(),
            },
            model: match model {
                Some(m) => m,
                None => Model::default(),
            },
        }
    }

    /// Finishes what a settings source holds into a record: looks the
    /// model up by its name, fills in the defaults and checks the bounds.
    /// A record that comes out of this is valid.
    pub fn from_file(file: FileConfig) -> (finished: Result<Config, Error>)
        ensures
            match finished {
                Ok(config) => file@.finished() == Ok::<Settings, ConfigFaultView>(config@)
                    && config@.valid(),
                Err(error) => file@.finished() matches Err(fault) && error@ == ErrorView::Config(
                    fault,
                ),
            },
    {
        let model = match file.model {
            Some(name) => match Model::from_name(name.as_str()) {
                Some(model) => Some(model),
                None => {
                    return Err(Error::Config(ConfigFault::Model(name)));
                },
            },
            None => None,
        };
        let config = Config::with_defaults(
            file.api_key,
            file.context_prefix,
            file.suggestions,
            file.ignore_space,
            file.max_tokens,
            model,
        );
        match config.validate() {
            Ok(_) => Ok(config),
            Err(error) => Err(error),
        }
    }

    /// Checks the bounds of a finished record. The record is accepted as it
    /// is or turned down with the first bound it breaks.
    pub fn validate(&self) -> (checked: Result<(), Error>)
        ensures
            checked is Ok <==> self@.valid(),
            match checked {
                Ok(_) => self@.fault() is None,
                Err(error) => self@.fault() matches Some(fault) && error@ == ErrorView::Config(
                    fault,
                ),
            },
    {
        if self.api_key.as_str().is_empty() {
            Err(Error::Config(ConfigFault::EmptyApiKey))
        } else if self.suggestions < MIN_SUGGESTIONS || self.suggestions > MAX_SUGGESTIONS {
            Err(Error::Config(ConfigFault::Suggestions))
        } else if self.max_tokens < MIN_TOKENS || self.max_tokens > MAX_TOKENS {
            Err(Error::Config(ConfigFault::MaxTokens))
        } else {
            Ok(())
        }
    }
}

/// `base` extended by the relative path `tail`: a separator goes between
/// the two unless `base` is empty or already ends in one.
pub open spec fn joined(base: Seq<char>, tail: Seq<char>) -> Seq<char> {
    if base.len() == 0 || base.last() == '/' {
        base + tail
    } else {
        base + seq!['/'] + tail
    }
}

/// Where the settings file is looked for, without its extension: below the
/// configuration directory that the environment names, or else below
/// `.config` in the home directory.
pub open spec fn settings_path_of(config_home: Option<Seq<char>>, home: Seq<char>) -> Seq<char> {
    joined(
        match config_home {
            Some(dir) => dir,
            None => joined(home, ".config"@),
        },
        "commitgpt/config"@,
    )
}

fn join(base: String, tail: &str) -> (path: String)
    ensures
        path@ == joined(base@, tail@),
{
    let length = base.as_str().unicode_len();
    let mut path = base;
    if length > 0 && path.as_str().get_char(length - 1) != '/' {
        proof {
            reveal_strlit("/");
        }
        path.append("/");
    }
    path.append(tail);
    path
}

/// Resolves the place of the settings file from the two values that the
/// environment may hold. The configuration directory wins where it is set.
pub fn settings_path(config_home: Option<String>, home: &str) -> (path: String)
    ensures
        path@ == settings_path_of(text_of(config_home), home@),
{
    let dir = match config_home {
        Some(dir) => dir,
        None => join(String::from_str(home), ".config"),
    };
    join(dir, "commitgpt/config")
}

/// The defaults lie within the bounds: a record built from a key alone is
/// valid as soon as the key is not empty.
pub proof fn lemma_defaults_valid(api_key: Seq<char>)
    requires
        api_key.len() > 0,
    ensures
        Settings::with_defaults(api_key, None, None, None, None, None).valid(),
{
}

} // verus!
