//! Merging the invocation's values with the settings record.

use vstd::prelude::*;

use crate::args::{Args, Overrides};
use crate::config::{Config, Settings, DEFAULT_TOKENS};
use crate::model::Model;

verus! {

/// The settings in force: field by field the invocation's value where one
/// is present, the record's value where not. The two numbers are narrowed
/// to the widths of the record as a cast does, so a number within the
/// bounds of its setting comes through unchanged. The key and the context
/// prefix have no override.
pub open spec fn resolved(overrides: Overrides, file: Settings) -> Settings {
    Settings {
        api_key: file.api_key,
        context_prefix: file.context_prefix,
        suggestions: match overrides.suggestions {
            Some(n) => n as u8,
            None => file.suggestions,
        },
        ignore_space: match overrides.ignore_space {
            Some(ignore) => ignore,
            None => file.ignore_space,
        },
        max_tokens: match overrides.max_tokens {
            Some(n) => n as u64,
            None => file.max_tokens,
        },
        model: match overrides.model {
            Some(m) => m,
            None => file.model,
        },
    }
}

/// Merges the invocation's values with the settings record. Nothing is
/// checked here: the bounds are the business of whoever read the two.
pub fn resolve(overrides: &Args, file: &Config) -> (settings: Config)
    ensures
        settings@ == resolved(overrides@, file@),
{
    Config {
        api_key: file.api_key.clone(),
        context_prefix: file.context_prefix.clone(),
        suggestions: match overrides.suggestions {
            Some(n) => #[verifier::truncate]
            (n as u8),
            None => file.suggestions,
        },
        ignore_space: match overrides.ignore_space {
            Some(ignore) => ignore,
            None => file.ignore_space,
        },
        max_tokens: match overrides.max_tokens {
            Some(n) => #[verifier::truncate]
            (n as u64),
            None => file.max_tokens,
        },
        model: match overrides.model {
            Some(m) => m,
            None => file.model,
        },
    }
}

/// The token limit in force is the invocation's where it names one that is
/// not negative, and the record's where it names none.
pub proof fn lemma_max_tokens_precedence(overrides: Overrides, file: Settings)
    requires
        overrides.max_tokens matches Some(n) ==> 0 <= n,
    ensures
        resolved(overrides, file).max_tokens == match overrides.max_tokens {
            Some(n) => n as int,
            None => file.max_tokens as int,
        },
{
}

/// The number of suggestions in force is the invocation's where it names
/// one that fits the record's width, and the record's where it names none.
pub proof fn lemma_suggestions_precedence(overrides: Overrides, file: Settings)
    requires
        overrides.suggestions matches Some(n) ==> 0 <= n <= u8::MAX,
    ensures
        resolved(overrides, file).suggestions == match overrides.suggestions {
            Some(n) => n as int,
            None => file.suggestions as int,
        },
{
}

/// Where both the invocation's values and the record keep their bounds,
/// so do the settings in force.
pub proof fn lemma_resolved_valid(overrides: Overrides, file: Settings)
    requires
        overrides.valid(),
        file.valid(),
    ensures
        resolved(overrides, file).valid(),
{
}

/// The three levels of precedence for one field, here the token limit:
/// the invocation's value, else the value of the settings source, else the
/// built-in default.
pub proof fn lemma_max_tokens_three_levels(
    overrides: Overrides,
    api_key: Seq<char>,
    context_prefix: Option<Seq<char>>,
    suggestions: Option<u8>,
    ignore_space: Option<bool>,
    max_tokens: Option<u64>,
    model: Option<Model>,
)
    requires
        overrides.max_tokens matches Some(n) ==> 0 <= n,
    ensures
        resolved(
            overrides,
            Settings::with_defaults(
                api_key,
                context_prefix,
                suggestions,
                ignore_space,
                max_tokens,
                model,
            ),
        ).max_tokens == match (overrides.max_tokens, max_tokens) {
            (Some(n), _) => n as int,
            (None, Some(n)) => n as int,
            (None, None) => DEFAULT_TOKENS as int,
        },
{
}

} // verus!
