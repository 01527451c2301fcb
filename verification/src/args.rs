//! What the operator asks for on the command line.

use vstd::prelude::*;

use crate::config::{MAX_SUGGESTIONS, MAX_TOKENS, MIN_SUGGESTIONS, MIN_TOKENS};
use crate::error::{ConfigFault, ConfigFaultView, Error, ErrorView};
use crate::model::Model;

verus! {

/// The values given at invocation time. Each one that is present takes
/// the place of the corresponding setting.
#[derive(Debug, PartialEq, Eq)]
pub struct Args {
    /// How many candidate messages to ask for.
    pub suggestions: Option<i64>,
    /// Whether whitespace-only and blank-line changes are left out.
    pub ignore_space: Option<bool>,
    /// The most tokens the service may spend on one candidate.
    pub max_tokens: Option<i64>,
    /// The completion model.
    pub model: Option<Model>,
    /// The paths that the diff is restricted to; all staged files if empty.
    pub path: Vec<String>,
    /// Why the change was made, in the operator's words.
    pub reason: String,
}

/// The invocation's values as a mathematical record.
pub struct Overrides {
    pub suggestions: Option<i64>,
    pub ignore_space: Option<bool>,
    pub max_tokens: Option<i64>,
    pub model: Option<Model>,
    pub path: Seq<Seq<char>>,
    pub reason: Seq<char>,
}

impl View for Args {
    type V = Overrides;

    open spec fn view(&self) -> Overrides {
        Overrides {
            suggestions: self.suggestions,
            ignore_space: self.ignore_space,
            max_tokens: self.max_tokens,
            model: self.model,
            path: self.path.deep_view(),
            reason: self.reason@,
        }
    }
}

impl Overrides {
    /// The first bound that a present value breaks, if one does: the
    /// suggestions are looked at before the token limit.
    pub open spec fn fault(self) -> Option<ConfigFaultView> {
        if self.suggestions matches Some(n) && !(MIN_SUGGESTIONS <= n <= MAX_SUGGESTIONS) {
            Some(ConfigFaultView::Suggestions)
        } else if self.max_tokens matches Some(n) && !(MIN_TOKENS <= n <= MAX_TOKENS) {
            Some(ConfigFaultView::MaxTokens)
        } else {
            None
        }
    }

    /// Every number that is present lies within the bounds of its setting.
    pub open spec fn valid(self) -> bool {
        &&& self.suggestions matches Some(n) ==> MIN_SUGGESTIONS <= n <= MAX_SUGGESTIONS
        &&& self.max_tokens matches Some(n) ==> MIN_TOKENS <= n <= MAX_TOKENS
    }
}

impl Args {
    /// Checks the bounds of the numbers that are present. The values are
    /// accepted as they are or turned down with the first bound they break.
    pub fn validate(&self) -> (checked: Result<(), Error>)
        ensures
            checked is Ok <==> self@.valid(),
            match checked {
                Ok(_) => self@.fault() is None,
                Err(error) => self@.fault() matches Some(fault) && error@ == ErrorView::Config(
                    fault,
                ),
            },
    {
        if let Some(n) = self.suggestions {
            if n < MIN_SUGGESTIONS as i64 || n > MAX_SUGGESTIONS as i64 {
                return Err(Error::Config(ConfigFault::Suggestions));
            }
        }
        if let Some(n) = self.max_tokens {
            if n < MIN_TOKENS as i64 || n > MAX_TOKENS as i64 {
                return Err(Error::Config(ConfigFault::MaxTokens));
            }
        }
        Ok(())
    }
}

} // verus!
