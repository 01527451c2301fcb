//! One invocation: the settings record together with the invocation's
//! values, and what the two ask of each step.

use vstd::prelude::*;

use crate::args::{Args, Overrides};
use crate::completion::{request, request_of, CompletionRequest, RequestView};
use crate::config::{Config, Settings};
use crate::diff::{diff_arguments, diff_arguments_of};
use crate::prompt::{system_message, user_message, user_text, Message, MessageView, Role};
use crate::settings::{resolve, resolved};

verus! {

/// One invocation of the tool.
#[derive(Debug, PartialEq, Eq)]
pub struct Cli {
    /// The settings record, as read from its source.
    pub config: Config,
    /// The values given at invocation time.
    pub args: Args,
}

/// An invocation as a mathematical value.
pub struct CliView {
    pub config: Settings,
    pub args: Overrides,
}

impl View for Cli {
    type V = CliView;

    open spec fn view(&self) -> CliView {
        CliView { config: self.config@, args: self.args@ }
    }
}

impl CliView {
    /// The settings in force for this invocation.
    pub open spec fn settings(self) -> Settings {
        resolved(self.args, self.config)
    }

    /// The arguments of the diff command for this invocation.
    pub open spec fn diff_arguments(self) -> Seq<Seq<char>> {
        diff_arguments_of(self.settings().ignore_space, self.args.path)
    }

    /// The request that this invocation sends for a diff.
    pub open spec fn request(self, diff: Seq<char>) -> RequestView {
        request_of(self.settings(), self.args.reason, diff)
    }
}

impl Cli {
    /// Puts the settings record and the invocation's values together.
    pub fn new(config: Config, args: Args) -> (cli: Cli)
        ensures
            cli.config == config,
            cli.args == args,
    {
        Cli { config, args }
    }

    /// The settings in force: the invocation's values over the record's.
    pub fn settings(&self) -> (settings: Config)
        ensures
            settings@ == self@.settings(),
    {
        resolve(&self.args, &self.config)
    }

    /// The arguments that ask the version-control tool for the staged
    /// diff of this invocation.
    pub fn diff_arguments(&self) -> (arguments: Vec<String>)
        ensures
            arguments.deep_view() == self@.diff_arguments(),
    {
        let ignore_space = match self.args.ignore_space {
            Some(ignore) => ignore,
            None => self.config.ignore_space,
        };
        diff_arguments(ignore_space, &self.args.path)
    }

    /// The system message: the context prefix as it is.
    pub fn get_system_message(&self, context_prefix: String) -> (message: Message)
        ensures
            message@ == (MessageView { role: Role::System, content: context_prefix@ }),
    {
        system_message(context_prefix)
    }

    /// The user message: the invocation's reason and the excerpt of the
    /// diff.
    pub fn get_user_message(&self, diff: String) -> (message: Message)
        ensures
            message@ == (MessageView {
                role: Role::User,
                content: user_text(self@.args.reason, diff@),
            }),
    {
        user_message(self.args.reason.as_str(), diff.as_str())
    }

    /// The request that this invocation sends for a diff.
    pub fn request(&self, diff: String) -> (wanted: CompletionRequest)
        ensures
            wanted@ == self@.request(diff@),
    {
        let settings = self.settings();
        request(&settings, self.args.reason.as_str(), diff.as_str())
    }
}

} // verus!
