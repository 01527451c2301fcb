//! The request that goes to the completion service, and the reading of
//! what comes back.

use vstd::prelude::*;

use crate::config::{Config, Settings};
use crate::error::{Error, ErrorView};
use crate::prompt::{build, prompt_of, Message, MessageView};

verus! {

/// One request to the completion service.
#[derive(Debug, PartialEq, Eq)]
pub struct CompletionRequest {
    /// The model's name on the wire.
    pub model: String,
    /// How many candidates are asked for.
    pub n: u8,
    /// The most tokens the service may spend on one candidate.
    pub max_tokens: u64,
    /// The prompt: the system message, then the user message.
    pub messages: Vec<Message>,
}

/// A request as a mathematical value.
pub struct RequestView {
    pub model: Seq<char>,
    pub n: u8,
    pub max_tokens: u64,
    pub messages: Seq<MessageView>,
}

impl View for CompletionRequest {
    type V = RequestView;

    open spec fn view(&self) -> RequestView {
        RequestView {
            model: self.model@,
            n: self.n,
            max_tokens: self.max_tokens,
            messages: self.messages.deep_view(),
        }
    }
}

/// What the service answered.
#[derive(Debug, PartialEq, Eq)]
pub enum Reply {
    /// Anything but success; the text is the body of the response.
    Failure(String),
    /// Success, with the generated texts in the order of the choices.
    Choices(Vec<String>),
}

/// A reply as a mathematical value.
pub enum ReplyView {
    Failure(Seq<char>),
    Choices(Seq<Seq<char>>),
}

impl View for Reply {
    type V = ReplyView;

    open spec fn view(&self) -> ReplyView {
        match self {
            Reply::Failure(body) => ReplyView::Failure(body@),
            Reply::Choices(texts) => ReplyView::Choices(texts.deep_view()),
        }
    }
}

/// The request for the settings in force, a reason and a diff: the
/// model's wire name, the number of suggestions, the token limit, and the
/// prompt built on the settings' context prefix.
pub open spec fn request_of(settings: Settings, reason: Seq<char>, diff: Seq<char>) -> RequestView {
    RequestView {
        model: settings.model.wire_name(),
        n: settings.suggestions,
        max_tokens: settings.max_tokens,
        messages: prompt_of(reason, diff, settings.context_prefix),
    }
}

/// Whether every choice came with a text.
pub open spec fn all_present(contents: Seq<Option<Seq<char>>>) -> bool {
    forall|i: int| 0 <= i < contents.len() ==> (#[trigger] contents[i]) is Some
}

/// The texts of the choices, in their order.
pub open spec fn texts_of(contents: Seq<Option<Seq<char>>>) -> Seq<Seq<char>> {
    Seq::new(contents.len(), |i: int| contents[i]->0)
}

/// What a reply means: a failure is the fetch error with the body as it
/// came, and the choices are the candidates, none dropped or reordered.
pub open spec fn reply_outcome(reply: ReplyView) -> Result<Seq<Seq<char>>, ErrorView> {
    match reply {
        ReplyView::Failure(body) => Err(ErrorView::FetchData(body)),
        ReplyView::Choices(texts) => Ok(texts),
    }
}

/// Builds the request for the settings in force.
pub fn request(settings: &Config, reason: &str, diff: &str) -> (wanted: CompletionRequest)
    ensures
        wanted@ == request_of(settings@, reason@, diff@),
{
    CompletionRequest {
        model: settings.model.to_string(),
        n: settings.suggestions,
        max_tokens: settings.max_tokens,
        messages: build(reason, diff, settings.context_prefix.as_str()),
    }
}

/// Takes the texts out of the choices of a successful response. There is
/// a result only where every choice has a text: a choice without one is
/// neither skipped nor stood in for.
pub fn candidates(contents: Vec<Option<String>>) -> (found: Option<Vec<String>>)
    ensures
        found is Some <==> all_present(contents.deep_view()),
        found matches Some(texts) ==> texts.deep_view() == texts_of(contents.deep_view()),
{
    let mut texts: Vec<String> = Vec::new();
    let mut i: usize = 0;
    while i < contents.len()
        invariant
            i <= contents.len(),
            texts.len() == i,
            forall|k: int| 0 <= k < i ==> contents[k] is Some && texts[k]@ == contents[k]->0@,
        decreases contents.len() - i,
    {
        match &contents[i] {
            Some(text) => {
                texts.push(text.clone());
            },
            None => {
                assert(contents.deep_view()[i as int] is None);
                return None;
            },
        }
        i += 1;
    }
    assert forall|k: int| 0 <= k < contents.deep_view().len() implies (
    #[trigger] contents.deep_view()[k]) is Some by {
        assert(contents[k] is Some);
    }
    Some(texts)
}

/// Reads a reply of the service.
pub fn read_reply(reply: Reply) -> (read: Result<Vec<String>, Error>)
    ensures
        match read {
            Ok(texts) => reply_outcome(reply@) == Ok::<Seq<Seq<char>>, ErrorView>(texts.deep_view()),
            Err(error) => reply_outcome(reply@) == Err::<Seq<Seq<char>>, ErrorView>(error@),
        },
{
    match reply {
        Reply::Failure(body) => Err(Error::FetchData(body)),
        Reply::Choices(texts) => Ok(texts),
    }
}

} // verus!
