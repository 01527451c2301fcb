//! The closed set of completion models and their names on the wire.

use vstd::prelude::*;
use vstd::string::*;

verus! {

/// A completion model that the service offers.
#[derive(Clone, Copy, Debug, PartialEq, Eq, Structural, PartialOrd, Ord, Hash)]
pub enum Model {
    GPT3X5Turbo,
    GPT3X5Turbo0301,
    GPT4,
}

/// The model whose wire name is `name`, if there is one.
pub open spec fn model_named(name: Seq<char>) -> Option<Model> {
    if name == "gpt-3.5-turbo"@ {
        Some(Model::GPT3X5Turbo)
    } else if name == "gpt-3.5-turbo-0301"@ {
        Some(Model::GPT3X5Turbo0301)
    } else if name == "gpt-4"@ {
        Some(Model::GPT4)
    } else {
        None
    }
}

impl Model {
    /// The identifier under which the service knows this model.
    pub open spec fn wire_name(self) -> Seq<char> {
        match self {
            Model::GPT3X5Turbo => "gpt-3.5-turbo"@,
            Model::GPT3X5Turbo0301 => "gpt-3.5-turbo-0301"@,
            Model::GPT4 => "gpt-4"@,
        }
    }

    /// The wire name as an owned string.
    pub fn to_string(&self) -> (name: String)
        ensures
            name@ == self.wire_name(),
    {
        match self {
            Model::GPT3X5Turbo => String::from_str("gpt-3.5-turbo"),
            Model::GPT3X5Turbo0301 => String::from_str("gpt-3.5-turbo-0301"),
            Model::GPT4 => String::from_str("gpt-4"),
        }
    }

    /// Looks a model up by its wire name. Names are matched exactly.
    pub fn from_name(name: &str) -> (model: Option<Model>)
        ensures
            model == model_named(name@),
    {
        let given = String::from_str(name);
        if given == String::from_str("gpt-3.5-turbo") {
            Some(Model::GPT3X5Turbo)
        } else if given == String::from_str("gpt-3.5-turbo-0301") {
            Some(Model::GPT3X5Turbo0301)
        } else if given == String::from_str("gpt-4") {
            Some(Model::GPT4)
        } else {
            None
        }
    }
}

impl Default for Model {
    /// The first model of the enumeration.
    fn default() -> (model: Model)
        ensures
            model == Model::GPT3X5Turbo,
    {
        Model::GPT3X5Turbo
    }
}

/// No two models share a wire name.
pub proof fn lemma_wire_names_distinct(a: Model, b: Model)
    ensures
        a.wire_name() == b.wire_name() <==> a == b,
{
    reveal_strlit("gpt-3.5-turbo");
    reveal_strlit("gpt-3.5-turbo-0301");
    reveal_strlit("gpt-4");
    assert("gpt-3.5-turbo-0301"@.len() == 18);
    assert("gpt-4"@.len() == 5);
}

/// Looking a model up by its own wire name finds that model, and a name
/// that finds a model is that model's wire name.
pub proof fn lemma_name_round_trip(m: Model, name: Seq<char>)
    ensures
        model_named(m.wire_name()) == Some(m),
        model_named(name) == Some(m) <==> name == m.wire_name(),
{
    lemma_wire_names_distinct(m, Model::GPT3X5Turbo);
    lemma_wire_names_distinct(m, Model::GPT3X5Turbo0301);
    lemma_wire_names_distinct(m, Model::GPT4);
}

} // verus!
