//! The model providers that a policy can govern.

use vstd::prelude::*;
use crate::text::owned;

verus! {

/// The companies whose models a policy can govern.
#[derive(Clone, Copy, Debug, PartialEq, Eq, Structural)]
pub enum Provider {
    OpenAI,
    Anthropic,
    Google,
    Azure,
    DeepSeek,
}

impl Provider {
    /// The provider's name as it is shown.
    pub open spec fn label(self) -> Seq<char> {
        match self {
            Provider::OpenAI => "OpenAI"@,
            Provider::Anthropic => "Anthropic"@,
            Provider::Google => "Google"@,
            Provider::Azure => "Azure"@,
            Provider::DeepSeek => "DeepSeek"@,
        }
    }

    /// The provider's name as it is shown.
    pub fn name(&self) -> (r: String)
        ensures
            r@ == self.label(),
    {
        match self {
            Provider::OpenAI => owned("OpenAI"),
            Provider::Anthropic => owned("Anthropic"),
            Provider::Google => owned("Google"),
            Provider::Azure => owned("Azure"),
            Provider::DeepSeek => owned("DeepSeek"),
        }
    }
}

} // verus!
