//! The text reply: the prompt embedded in a fixed template.

use crate::text::{contains, lemma_contains_embedded};
use vstd::prelude::*;
use vstd::string::StrSliceExecFns;
use vstd::string::StringExecFns;

verus! {

/// What every reply starts with; the prompt follows it unchanged.
pub const REPLY_PREFIX: &'static str = "로컬 LLM 응답: ";

/// The model that every reply is attributed to.
pub const DEFAULT_MODEL: &'static str = "phi-3.5-mini";

/// A reply to a prompt.
#[derive(Debug, PartialEq, Eq)]
pub struct LLMResponse {
    /// The reply itself.
    pub text: String,
    /// How many tokens the prompt was counted as, where it was counted.
    pub tokens_used: Option<u32>,
    /// The model that the reply is attributed to.
    pub model: String,
}

/// An [`LLMResponse`] with its strings as sequences of characters.
pub ghost struct LLMResponseView {
    pub text: Seq<char>,
    pub tokens_used: Option<u32>,
    pub model: Seq<char>,
}

impl View for LLMResponse {
    type V = LLMResponseView;

    open spec fn view(&self) -> LLMResponseView {
        LLMResponseView { text: self.text@, tokens_used: self.tokens_used, model: self.model@ }
    }
}

/// The token count of a prompt: its length in characters, of which the low 32
/// bits are kept.
pub open spec fn token_count(prompt: Seq<char>) -> u32 {
    (prompt.len() % 0x1_0000_0000) as u32
}

/// The reply to `prompt`.
pub open spec fn reply_to(prompt: Seq<char>) -> LLMResponseView {
    LLMResponseView {
        text: REPLY_PREFIX@ + prompt,
        tokens_used: Some(token_count(prompt)),
        model: DEFAULT_MODEL@,
    }
}

/// The reply holds the prompt word for word, and counts its characters
/// exactly as long as the count fits in 32 bits.
pub proof fn lemma_reply_embeds_prompt(prompt: Seq<char>)
    ensures
        contains(reply_to(prompt).text, prompt),
        prompt.len() <= u32::MAX ==> reply_to(prompt).tokens_used == Some(prompt.len() as u32),
{
    lemma_contains_embedded(REPLY_PREFIX@, prompt, Seq::empty());
    assert(REPLY_PREFIX@ + prompt + Seq::<char>::empty() =~= REPLY_PREFIX@ + prompt);
}

/// Counts the characters of `prompt` as tokens.
pub fn count_tokens(prompt: &str) -> (n: u32)
    ensures
        n == token_count(prompt@),
{
    let len: usize = prompt.unicode_len();
    let low: u64 = (len as u64) % 0x1_0000_0000u64;
    low as u32
}

/// Answers `prompt` with the canned reply. Never fails.
pub fn generate_response(prompt: String) -> (r: Result<LLMResponse, String>)
    ensures
        r is Ok,
        r->Ok_0@ == reply_to(prompt@),
        contains(r->Ok_0.text@, prompt@),
        prompt@.len() <= u32::MAX ==> r->Ok_0.tokens_used == Some(prompt@.len() as u32),
{
    let tokens = count_tokens(prompt.as_str());
    let text = String::from_str(REPLY_PREFIX).concat(prompt.as_str());
    proof {
        lemma_reply_embeds_prompt(prompt@);
    }
    Ok(LLMResponse { text, tokens_used: Some(tokens), model: String::from_str(DEFAULT_MODEL) })
}

} // verus!
