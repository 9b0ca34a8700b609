//! The request that asks the completion endpoint for a commit message.

use vstd::prelude::*;
use vstd::string::StringExecFns;
use crate::classify::{summary, CommitContext};
use crate::config::AiConfig;
use crate::protocol::{Message, ROLE_SYSTEM, ROLE_USER};
use crate::text::{
    before_first, contains, copy_range, find_first, first_occurrence, from_chars,
    lemma_first_occurrence, to_chars,
};

verus! {

/// The mark in a template that stands for a value.
pub const PLACEHOLDER: &'static str = "{}";

/// A request to the completion endpoint.
#[derive(Debug, Clone)]
pub struct ChatRequest {
    /// The model that is asked.
    pub model: String,
    /// The conversation so far.
    pub messages: Vec<Message>,
    /// The temperature, in thousandths.
    pub temperature_permille: u32,
    /// The largest number of tokens in the answer.
    pub max_tokens: u32,
    /// The sequences at which the model stops.
    pub stop: Vec<String>,
}

/// What follows the first placeholder of a template that has one.
pub open spec fn after_placeholder(template: Seq<char>) -> Seq<char> {
    template.skip(first_occurrence(template, PLACEHOLDER@) + PLACEHOLDER@.len())
}

/// `template` with `value` in the place of its first placeholder, or
/// unchanged where it has none.
pub open spec fn fill_first(template: Seq<char>, value: Seq<char>) -> Seq<char> {
    if contains(template, PLACEHOLDER@) {
        before_first(template, PLACEHOLDER@) + value + after_placeholder(template)
    } else {
        template
    }
}

/// The request to the model: the template with the summary of the
/// classification in the place of its first placeholder and the diff in the
/// place of its second.  A placeholder that the template lacks is not
/// filled, and neither value is searched for placeholders.
pub open spec fn user_prompt(template: Seq<char>, summary: Seq<char>, diff: Seq<char>) -> Seq<
    char,
> {
    if contains(template, PLACEHOLDER@) {
        before_first(template, PLACEHOLDER@) + summary + fill_first(
            after_placeholder(template),
            diff,
        )
    } else {
        template
    }
}

/// Splits a template at its first placeholder.
fn split_at_placeholder(template: &Vec<char>) -> (parts: Option<(Vec<char>, Vec<char>)>)
    ensures
        match parts {
            Some((front, back)) => {
                &&& contains(template@, PLACEHOLDER@)
                &&& front@ == before_first(template@, PLACEHOLDER@)
                &&& back@ == after_placeholder(template@)
            },
            None => !contains(template@, PLACEHOLDER@),
        },
{
    let mark = to_chars(PLACEHOLDER);
    match find_first(template, &mark) {
        Some(i) => {
            proof {
                lemma_first_occurrence(template@, mark@, i as int);
            }
            let end: usize = template.len();
            Some((copy_range(template, 0, i), copy_range(template, i + mark.len(), end)))
        },
        None => None,
    }
}

/// The request to the model for a change with the given summary and diff.
pub fn fill_template(template: &str, summary: &str, diff: &str) -> (out: String)
    ensures
        out@ == user_prompt(template@, summary@, diff@),
{
    let chars = to_chars(template);
    match split_at_placeholder(&chars) {
        None => template.to_owned(),
        Some((front, rest)) => {
            let mut out = from_chars(&front);
            out.append(summary);
            match split_at_placeholder(&rest) {
                None => {
                    out.append(from_chars(&rest).as_str());
                },
                Some((middle, back)) => {
                    out.append(from_chars(&middle).as_str());
                    out.append(diff);
                    out.append(from_chars(&back).as_str());
                },
            }
            assert(out@ =~= user_prompt(template@, summary@, diff@));
            out
        },
    }
}

/// A copy of a list of strings.
pub fn copy_strings(list: &Vec<String>) -> (out: Vec<String>)
    ensures
        out@ == list@,
{
    let mut out: Vec<String> = Vec::new();
    let mut i: usize = 0;
    while i < list.len()
        invariant
            i <= list.len(),
            out@ == list@.take(i as int),
        decreases list.len() - i,
    {
        out.push(list[i].clone());
        assert(list@.take(i + 1) =~= list@.take(i as int).push(list@[i as int]));
        i += 1;
    }
    assert(list@.take(list.len() as int) =~= list@);
    out
}

/// The request asks the model of `config` for a commit message for `diff`,
/// whose classification is summarised as `described`, at the given
/// temperature.
pub open spec fn is_request_for(
    request: ChatRequest,
    config: AiConfig,
    described: Seq<char>,
    diff: Seq<char>,
    temperature_permille: u32,
) -> bool {
    &&& request.model@ == config.model@
    &&& request.messages@.len() == 2
    &&& request.messages@[0].says(ROLE_SYSTEM@, config.system_prompt@)
    &&& request.messages@[1].says(
        ROLE_USER@,
        user_prompt(config.user_prompt_template@, described, diff),
    )
    &&& request.temperature_permille == temperature_permille
    &&& request.max_tokens == config.max_tokens
    &&& request.stop@ == config.stop_sequences@
}

/// Builds the request that asks for a commit message for `diff`.
pub fn build_request(
    config: &AiConfig,
    context: &CommitContext,
    diff: &str,
    temperature_permille: u32,
) -> (request: ChatRequest)
    ensures
        is_request_for(
            request,
            *config,
            summary(context.category, context.signals()),
            diff@,
            temperature_permille,
        ),
{
    let described = context.to_prompt_context();
    let user = fill_template(config.user_prompt_template.as_str(), described.as_str(), diff);
    let mut messages: Vec<Message> = Vec::new();
    messages.push(Message::new(ROLE_SYSTEM, config.system_prompt.clone()));
    messages.push(Message::new(ROLE_USER, user));
    ChatRequest {
        model: config.model.clone(),
        messages,
        temperature_permille,
        max_tokens: config.max_tokens,
        stop: copy_strings(&config.stop_sequences),
    }
}

} // verus!
