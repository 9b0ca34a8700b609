//! What goes to a model and how it is asked for a commit message.

use vstd::prelude::*;
use vstd::string::StringExecFns;

verus! {

/// The role of the message that instructs the model.
pub const ROLE_SYSTEM: &'static str = "system";

/// The role of the message that carries the request.
pub const ROLE_USER: &'static str = "user";

/// The instruction for any model that is asked for a commit message.
pub const COMMIT_SYSTEM_PROMPT: &'static str = "You are a highly skilled developer who writes perfect conventional commit messages. \
    You analyze git diffs and generate commit messages following the Conventional Commits specification. \
    Your messages should be descriptive and precise, following this format:\n\
    - For small changes: type(scope): concise description\n\
    - For large changes (>5 files or >100 lines): type(scope): comprehensive description of main changes\n\
    The type must be one of: feat, fix, docs, style, refactor, perf, test, build, ci, chore, revert.\n\
    The scope should reflect the main component being changed.\n\
    The description should be clear, precise, and written in imperative mood.\n\
    For large changes, ensure the description captures the major components being modified.";

/// The request for a commit message, in front of the diff.
pub const COMMIT_USER_PROMPT: &'static str = "Generate a conventional commit message for the following git diff.\n\
    The message must follow the conventional commit format.\n\
    If the diff is large (>5 files or >100 lines), make the description more comprehensive.\n\
    Only return the commit message, nothing else.\n\n\
    Diff:\n";

/// A message in a conversation.
#[derive(Debug, Clone)]
pub struct Message {
    pub role: String,
    pub content: String,
}

/// The parameters of a generation.
#[derive(Debug, Clone)]
pub struct GenerationConfig {
    /// The temperature, in thousandths.
    pub temperature_permille: u32,
    /// The largest number of tokens in the answer.
    pub max_tokens: u32,
    /// The sequences at which the model stops.
    pub stop_sequences: Vec<String>,
}

/// What a model is given: the conversation and the parameters.
#[derive(Debug, Clone)]
pub struct ModelContext {
    pub messages: Vec<Message>,
    pub config: GenerationConfig,
}

impl Message {
    /// The message has the given role and content.
    pub open spec fn says(&self, role: Seq<char>, content: Seq<char>) -> bool {
        self.role@ == role && self.content@ == content
    }

    /// A message with the given role and content.
    pub fn new(role: &str, content: String) -> (m: Message)
        ensures
            m.says(role@, content@),
    {
        Message { role: role.to_owned(), content }
    }
}

/// The parameters with which a model is asked where its user sets none: a
/// temperature of three tenths, a hundred tokens, and a stop at the end of
/// the first line.
pub fn default_generation_config() -> (config: GenerationConfig)
    ensures
        config.temperature_permille == 300,
        config.max_tokens == 100,
        config.stop_sequences@.len() == 1,
        config.stop_sequences@[0]@ == "\n"@,
{
    let mut stop_sequences: Vec<String> = Vec::new();
    stop_sequences.push("\n".to_owned());
    GenerationConfig { temperature_permille: 300, max_tokens: 100, stop_sequences }
}

/// The conversation that asks for a commit message for `diff`: the
/// instruction, then the request with the diff at its end.
pub open spec fn is_commit_conversation(messages: Seq<Message>, diff: Seq<char>) -> bool {
    &&& messages.len() == 2
    &&& messages[0].says(ROLE_SYSTEM@, COMMIT_SYSTEM_PROMPT@)
    &&& messages[1].says(ROLE_USER@, COMMIT_USER_PROMPT@ + diff)
}

/// What a model is given to write a commit message for `diff`, with the
/// parameters of `config`.
pub fn commit_message_context(diff: &str, config: GenerationConfig) -> (context: ModelContext)
    ensures
        is_commit_conversation(context.messages@, diff@),
        context.config == config,
{
    let mut request = COMMIT_USER_PROMPT.to_owned();
    request.append(diff);
    let mut messages: Vec<Message> = Vec::new();
    messages.push(Message::new(ROLE_SYSTEM, COMMIT_SYSTEM_PROMPT.to_owned()));
    messages.push(Message::new(ROLE_USER, request));
    ModelContext { messages, config }
}

} // verus!
