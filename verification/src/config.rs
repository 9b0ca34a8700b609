//! The settings of the program, with their defaults.

use vstd::prelude::*;
use crate::grammar::{commit_types, conventional_types};
use crate::text::texts;

verus! {

/// The model that is asked where none is chosen.
pub const DEFAULT_MODEL: &'static str = "mistralai/Mixtral-8x7B-Instruct-v0.1";

/// The temperature at which the model is asked where none is chosen, in
/// thousandths.
pub const DEFAULT_TEMPERATURE_PERMILLE: u32 = 300;

/// The number of tokens that an answer may have where none is chosen.
pub const DEFAULT_MAX_TOKENS: u32 = 100;

/// The length that a commit message should stay under.
pub const DEFAULT_MAX_LENGTH: usize = 72;

/// The instruction that tells the model the rules of a commit message.
pub const DEFAULT_SYSTEM_PROMPT: &'static str = "You are a highly skilled developer who writes perfect conventional commit messages. \
    Your task is to analyze git diffs and generate commit messages that strictly follow the Conventional Commits specification.\n\n\
    COMMIT FORMAT RULES:\n\
    1. Messages MUST follow this exact structure: type(scope): description\n\
    2. Valid types are: feat, fix, docs, style, refactor, perf, test, build, ci, chore, revert\n\
    3. Scope should be the main component being changed (e.g., auth, api, core)\n\
    4. Description must:\n\
    - Start with a lowercase letter\n\
    - Use imperative mood (e.g., 'add' not 'adds')\n\
    - No period at the end\n\
    - Stay under 72 characters total\n\n\
    EXAMPLES BY CHANGE TYPE:\n\
    1. Initial Project Setup:\n\
    \u{2713} feat(core): implement AI commit generator with Together.ai and async traits\n\
    \u{2713} feat(arch): establish modular design with CLI and configuration system\n\
    \u{2717} feat(project): initialize repository with basic files\n\
    \u{2717} chore: initial commit\n\n\
    2. Architecture and Core Features:\n\
    \u{2713} feat(arch): add provider-based design with async trait system\n\
    \u{2713} feat(core): integrate AI with retry logic and error handling\n\
    \u{2717} feat: add new features\n\n\
    3. CLI and Configuration:\n\
    \u{2713} feat(cli): add command-line interface with comprehensive options\n\
    \u{2713} feat(config): implement TOML-based configuration system\n\
    \u{2717} feat: add CLI tool\n\n\
    INITIAL COMMIT REQUIREMENTS:\n\
    1. Must be concise but informative (under 72 chars):\n\
    - Focus on 1-2 key architectural patterns\n\
    - Mention primary integration\n\
    - Highlight main feature\n\
    2. Must highlight unique aspects:\n\
    - AI provider integration\n\
    - Error handling approach\n\
    - Configuration system\n\
    3. Use appropriate scope:\n\
    - 'core' for fundamental features\n\
    - 'arch' for architectural decisions\n\
    - 'project' only for basic setup\n\
    4. Be focused and precise:\n\
    - Choose most important components\n\
    - Prioritize key technologies\n\
    - Select defining patterns";

/// The request to the model.  The first `{}` stands for the summary of the
/// classification, the second for the diff.
pub const DEFAULT_USER_PROMPT_TEMPLATE: &'static str = "Generate a conventional commit message for the following git diff.\n\
    The message MUST strictly follow the conventional commit format rules specified above.\n\
    This is a {}, so ensure the message reflects the scope of changes.\n\
    For initial commits, focus on key architectural decisions and stay under 72 characters.\n\
    Validate your message against the examples and rules before returning it.\n\
    Only return the commit message, nothing else.\n\n\
    Diff:\n{}";

/// The models that can be chosen, each with a word on what it is good for.
/// The first is the default.
pub const AVAILABLE_MODELS: [(&'static str, &'static str); 5] = [
    ("mistralai/Mixtral-8x7B-Instruct-v0.1", "Best overall performance, recommended default"),
    ("meta-llama/Llama-2-70b-chat-hf", "Excellent for detailed analysis"),
    ("mistralai/Mistral-7B-Instruct-v0.2", "Fast and efficient"),
    ("NousResearch/Nous-Hermes-2-Mixtral-8x7B-DPO", "Optimized for coding tasks"),
    ("openchat/openchat-3.5-0106", "Good balance of performance and speed"),
];

/// How the model is asked.
#[derive(Debug, Clone)]
pub struct AiConfig {
    /// The model to use.
    pub model: String,
    /// The temperature of the model's output, in thousandths: 0 to 1000.
    pub temperature_permille: u32,
    /// The largest number of tokens in the answer.
    pub max_tokens: u32,
    /// The sequences at which the model stops.
    pub stop_sequences: Vec<String>,
    /// The instruction that tells the model the rules.
    pub system_prompt: String,
    /// The request to the model, with `{}` for the summary of the
    /// classification and `{}` for the diff.
    pub user_prompt_template: String,
}

/// Where the repository is and what of it is read.
#[derive(Debug, Clone)]
pub struct GitConfig {
    /// The path of the repository.
    pub repo_path: String,
    /// Whether files that are not tracked belong to the diff.
    pub include_untracked: bool,
    /// Whether the diff is shown before the message is generated.
    pub show_diff: bool,
}

/// What is done with the message.
#[derive(Debug, Clone)]
pub struct CommitConfig {
    /// The commit types that are allowed.
    pub allowed_types: Vec<String>,
    /// The length that a message should stay under.
    pub max_length: usize,
    /// Whether the changes are committed once the message is there.
    pub auto_commit: bool,
    /// Whether the structure of the message is checked.
    pub verify_format: bool,
    /// Whether the user is asked before the changes are committed.
    pub require_confirmation: bool,
}

/// All settings.
#[derive(Debug, Clone)]
pub struct Config {
    pub ai: AiConfig,
    pub git: GitConfig,
    pub commit: CommitConfig,
}

impl AiConfig {
    /// The settings are the defaults.
    pub open spec fn is_default(&self) -> bool {
        &&& self.model@ == DEFAULT_MODEL@
        &&& self.temperature_permille == DEFAULT_TEMPERATURE_PERMILLE
        &&& self.max_tokens == DEFAULT_MAX_TOKENS
        &&& texts(self.stop_sequences@) == seq!["\n"@]
        &&& self.system_prompt@ == DEFAULT_SYSTEM_PROMPT@
        &&& self.user_prompt_template@ == DEFAULT_USER_PROMPT_TEMPLATE@
    }
}

impl GitConfig {
    /// The settings are the defaults.
    pub open spec fn is_default(&self) -> bool {
        &&& self.repo_path@ == "."@
        &&& self.include_untracked
        &&& !self.show_diff
    }
}

impl CommitConfig {
    /// The settings are the defaults.
    pub open spec fn is_default(&self) -> bool {
        &&& texts(self.allowed_types@) == commit_types()
        &&& self.max_length == DEFAULT_MAX_LENGTH
        &&& !self.auto_commit
        &&& self.verify_format
        &&& self.require_confirmation
    }
}

impl Default for AiConfig {
    fn default() -> (config: AiConfig)
        ensures
            config.is_default(),
    {
        let mut stop_sequences: Vec<String> = Vec::new();
        stop_sequences.push("\n".to_owned());
        assert(texts(stop_sequences@) =~= seq!["\n"@]);
        AiConfig {
            model: DEFAULT_MODEL.to_owned(),
            temperature_permille: DEFAULT_TEMPERATURE_PERMILLE,
            max_tokens: DEFAULT_MAX_TOKENS,
            stop_sequences,
            system_prompt: DEFAULT_SYSTEM_PROMPT.to_owned(),
            user_prompt_template: DEFAULT_USER_PROMPT_TEMPLATE.to_owned(),
        }
    }
}

impl Default for GitConfig {
    fn default() -> (config: GitConfig)
        ensures
            config.is_default(),
    {
        GitConfig { repo_path: ".".to_owned(), include_untracked: true, show_diff: false }
    }
}

impl Default for CommitConfig {
    fn default() -> (config: CommitConfig)
        ensures
            config.is_default(),
    {
        CommitConfig {
            allowed_types: conventional_types(),
            max_length: DEFAULT_MAX_LENGTH,
            auto_commit: false,
            verify_format: true,
            require_confirmation: true,
        }
    }
}

impl Default for Config {
    fn default() -> (config: Config)
        ensures
            config.ai.is_default(),
            config.git.is_default(),
            config.commit.is_default(),
    {
        Config {
            ai: AiConfig::default(),
            git: GitConfig::default(),
            commit: CommitConfig::default(),
        }
    }
}

} // verus!
