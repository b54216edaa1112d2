//! Model profiles, model pointers and the settings that hold them.

use vstd::prelude::*;
use std::collections::HashMap;
use crate::text::{owned, chars_of, lowercase, lower_of, str_contains, contains_seq};

verus! {

/// The provider a model profile talks to.
#[derive(Debug, Clone, Copy, PartialEq, Eq, Structural)]
pub enum ProviderType {
    Anthropic,
    OpenAI,
    Mistral,
    Deepseek,
    Kimi,
    Qwen,
    Glm,
    Minimax,
    BaiduQianfan,
    Siliconflow,
    Bigdream,
    Opendev,
    Xai,
    Groq,
    Gemini,
    Ollama,
    Azure,
    Custom,
    CustomOpenAI,
}

pub open spec fn opt_str(o: Option<&str>) -> Option<Seq<char>> {
    match o {
        Some(s) => Some(s@),
        None => None,
    }
}

/// The endpoint a provider uses when a profile names none.
pub open spec fn provider_base_url(p: ProviderType) -> Option<Seq<char>> {
    match p {
        ProviderType::Anthropic => Some("https://api.anthropic.com"@),
        ProviderType::OpenAI | ProviderType::CustomOpenAI => Some("https://api.openai.com/v1"@),
        ProviderType::Groq => Some("https://api.groq.com/openai/v1"@),
        ProviderType::Ollama => Some("http://localhost:11434"@),
        _ => None,
    }
}

impl ProviderType {
    /// The provider's default endpoint; Azure, custom endpoints and the
    /// providers without a known one have none.
    pub fn default_base_url(&self) -> (r: Option<&'static str>)
        ensures
            opt_str(r) == provider_base_url(*self),
    {
        match self {
            ProviderType::Anthropic => Some("https://api.anthropic.com"),
            ProviderType::OpenAI | ProviderType::CustomOpenAI => Some("https://api.openai.com/v1"),
            ProviderType::Groq => Some("https://api.groq.com/openai/v1"),
            ProviderType::Ollama => Some("http://localhost:11434"),
            _ => None,
        }
    }

    /// Every provider but a local Ollama needs a key.
    pub fn requires_api_key(&self) -> (r: bool)
        ensures
            r == !(*self is Ollama),
    {
        match self {
            ProviderType::Ollama => false,
            _ => true,
        }
    }
}

/// How much reasoning a model is asked for.
#[derive(Debug, Clone, Copy, PartialEq, Eq, Structural)]
pub enum ReasoningEffort {
    Minimal,
    Low,
    Medium,
    High,
}

/// The outcome of the last check of a profile.
#[derive(Debug, Clone, Copy, PartialEq, Eq, Structural)]
pub enum ValidationStatus {
    Valid,
    NeedsRepair,
    AutoRepaired,
}

/// A configured model: provider, model identifier, credentials and limits.
#[derive(Debug, Clone)]
pub struct ModelProfile {
    pub name: String,
    pub provider: ProviderType,
    pub model_name: String,
    pub base_url: Option<String>,
    pub api_key: String,
    pub max_tokens: u32,
    pub context_length: u32,
    pub reasoning_effort: Option<ReasoningEffort>,
    pub is_active: bool,
    pub created_at: u64,
    pub last_used: Option<u64>,
    pub is_gpt5: Option<bool>,
    pub validation_status: Option<ValidationStatus>,
    pub last_validation: Option<u64>,
}

pub open spec fn opt_string(o: Option<String>) -> Option<Seq<char>> {
    match o {
        Some(s) => Some(s@),
        None => None,
    }
}

/// Whether a model identifier names a GPT-5 model, ignoring case.
pub open spec fn names_gpt5(model_name: Seq<char>) -> bool {
    contains_seq(lower_of(model_name), "gpt-5"@)
}

/// Relies on `SystemTime::now` and `SystemTime::duration_since`: the
/// seconds since the Unix epoch, or `None` for a clock set before it.
#[verifier::external_body]
fn unix_now_secs() -> (r: Option<u64>) {
    std::time::SystemTime::now().duration_since(std::time::UNIX_EPOCH).ok().map(|d| d.as_secs())
}

impl ModelProfile {
    /// A new, active profile whose endpoint is the provider's default. The
    /// creation time is the current clock.
    pub fn new(
        name: String,
        provider: ProviderType,
        model_name: String,
        api_key: String,
        max_tokens: u32,
        context_length: u32,
    ) -> (r: Self)
        ensures
            r.name@ == name@,
            r.provider == provider,
            r.model_name@ == model_name@,
            opt_string(r.base_url) == provider_base_url(provider),
            r.api_key@ == api_key@,
            r.max_tokens == max_tokens,
            r.context_length == context_length,
            r.reasoning_effort.is_none(),
            r.is_active,
            r.last_used.is_none(),
            r.is_gpt5.is_none(),
            r.validation_status.is_none(),
            r.last_validation.is_none(),
    {
        let base_url = match provider.default_base_url() {
            Some(u) => Some(owned(u)),
            None => None,
        };
        let created_at = match unix_now_secs() {
            Some(t) => t,
            None => 0,
        };
        ModelProfile {
            name,
            provider,
            model_name,
            base_url,
            api_key,
            max_tokens,
            context_length,
            reasoning_effort: None,
            is_active: true,
            created_at,
            last_used: None,
            is_gpt5: None,
            validation_status: None,
            last_validation: None,
        }
    }

    /// The profile's endpoint, or else the provider's default.
    pub fn effective_base_url(&self) -> (r: Option<String>)
        ensures
            opt_string(r) == match self.base_url {
                Some(u) => Some(u@),
                None => provider_base_url(self.provider),
            },
    {
        match &self.base_url {
            Some(u) => Some(u.clone()),
            None => match self.provider.default_base_url() {
                Some(u) => Some(owned(u)),
                None => None,
            },
        }
    }

    /// The recorded flag if there is one, else whether the model identifier
    /// contains `gpt-5` in any case.
    pub fn is_gpt5_model(&self) -> (r: bool)
        ensures
            r == match self.is_gpt5 {
                Some(b) => b,
                None => names_gpt5(self.model_name@),
            },
    {
        match self.is_gpt5 {
            Some(b) => b,
            None => {
                let lower = lowercase(self.model_name.as_str());
                str_contains(lower.as_str(), "gpt-5")
            },
        }
    }

    /// Records that the profile was used at `now` (seconds since the epoch).
    pub fn mark_used_at(&mut self, now: u64)
        ensures
            *final(self) == (ModelProfile { last_used: Some(now), ..*old(self) }),
    {
        self.last_used = Some(now);
    }

    /// Records that the profile was used now. Where the clock cannot be
    /// read, nothing changes.
    pub fn mark_used(&mut self)
        ensures
            *final(self) == (ModelProfile { last_used: final(self).last_used, ..*old(self) }),
            final(self).last_used is Some || final(self).last_used == old(self).last_used,
    {
        match unix_now_secs() {
            Some(t) => self.mark_used_at(t),
            None => {},
        }
    }
}

/// The roles a model can be assigned to.
#[derive(Debug, Clone, Copy, PartialEq, Eq, Hash, Structural)]
pub enum ModelPointerType {
    Main,
    Task,
    Reasoning,
    Quick,
}

/// The pointer type a name denotes, ignoring case.
pub open spec fn pointer_of_name(lower: Seq<char>) -> Option<ModelPointerType> {
    if lower == "main"@ {
        Some(ModelPointerType::Main)
    } else if lower == "task"@ {
        Some(ModelPointerType::Task)
    } else if lower == "reasoning"@ {
        Some(ModelPointerType::Reasoning)
    } else if lower == "quick"@ {
        Some(ModelPointerType::Quick)
    } else {
        None
    }
}

pub open spec fn pointer_name(t: ModelPointerType) -> Seq<char> {
    match t {
        ModelPointerType::Main => "main"@,
        ModelPointerType::Task => "task"@,
        ModelPointerType::Reasoning => "reasoning"@,
        ModelPointerType::Quick => "quick"@,
    }
}

impl ModelPointerType {
    /// The lower-case name of the pointer.
    pub fn as_str(&self) -> (r: &'static str)
        ensures
            r@ == pointer_name(*self),
    {
        match self {
            ModelPointerType::Main => "main",
            ModelPointerType::Task => "task",
            ModelPointerType::Reasoning => "reasoning",
            ModelPointerType::Quick => "quick",
        }
    }

    /// Reads a pointer type from its name, in any case.
    pub fn from_name(s: &str) -> (r: Option<ModelPointerType>)
        ensures
            r == pointer_of_name(lower_of(s@)),
    {
        let lower = lowercase(s);
        let l = chars_of(lower.as_str());
        if crate::text::str_is(l.as_slice(), "main") {
            Some(ModelPointerType::Main)
        } else if crate::text::str_is(l.as_slice(), "task") {
            Some(ModelPointerType::Task)
        } else if crate::text::str_is(l.as_slice(), "reasoning") {
            Some(ModelPointerType::Reasoning)
        } else if crate::text::str_is(l.as_slice(), "quick") {
            Some(ModelPointerType::Quick)
        } else {
            None
        }
    }
}

impl std::str::FromStr for ModelPointerType {
    type Err = String;

    fn from_str(s: &str) -> Result<Self, Self::Err> {
        match ModelPointerType::from_name(s) {
            Some(p) => Ok(p),
            None => {
                let mut msg = owned("Invalid model pointer type: ");
                msg.append(s);
                Err(msg)
            },
        }
    }
}

/// The model name each role points at; empty means none.
#[derive(Debug, Clone)]
pub struct ModelPointer {
    pub main: String,
    pub task: String,
    pub reasoning: String,
    pub quick: String,
}

impl Default for ModelPointer {
    fn default() -> (r: Self)
        ensures
            r.main@.len() == 0,
            r.task@.len() == 0,
            r.reasoning@.len() == 0,
            r.quick@.len() == 0,
    {
        ModelPointer { main: String::new(), task: String::new(), reasoning: String::new(), quick: String::new() }
    }
}

impl ModelPointer {
    /// The model name that `pointer` holds.
    pub fn name_for(&self, pointer: ModelPointerType) -> (r: &String)
        ensures
            *r == pointer_target(*self, pointer),
    {
        match pointer {
            ModelPointerType::Main => &self.main,
            ModelPointerType::Task => &self.task,
            ModelPointerType::Reasoning => &self.reasoning,
            ModelPointerType::Quick => &self.quick,
        }
    }
}

pub open spec fn pointer_target(p: ModelPointer, t: ModelPointerType) -> String {
    match t {
        ModelPointerType::Main => p.main,
        ModelPointerType::Task => p.task,
        ModelPointerType::Reasoning => p.reasoning,
        ModelPointerType::Quick => p.quick,
    }
}

/// The position of the first profile whose model identifier is `name`, or
/// the number of profiles.
pub open spec fn first_named(ps: Seq<ModelProfile>, name: Seq<char>, i: int) -> int
    decreases ps.len() - i,
{
    if i < 0 || i >= ps.len() {
        ps.len() as int
    } else if ps[i].model_name@ == name {
        i
    } else {
        first_named(ps, name, i + 1)
    }
}

/// The first profile with model identifier `name`.
pub open spec fn profile_named(ps: Seq<ModelProfile>, name: Seq<char>) -> Option<ModelProfile> {
    let i = first_named(ps, name, 0);
    if i < ps.len() { Some(ps[i]) } else { None }
}

/// Looks up a profile by model identifier.
pub fn find_profile<'a>(ps: &'a Vec<ModelProfile>, name: &str) -> (r: Option<&'a ModelProfile>)
    ensures
        r == match profile_named(ps@, name@) {
            Some(p) => Some(&p),
            None => None::<&ModelProfile>,
        },
{
    let mut i: usize = 0;
    while i < ps.len()
        invariant
            i <= ps.len(),
            first_named(ps@, name@, 0) == first_named(ps@, name@, i as int),
        decreases ps.len() - i,
    {
        let n = chars_of(ps[i].model_name.as_str());
        if crate::text::str_is(n.as_slice(), name) {
            return Some(&ps[i]);
        }
        i = i + 1;
    }
    None
}

pub open spec fn opt_ref_view(r: Option<&ModelProfile>) -> Option<ModelProfile> {
    match r {
        Some(p) => Some(*p),
        None => None,
    }
}

/// The profile that a pointer resolves to: the named profile, or the
/// default profile where the pointer is empty.
pub open spec fn resolve_pointer(
    ps: Seq<ModelProfile>,
    pointers: ModelPointer,
    default_name: Option<String>,
    t: ModelPointerType,
) -> Option<ModelProfile> {
    let target = pointer_target(pointers, t);
    if target@.len() == 0 {
        match default_name {
            Some(n) => profile_named(ps, n@),
            None => None,
        }
    } else {
        profile_named(ps, target@)
    }
}

/// Profiles, pointers and the default model.
#[derive(Debug, Clone)]
pub struct ModelConfig {
    pub profiles: Vec<ModelProfile>,
    pub pointers: ModelPointer,
    pub default_model_name: Option<String>,
}

fn string_len(s: &String) -> (r: usize)
    ensures
        r == s@.len(),
{
    chars_of(s.as_str()).len()
}

impl ModelConfig {
    /// The first profile with model identifier `name`.
    pub fn get(&self, name: &str) -> (r: Option<&ModelProfile>)
        ensures
            opt_ref_view(r) == profile_named(self.profiles@, name@),
    {
        find_profile(&self.profiles, name)
    }

    /// The active profiles, in order.
    pub fn active_models(&self) -> (r: Vec<&ModelProfile>)
        ensures
            r@.map_values(|p: &ModelProfile| *p) == self.profiles@.filter(|p: ModelProfile| p.is_active),
    {
        let mut r: Vec<&ModelProfile> = Vec::new();
        let mut i: usize = 0;
        while i < self.profiles.len()
            invariant
                i <= self.profiles.len(),
                r@.map_values(|p: &ModelProfile| *p) == self.profiles@.take(i as int).filter(|p: ModelProfile| p.is_active),
            decreases self.profiles.len() - i,
        {
            let ghost before = r@;
            assert(self.profiles@.take(i + 1).drop_last() =~= self.profiles@.take(i as int));
            assert(self.profiles@.take(i + 1).last() == self.profiles@[i as int]);
            reveal(Seq::filter);
            if self.profiles[i].is_active {
                r.push(&self.profiles[i]);
                assert(r@.map_values(|p: &ModelProfile| *p) =~= before.map_values(|p: &ModelProfile| *p).push(self.profiles@[i as int]));
            }
            i = i + 1;
        }
        assert(self.profiles@.take(self.profiles.len() as int) =~= self.profiles@);
        r
    }

    /// The profile a pointer resolves to.
    pub fn get_by_pointer(&self, pointer: ModelPointerType) -> (r: Option<&ModelProfile>)
        ensures
            opt_ref_view(r) == resolve_pointer(self.profiles@, self.pointers, self.default_model_name, pointer),
    {
        let target = self.pointers.name_for(pointer);
        if string_len(target) == 0 {
            match &self.default_model_name {
                Some(n) => self.get(n.as_str()),
                None => None,
            }
        } else {
            self.get(target.as_str())
        }
    }
}

/// User-wide settings.
#[derive(Debug, Clone)]
pub struct GlobalConfig {
    pub num_startups: u64,
    pub user_id: Option<String>,
    pub verbose: bool,
    pub primary_provider: String,
    pub model_profiles: Vec<ModelProfile>,
    pub model_pointers: ModelPointer,
    pub default_model_name: Option<String>,
    pub stream: bool,
    pub proxy: Option<String>,
    pub projects: HashMap<String, ProjectConfig>,
}

impl Default for GlobalConfig {
    fn default() -> (r: Self)
        ensures
            r.num_startups == 0,
            r.user_id.is_none(),
            !r.verbose,
            r.primary_provider@ == "anthropic"@,
            r.model_profiles@.len() == 0,
            r.model_pointers.main@.len() == 0,
            r.default_model_name.is_none(),
            r.stream,
            r.proxy.is_none(),
    {
        GlobalConfig {
            num_startups: 0,
            user_id: None,
            verbose: false,
            primary_provider: owned("anthropic"),
            model_profiles: Vec::new(),
            model_pointers: ModelPointer::default(),
            default_model_name: None,
            stream: true,
            proxy: None,
            projects: HashMap::new(),
        }
    }
}

/// Settings of one project.
#[derive(Debug, Clone)]
pub struct ProjectConfig {
    pub allowed_tools: Vec<String>,
    pub context: HashMap<String, String>,
    pub context_files: Option<Vec<String>>,
    pub history: Vec<String>,
    pub dont_crawl_directory: bool,
    pub enable_architect_tool: bool,
    pub mcp_context_uris: Vec<String>,
    pub mcp_servers: Option<HashMap<String, McpServerConfig>>,
    pub has_trust_dialog_accepted: bool,
    pub has_completed_project_onboarding: bool,
}

impl Default for ProjectConfig {
    fn default() -> (r: Self)
        ensures
            r.allowed_tools@.len() == 0,
            r.context_files.is_none(),
            r.history@.len() == 0,
            !r.dont_crawl_directory,
            !r.enable_architect_tool,
            r.mcp_context_uris@.len() == 0,
            r.mcp_servers.is_none(),
            !r.has_trust_dialog_accepted,
            !r.has_completed_project_onboarding,
    {
        ProjectConfig {
            allowed_tools: Vec::new(),
            context: HashMap::new(),
            context_files: None,
            history: Vec::new(),
            dont_crawl_directory: false,
            enable_architect_tool: false,
            mcp_context_uris: Vec::new(),
            mcp_servers: None,
            has_trust_dialog_accepted: false,
            has_completed_project_onboarding: false,
        }
    }
}

/// How a tool server is reached.
#[derive(Debug, Clone)]
pub enum McpServerConfig {
    Stdio { command: String, args: Vec<String>, env: Option<HashMap<String, String>> },
    Sse { url: String },
}

/// What is wrong with a configuration.
#[derive(Debug, Clone, PartialEq, Eq)]
pub enum ValidationError {
    MissingApiKey(String),
    InvalidModel(String),
    InvalidPointer(String),
}

/// Global and project settings together.
#[derive(Debug, Clone)]
pub struct Config {
    pub global: GlobalConfig,
    pub project: ProjectConfig,
}

impl Config {
    /// The first profile with model identifier `name`.
    pub fn get_model(&self, name: &str) -> (r: Option<&ModelProfile>)
        ensures
            opt_ref_view(r) == profile_named(self.global.model_profiles@, name@),
    {
        find_profile(&self.global.model_profiles, name)
    }

    /// The profile named as the default, if it exists.
    pub fn default_model(&self) -> (r: Option<&ModelProfile>)
        ensures
            opt_ref_view(r) == match self.global.default_model_name {
                Some(n) => profile_named(self.global.model_profiles@, n@),
                None => None,
            },
    {
        match &self.global.default_model_name {
            Some(n) => self.get_model(n.as_str()),
            None => None,
        }
    }

    /// The profile a pointer resolves to.
    pub fn get_model_by_pointer(&self, pointer: ModelPointerType) -> (r: Option<&ModelProfile>)
        ensures
            opt_ref_view(r) == resolve_pointer(
                self.global.model_profiles@,
                self.global.model_pointers,
                self.global.default_model_name,
                pointer,
            ),
    {
        let target = self.global.model_pointers.name_for(pointer);
        if string_len(target) == 0 {
            self.default_model()
        } else {
            self.get_model(target.as_str())
        }
    }
}

} // verus!
