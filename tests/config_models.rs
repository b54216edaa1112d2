use kode_core::agents::{builtin_general_purpose, AgentLocation, ToolPermissions};
use kode_core::config::{
    Config, GlobalConfig, ModelConfig, ModelPointer, ModelPointerType, ModelProfile, ProjectConfig, ProviderType,
};
use kode_core::tools::ToolContext;

#[test]
fn test_provider_default_urls() {
    assert_eq!(ProviderType::Anthropic.default_base_url(), Some("https://api.anthropic.com"));
    assert_eq!(ProviderType::OpenAI.default_base_url(), Some("https://api.openai.com/v1"));
    assert!(ProviderType::Custom.default_base_url().is_none());
}

#[test]
fn test_gpt5_detection() {
    let profile = ModelProfile::new(
        "GPT-5".into(),
        ProviderType::OpenAI,
        "gpt-5-preview".into(),
        "test-key".into(),
        8192,
        128000,
    );
    assert!(profile.is_gpt5_model());
}

#[test]
fn test_model_pointer_from_str() {
    assert_eq!("main".parse::<ModelPointerType>().unwrap(), ModelPointerType::Main);
    assert_eq!("task".parse::<ModelPointerType>().unwrap(), ModelPointerType::Task);
    assert!("invalid".parse::<ModelPointerType>().is_err());
}

#[test]
fn test_global_config_default() {
    let config = GlobalConfig::default();
    assert_eq!(config.num_startups, 0);
    assert!(!config.verbose);
    assert!(config.stream);
}

#[test]
fn test_project_config_default() {
    let config = ProjectConfig::default();
    assert!(config.allowed_tools.is_empty());
    assert!(!config.dont_crawl_directory);
}

#[test]
fn test_builtin_agent() {
    let agent = builtin_general_purpose();
    assert_eq!(agent.agent_type, "general-purpose");
    assert_eq!(agent.location, AgentLocation::BuiltIn);
    assert_eq!(agent.tools, ToolPermissions::All);
}

#[test]
fn test_tool_context_default() {
    let ctx = ToolContext::default();
    assert!(!ctx.safe_mode);
    assert!(!ctx.verbose);
    assert!(ctx.message_id.is_none());
}

fn profile(model: &str, active: bool) -> ModelProfile {
    let mut p = ModelProfile::new(model.to_string(), ProviderType::Anthropic, model.to_string(), String::new(), 1, 2);
    p.is_active = active;
    p
}

#[test]
fn pointer_falls_back_to_default_model() {
    let cfg = ModelConfig {
        profiles: vec![profile("a", true), profile("b", false), profile("a", false)],
        pointers: ModelPointer { main: String::new(), task: "b".into(), reasoning: "zzz".into(), quick: String::new() },
        default_model_name: Some("a".into()),
    };
    let main = cfg.get_by_pointer(ModelPointerType::Main).unwrap();
    assert_eq!(main.model_name, "a");
    assert!(main.is_active);
    assert_eq!(cfg.get_by_pointer(ModelPointerType::Task).unwrap().model_name, "b");
    assert!(cfg.get_by_pointer(ModelPointerType::Reasoning).is_none());
    assert_eq!(cfg.active_models().len(), 1);
    assert!(cfg.get("c").is_none());
}

#[test]
fn config_lookups_follow_global_settings() {
    let mut global = GlobalConfig::default();
    global.model_profiles = vec![profile("x", true), profile("y", true)];
    global.default_model_name = Some("y".into());
    global.model_pointers.quick = "x".into();
    let cfg = Config { global, project: ProjectConfig::default() };
    assert_eq!(cfg.default_model().unwrap().model_name, "y");
    assert_eq!(cfg.get_model_by_pointer(ModelPointerType::Quick).unwrap().model_name, "x");
    assert_eq!(cfg.get_model_by_pointer(ModelPointerType::Main).unwrap().model_name, "y");
}

#[test]
fn profile_defaults_and_flags() {
    let mut p = ModelProfile::new("n".into(), ProviderType::Ollama, "Llama".into(), String::new(), 1, 2);
    assert_eq!(p.base_url.as_deref(), Some("http://localhost:11434"));
    assert!(!p.provider.requires_api_key());
    assert!(ProviderType::Groq.requires_api_key());
    assert!(!p.is_gpt5_model());
    p.is_gpt5 = Some(true);
    assert!(p.is_gpt5_model());
    p.base_url = None;
    assert_eq!(p.effective_base_url().as_deref(), Some("http://localhost:11434"));
    p.mark_used_at(42);
    assert_eq!(p.last_used, Some(42));
    assert_eq!(ModelPointerType::from_name("ReAsOnInG"), Some(ModelPointerType::Reasoning));
    assert_eq!(ModelPointerType::Quick.as_str(), "quick");
}

#[test]
fn tool_permissions_and_priorities() {
    let p = ToolPermissions::Specific(vec!["Bash".into(), "Edit".into()]);
    assert!(p.allows("Edit"));
    assert!(!p.allows("Write"));
    assert!(ToolPermissions::All.allows("any-tool"));
    assert!(AgentLocation::ProjectKode.priority() > AgentLocation::UserClaude.priority());
    assert_eq!(AgentLocation::BuiltIn.priority(), 0);
}
