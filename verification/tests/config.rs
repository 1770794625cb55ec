use alors::{disk_config, resolved_config, Backend, Config, ConfigLayer};

fn layer() -> ConfigLayer {
    ConfigLayer::default()
}

#[test]
fn test_default_config_values() {
    let c = Config::default();
    assert_eq!(c.backend, Backend::OpenRouter);
    assert_eq!(c.model, "openai/gpt-4.1-mini");
    assert!(c.system_prompt.is_some());
    assert_eq!(c.timeout_seconds, 120);
    assert_eq!(c.max_iterations, 50);
    assert_eq!(c.max_read_lines, 1000);
    assert_eq!(
        c.allowed_command_prefixes,
        vec!["ls", "cat", "echo", "pwd", "rg", "git diff"]
    );
    assert_eq!(c.ignored_paths, vec![".git"]);
    assert_eq!(c.accessible_paths, vec!["."]);
    assert!(c.terminal_bell);
    assert!(!c.show_system_prompt);
    assert!(!c.debug_tool_calls);
    assert!(!c.auto_execute);
    assert!(!c.print_messages);
    assert_eq!(c.base_url, "https://openrouter.ai/api/v1");
}

#[test]
fn test_empty_layer_changes_nothing() {
    let mut c = Config::default();
    c.merge(&layer());
    assert_eq!(c, Config::default());
}

#[test]
fn test_scalar_fields_take_precedence() {
    let mut c = Config::default();
    let mut l = layer();
    l.model = Some("some-other-model".to_string());
    l.timeout_seconds = Some(7);
    l.max_iterations = Some(3);
    l.max_read_lines = Some(42);
    l.terminal_bell = Some(false);
    l.auto_execute = Some(true);
    c.merge(&l);
    assert_eq!(c.model, "some-other-model");
    assert_eq!(c.timeout_seconds, 7);
    assert_eq!(c.max_iterations, 3);
    assert_eq!(c.max_read_lines, 42);
    assert!(!c.terminal_bell);
    assert!(c.auto_execute);
    // untouched fields keep their defaults
    assert_eq!(c.base_url, "https://openrouter.ai/api/v1");
    assert!(!c.print_messages);
}

#[test]
fn test_backend_change_recomputes_base_url() {
    let mut c = Config::default();
    let mut l = layer();
    l.backend = Some(Backend::Ollama);
    c.merge(&l);
    assert_eq!(c.backend, Backend::Ollama);
    assert_eq!(c.base_url, "http://localhost:11434/v1");
}

#[test]
fn test_backend_change_with_explicit_base_url_keeps_it() {
    let mut c = Config::default();
    let mut l = layer();
    l.backend = Some(Backend::Ollama);
    l.base_url = Some("http://example.invalid:1234/v1".to_string());
    c.merge(&l);
    assert_eq!(c.backend, Backend::Ollama);
    assert_eq!(c.base_url, "http://example.invalid:1234/v1");
}

#[test]
fn test_explicit_base_url_alone_is_kept() {
    let mut c = Config::default();
    let mut l = layer();
    l.base_url = Some("http://example.invalid:1234/v1".to_string());
    c.merge(&l);
    assert_eq!(c.backend, Backend::OpenRouter);
    assert_eq!(c.base_url, "http://example.invalid:1234/v1");
}

#[test]
fn test_whitespace_only_prompt_clears_it() {
    let mut c = Config::default();
    let mut l = layer();
    l.system_prompt = Some(" \t\n  ".to_string());
    c.merge(&l);
    assert_eq!(c.system_prompt, None);
}

#[test]
fn test_empty_prompt_clears_it() {
    let mut c = Config::default();
    let mut l = layer();
    l.system_prompt = Some("".to_string());
    c.merge(&l);
    assert_eq!(c.system_prompt, None);
}

#[test]
fn test_unicode_whitespace_prompt_clears_it() {
    // no-break space and em space carry the Unicode White_Space property,
    // so a prompt of nothing else is a deliberate clear
    let mut c = Config::default();
    let mut l = layer();
    l.system_prompt = Some("\u{a0}\u{2003} \u{3000}".to_string());
    c.merge(&l);
    assert_eq!(c.system_prompt, None);
}

#[test]
fn test_nonblank_prompt_replaces_verbatim() {
    let mut c = Config::default();
    let mut l = layer();
    l.system_prompt = Some("  be brief  ".to_string());
    c.merge(&l);
    assert_eq!(c.system_prompt, Some("  be brief  ".to_string()));
}

#[test]
fn test_empty_list_means_not_specified() {
    let mut c = Config::default();
    c.merge(&layer());
    assert_eq!(
        c.allowed_command_prefixes,
        vec!["ls", "cat", "echo", "pwd", "rg", "git diff"]
    );
    assert_eq!(c.ignored_paths, vec![".git"]);
    assert_eq!(c.accessible_paths, vec!["."]);
}

#[test]
fn test_nonempty_list_replaces_wholesale() {
    let mut c = Config::default();
    let mut l = layer();
    l.allowed_command_prefixes = vec!["git status".to_string()];
    l.accessible_paths = vec!["/tmp".to_string(), "/var".to_string()];
    c.merge(&l);
    assert_eq!(c.allowed_command_prefixes, vec!["git status"]);
    assert_eq!(c.accessible_paths, vec!["/tmp", "/var"]);
    assert_eq!(c.ignored_paths, vec![".git"]);
}

#[test]
fn test_invocation_layer_wins_over_file_layer() {
    let mut file_layer = layer();
    file_layer.model = Some("from-file".to_string());
    file_layer.timeout_seconds = Some(10);
    let mut invocation_layer = layer();
    invocation_layer.model = Some("from-invocation".to_string());
    let c = resolved_config(&file_layer, &invocation_layer);
    assert_eq!(c.model, "from-invocation");
    assert_eq!(c.timeout_seconds, 10);
}

#[test]
fn test_resolution_is_deterministic() {
    // resolving the same layers twice gives identical configurations
    let mut file_layer = layer();
    file_layer.model = Some("custom".to_string());
    file_layer.accessible_paths = vec!["/tmp".to_string()];
    let a = resolved_config(&file_layer, &layer());
    let mut file_layer_again = layer();
    file_layer_again.model = Some("custom".to_string());
    file_layer_again.accessible_paths = vec!["/tmp".to_string()];
    let b = resolved_config(&file_layer_again, &layer());
    assert_eq!(a, b);
}

#[test]
fn test_reload_of_persisted_values_reproduces_them() {
    // what load persists is disk_config; reading the file back gives a layer
    // with every persisted field present, and merging it over the defaults
    // again must reproduce the same configuration
    let mut file_layer = layer();
    file_layer.model = Some("custom".to_string());
    file_layer.backend = Some(Backend::Ollama);
    file_layer.allowed_command_prefixes = vec!["git".to_string()];
    let persisted = disk_config(&file_layer);
    let readback = ConfigLayer {
        backend: Some(persisted.backend),
        model: Some(persisted.model.clone()),
        system_prompt: persisted.system_prompt.clone(),
        timeout_seconds: Some(persisted.timeout_seconds),
        max_iterations: Some(persisted.max_iterations),
        max_read_lines: Some(persisted.max_read_lines),
        allowed_command_prefixes: persisted.allowed_command_prefixes.clone(),
        ignored_paths: persisted.ignored_paths.clone(),
        accessible_paths: persisted.accessible_paths.clone(),
        terminal_bell: Some(persisted.terminal_bell),
        show_system_prompt: Some(persisted.show_system_prompt),
        debug_tool_calls: Some(persisted.debug_tool_calls),
        auto_execute: Some(persisted.auto_execute),
        print_messages: Some(persisted.print_messages),
        base_url: Some(persisted.base_url.clone()),
    };
    assert_eq!(disk_config(&readback), persisted);
}

#[test]
fn test_upgraded_defaults_appear_while_customizations_survive() {
    // an older persisted file knows nothing of fields its version lacked;
    // merging it over the current defaults keeps the customized values and
    // fills every other field from the defaults
    let mut old_file_layer = layer();
    old_file_layer.model = Some("my-pinned-model".to_string());
    old_file_layer.accessible_paths = vec!["/work".to_string()];
    let c = disk_config(&old_file_layer);
    assert_eq!(c.model, "my-pinned-model");
    assert_eq!(c.accessible_paths, vec!["/work"]);
    // fields the old file never mentioned take the current defaults
    assert_eq!(c.timeout_seconds, 120);
    assert_eq!(c.max_iterations, 50);
    assert_eq!(c.base_url, "https://openrouter.ai/api/v1");
    assert!(c.system_prompt.is_some());
}
