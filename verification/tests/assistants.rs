use ollama_harness::services::assistant_configs::{
    config_file_name, config_path, is_config_path, sort_by_name, system_prompt_location,
    text_le_exec, CONFIGS_DIR,
};
use ollama_harness::services::file_explorer::PathRef;
use ollama_harness::shared::assistant_config::{AssistantConfig, StoredAssistant};

fn config(name: &str, model: &str, prompt: &str) -> AssistantConfig {
    AssistantConfig {
        name: name.to_string(),
        model: model.to_string(),
        system_prompt_path: prompt.to_string(),
        use_rag: false,
    }
}

fn stored(path: &str, name: &str) -> StoredAssistant {
    StoredAssistant { path: path.to_string(), config: config(name, "llama3", "p.md") }
}

#[test]
fn file_name_trims_and_replaces_separators_and_whitespace() {
    assert_eq!(config_file_name("  my bot/x "), "my-bot-x");
    assert_eq!(config_file_name("a\\b\tc"), "a-b-c");
    assert_eq!(config_file_name("plain"), "plain");
    assert_eq!(config_file_name("   "), "");
}

#[test]
fn file_name_has_no_separator_or_whitespace() {
    for name in ["x / y", " tab\there ", "back\\slash", "ünï cödé"] {
        let file = config_file_name(name);
        assert!(!file.contains('/'));
        assert!(!file.contains('\\'));
        assert!(!file.chars().any(|c| c.is_whitespace()));
    }
}

#[test]
fn config_path_is_under_the_configs_directory() {
    assert_eq!(CONFIGS_DIR, "harness_configs");
    assert_eq!(config_path(&config(" Code Helper ", "m", "p")), "harness_configs/Code-Helper.yml");
}

#[test]
fn only_yml_files_are_config_files() {
    assert!(is_config_path("harness_configs/a.yml"));
    assert!(!is_config_path("harness_configs/a.yaml"));
    assert!(!is_config_path("harness_configs/a"));
    assert!(!is_config_path("harness_configs/.yml"));
    assert!(is_config_path("b.tar.yml"));
}

#[test]
fn prompt_location_strips_at_and_expands_home() {
    match system_prompt_location(&config("a", "m", "  @~/prompts/a.md ")) {
        PathRef::UnderHome(rest) => assert_eq!(rest, "/prompts/a.md"),
        PathRef::Plain(p) => panic!("expected a home path, got {p}"),
    }
    match system_prompt_location(&config("a", "m", "@docs/p.md")) {
        PathRef::Plain(p) => assert_eq!(p, "docs/p.md"),
        PathRef::UnderHome(rest) => panic!("expected a plain path, got {rest}"),
    }
    match system_prompt_location(&config("a", "m", "/etc/p.md")) {
        PathRef::Plain(p) => assert_eq!(p, "/etc/p.md"),
        PathRef::UnderHome(rest) => panic!("expected a plain path, got {rest}"),
    }
}

#[test]
fn names_compare_by_code_point() {
    assert!(text_le_exec("abc", "abd"));
    assert!(text_le_exec("ab", "abc"));
    assert!(!text_le_exec("abc", "ab"));
    assert!(text_le_exec("same", "same"));
    assert!(text_le_exec("Zed", "apple"));
    assert!(text_le_exec("z", "é"));
}

#[test]
fn sorting_by_name_is_stable() {
    let list = vec![
        stored("3.yml", "writer"),
        stored("1.yml", "coder"),
        stored("4.yml", "writer"),
        stored("2.yml", "analyst"),
        stored("5.yml", "coder"),
    ];
    let sorted = sort_by_name(list);
    let seen: Vec<(String, String)> =
        sorted.iter().map(|a| (a.config.name.clone(), a.path.clone())).collect();
    let expected: Vec<(String, String)> = [
        ("analyst", "2.yml"),
        ("coder", "1.yml"),
        ("coder", "5.yml"),
        ("writer", "3.yml"),
        ("writer", "4.yml"),
    ]
    .iter()
    .map(|(n, p)| (n.to_string(), p.to_string()))
    .collect();
    assert_eq!(seen, expected);
}

#[test]
fn sorting_nothing_gives_nothing() {
    assert!(sort_by_name(Vec::new()).is_empty());
}
