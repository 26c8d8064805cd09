use dictation::ai_functions::{
    builtin_functions, call_config, check_function_output, find_function, list_ai_functions,
    parse_provider_type, provider_from_lowercase, to_row, AiFunction, AiFunctionRow,
};
use dictation::llm::LlmProviderType;

#[test]
fn builtin_functions_returns_five() {
    let funcs = builtin_functions();
    assert_eq!(funcs.len(), 5);
}

#[test]
fn builtin_functions_have_unique_ids() {
    let funcs = builtin_functions();
    let mut ids: Vec<&str> = funcs.iter().map(|f| f.id.as_str()).collect();
    let original_len = ids.len();
    ids.sort();
    ids.dedup();
    assert_eq!(ids.len(), original_len);
}

#[test]
fn builtin_functions_are_marked_builtin() {
    for f in builtin_functions() {
        assert!(f.is_builtin, "Function '{}' should be builtin", f.name);
    }
}

#[test]
fn builtin_functions_have_non_empty_prompts() {
    for f in builtin_functions() {
        assert!(!f.prompt.is_empty(), "Function '{}' should have a prompt", f.name);
    }
}

#[test]
fn builtin_functions_use_default_provider() {
    for f in builtin_functions() {
        assert_eq!(f.provider, "default", "Builtin functions should use 'default' provider");
    }
}

#[test]
fn builtin_function_ids_are_correct() {
    let funcs = builtin_functions();
    let ids: Vec<&str> = funcs.iter().map(|f| f.id.as_str()).collect();
    assert!(ids.contains(&"email"));
    assert!(ids.contains(&"code-prompt"));
    assert!(ids.contains(&"summarize"));
    assert!(ids.contains(&"casual"));
    assert!(ids.contains(&"translate"));
}

#[test]
fn parse_provider_type_openai() {
    assert!(matches!(parse_provider_type("openai"), LlmProviderType::OpenAI));
}

#[test]
fn parse_provider_type_anthropic() {
    assert!(matches!(parse_provider_type("anthropic"), LlmProviderType::Anthropic));
}

#[test]
fn parse_provider_type_groq() {
    assert!(matches!(parse_provider_type("groq"), LlmProviderType::Groq));
}

#[test]
fn parse_provider_type_ollama() {
    assert!(matches!(parse_provider_type("ollama"), LlmProviderType::Ollama));
}

#[test]
fn parse_provider_type_case_insensitive() {
    assert!(matches!(parse_provider_type("OPENAI"), LlmProviderType::OpenAI));
    assert!(matches!(parse_provider_type("Anthropic"), LlmProviderType::Anthropic));
    assert!(matches!(parse_provider_type("GROQ"), LlmProviderType::Groq));
    assert!(matches!(parse_provider_type("Ollama"), LlmProviderType::Ollama));
}

#[test]
fn parse_provider_type_unknown_defaults_to_openai() {
    assert!(matches!(parse_provider_type("unknown"), LlmProviderType::OpenAI));
    assert!(matches!(parse_provider_type(""), LlmProviderType::OpenAI));
    assert!(matches!(parse_provider_type("default"), LlmProviderType::OpenAI));
}

#[test]
fn provider_from_lowercase_is_exact() {
    assert_eq!(provider_from_lowercase("groq"), LlmProviderType::Groq);
    assert_eq!(provider_from_lowercase("GROQ"), LlmProviderType::OpenAI);
    assert_eq!(provider_from_lowercase("ollama "), LlmProviderType::OpenAI);
}

#[test]
fn builtin_functions_carry_names_and_prompts() {
    let funcs = builtin_functions();
    assert_eq!(funcs[0].id, "email");
    assert_eq!(funcs[0].name, "Professional Email");
    assert_eq!(
        funcs[0].prompt,
        "Rewrite the following as a professional email. Include a greeting and sign-off. Keep it concise."
    );
    assert_eq!(funcs[1].id, "code-prompt");
    assert_eq!(funcs[2].name, "Summarize");
    assert_eq!(funcs[3].prompt, "Rewrite the following text in a casual, friendly tone.");
    assert_eq!(funcs[4].name, "Translate to English");
    for f in &funcs {
        assert_eq!(f.model, None);
    }
}

fn row(id: &str, is_builtin: bool) -> AiFunctionRow {
    AiFunctionRow {
        id: id.to_string(),
        name: format!("name of {}", id),
        prompt: "p".to_string(),
        provider: "groq".to_string(),
        model: Some("m".to_string()),
        is_builtin,
    }
}

#[test]
fn custom_functions_follow_the_builtin_ones() {
    let list = list_ai_functions(vec![row("mine", false), row("odd", true)]);
    assert_eq!(list.len(), 7);
    assert_eq!(list[4].id, "translate");
    assert_eq!(
        list[5],
        AiFunction {
            id: "mine".to_string(),
            name: "name of mine".to_string(),
            prompt: "p".to_string(),
            provider: "groq".to_string(),
            model: Some("m".to_string()),
            is_builtin: false,
        }
    );
    assert_eq!(list[6].id, "odd");
    assert!(!list[6].is_builtin);
    assert_eq!(list_ai_functions(vec![]), builtin_functions());
}

#[test]
fn find_function_gives_the_first_place() {
    let list = list_ai_functions(vec![row("mine", false), row("email", false)]);
    assert_eq!(find_function(&list, "email"), Some(0));
    assert_eq!(find_function(&list, "translate"), Some(4));
    assert_eq!(find_function(&list, "mine"), Some(5));
    assert_eq!(find_function(&list, "none"), None);
}

#[test]
fn saved_functions_are_never_builtin() {
    let function = AiFunction {
        id: "x".to_string(),
        name: "X".to_string(),
        prompt: "do".to_string(),
        provider: "openai".to_string(),
        model: None,
        is_builtin: true,
    };
    assert_eq!(
        to_row(function),
        AiFunctionRow {
            id: "x".to_string(),
            name: "X".to_string(),
            prompt: "do".to_string(),
            provider: "openai".to_string(),
            model: None,
            is_builtin: false,
        }
    );
}

#[test]
fn call_config_treats_an_empty_key_as_none() {
    let config = call_config("Anthropic", String::new(), "sonnet".to_string());
    assert_eq!(config.provider, LlmProviderType::Anthropic);
    assert_eq!(config.api_key, None);
    assert_eq!(config.model, "sonnet");
    assert_eq!(config.base_url, None);
    let keyed = call_config("whatever", "k".to_string(), "m".to_string());
    assert_eq!(keyed.provider, LlmProviderType::OpenAI);
    assert_eq!(keyed.api_key, Some("k".to_string()));
}

#[test]
fn function_output_must_not_be_empty() {
    assert_eq!(check_function_output(Ok("done".to_string())), Ok("done".to_string()));
    assert_eq!(
        check_function_output(Ok(String::new())),
        Err("AI function returned empty response".to_string())
    );
    assert_eq!(
        check_function_output(Err("timeout".to_string())),
        Err("AI function failed: timeout".to_string())
    );
}
