use token2token::connectors::{ollama_models, OllamaTag};
use token2token::connectors::{
    build_engine, content_as_text, engine_model_name, openai_models, sanitize_slug, ConnectorError,
    DiscoveredModel, EngineKind, InferenceResult, MessageContent,
};
use token2token::protocol::ProviderMode;

#[test]
fn model_names_become_safe_slugs() {
    assert_eq!(sanitize_slug("Qwen2.5:7B Instruct"), "qwen2.5-7b-instruct");
}

#[test]
fn slugs_replace_non_ascii_and_keep_allowed_punctuation() {
    assert_eq!(sanitize_slug("Org/Model_v1.2-Q4"), "org-model_v1.2-q4");
    assert_eq!(sanitize_slug("Ünïcode"), "-n-code");
    assert_eq!(sanitize_slug(""), "");
}

#[test]
fn engine_kinds_have_canonical_names() {
    assert_eq!(EngineKind::Ollama.as_str(), "ollama");
    assert_eq!(EngineKind::OpenAiCompatible.as_str(), "openai-compatible");
    for kind in [EngineKind::Ollama, EngineKind::OpenAiCompatible] {
        assert_eq!(EngineKind::from_name(kind.as_str()).unwrap(), kind);
    }
}

#[test]
fn engine_names_are_case_insensitive_aliases() {
    assert_eq!("OLLAMA".parse::<EngineKind>().unwrap(), EngineKind::Ollama);
    for name in ["openai", "LMStudio", "llama.cpp", "vLLM", "OpenAI-Compatible"] {
        assert_eq!(name.parse::<EngineKind>().unwrap(), EngineKind::OpenAiCompatible);
    }
}

#[test]
fn unknown_engines_are_rejected_with_their_name() {
    let err = EngineKind::from_name("Triton").unwrap_err();
    assert!(matches!(&err, ConnectorError::UnsupportedEngine(name) if name == "Triton"));
    assert_eq!(err.message(), "unsupported engine: Triton");
    assert!(" ollama".parse::<EngineKind>().is_err());
}

#[test]
fn discovered_models_become_ready_catalog_entries() {
    let model = DiscoveredModel {
        id: "Qwen2.5:7B Instruct".into(),
        display_name: "Qwen 7B".into(),
        architecture: "qwen2".into(),
        context_length: 4096,
        quantization: Some("Q4_K_M".into()),
    };
    let entry = model.into_catalog("0.20".into(), "0.80".into(), "apache-2.0".into(), true, ProviderMode::Dynamic);
    assert_eq!(entry.id, "qwen2.5-7b-instruct");
    assert_eq!(entry.engine_model_id, "Qwen2.5:7B Instruct");
    assert_eq!(entry.display_name, "Qwen 7B");
    assert_eq!(entry.description, "Automatically discovered by Token2Token Client.");
    assert_eq!(entry.architecture, "qwen2");
    assert_eq!(entry.context_length, 4096);
    assert_eq!(entry.input_modalities, vec!["text".to_string()]);
    assert_eq!(entry.output_modalities, vec!["text".to_string()]);
    assert_eq!(
        entry.parameters,
        vec!["temperature".to_string(), "max_tokens".to_string(), "top_p".to_string()]
    );
    assert_eq!(entry.license_id, "apache-2.0");
    assert!(entry.commercial_hosting_confirmed);
    assert_eq!(entry.quantization.as_deref(), Some("Q4_K_M"));
    assert_eq!(entry.input_price, "0.20");
    assert_eq!(entry.output_price, "0.80");
    assert_eq!(entry.mode, ProviderMode::Dynamic);
    assert!(entry.ready);
}

#[test]
fn content_is_flattened_to_text() {
    assert_eq!(content_as_text(&MessageContent::Text("hi".into())), "hi");
    let parts = MessageContent::Parts(vec![Some("a".into()), None, Some("b".into()), Some("".into())]);
    assert_eq!(content_as_text(&parts), "a\nb\n");
    assert_eq!(content_as_text(&MessageContent::Parts(vec![None])), "");
    assert_eq!(content_as_text(&MessageContent::Other), "");
}

#[test]
fn engines_are_asked_for_the_last_model_segment() {
    assert_eq!(engine_model_name("provider/org/Model-7B"), "Model-7B");
    assert_eq!(engine_model_name("llama3"), "llama3");
    assert_eq!(engine_model_name("org/"), "");
}

#[test]
fn ollama_tags_fill_in_missing_details() {
    let m = DiscoveredModel::from_ollama("llama3:8b".into(), "".into(), "8B".into(), None);
    assert_eq!(m.id, "llama3:8b");
    assert_eq!(m.display_name, "llama3:8b");
    assert_eq!(m.architecture, "unknown");
    assert_eq!(m.context_length, 4096);
    assert_eq!(m.quantization.as_deref(), Some("8B"));
    let m = DiscoveredModel::from_ollama("x".into(), "llama".into(), "8B".into(), Some("Q8_0".into()));
    assert_eq!(m.architecture, "llama");
    assert_eq!(m.quantization.as_deref(), Some("Q8_0"));
    let m = DiscoveredModel::from_ollama("x".into(), "llama".into(), "".into(), None);
    assert_eq!(m.quantization, None);
}

#[test]
fn openai_listings_keep_string_ids_in_order() {
    let models = openai_models(Some(vec![Some("gpt-a".into()), None, Some("gpt-b".into())])).unwrap();
    assert_eq!(models.len(), 2);
    assert_eq!(models[0].id, "gpt-a");
    assert_eq!(models[1].display_name, "gpt-b");
    assert_eq!(models[1].architecture, "unknown");
    assert_eq!(models[1].context_length, 4096);
    assert_eq!(models[1].quantization, None);
    let err = openai_models(None).unwrap_err();
    assert!(matches!(err, ConnectorError::MissingModelList));
    assert_eq!(err.message(), "models response has no data array");
}

#[test]
fn missing_reply_fields_read_as_empty() {
    let r = InferenceResult::from_reply(None, Some(7), None);
    assert_eq!(r.content, "");
    assert_eq!(r.prompt_tokens, 7);
    assert_eq!(r.completion_tokens, 0);
    let r = InferenceResult::from_reply(Some("done".into()), None, Some(3));
    assert_eq!(r.content, "done");
    assert_eq!(r.prompt_tokens, 0);
    assert_eq!(r.completion_tokens, 3);
}

#[test]
fn engine_urls_must_parse() {
    let err = build_engine(EngineKind::Ollama, "not a url", None).err().unwrap();
    assert!(matches!(err, ConnectorError::InvalidEngineUrl(url::ParseError::RelativeUrlWithoutBase)));
    assert_eq!(err.message(), "invalid engine URL");
    let settings = build_engine(EngineKind::Ollama, "http://127.0.0.1:11434", Some("secret")).ok().unwrap();
    assert_eq!(settings.kind, EngineKind::Ollama);
    assert_eq!(settings.base_url.as_str(), "http://127.0.0.1:11434/");
    let settings = build_engine(EngineKind::Ollama, "http://LOCALHOST:8080/api", None).ok().unwrap();
    assert_eq!(settings.base_url, url::Url::parse("http://LOCALHOST:8080/api").unwrap());
    assert_eq!(settings.base_url.as_str(), "http://localhost:8080/api");
    assert_eq!(settings.api_key, None);
}

#[test]
fn only_openai_engines_get_a_non_empty_key() {
    let s = build_engine(EngineKind::OpenAiCompatible, "https://api.openai.com", Some("sk")).ok().unwrap();
    assert_eq!(s.api_key.as_deref(), Some("sk"));
    let s = build_engine(EngineKind::OpenAiCompatible, "https://api.openai.com", Some("")).ok().unwrap();
    assert_eq!(s.api_key, None);
    let s = build_engine(EngineKind::OpenAiCompatible, "https://api.openai.com", None).ok().unwrap();
    assert_eq!(s.api_key, None);
}

#[test]
fn ollama_listings_keep_every_tag_in_order() {
    let tags = vec![
        OllamaTag { name: "b:1".into(), family: "".into(), parameter_size: "7B".into(), quantization_level: None },
        OllamaTag {
            name: "a:2".into(),
            family: "llama".into(),
            parameter_size: "".into(),
            quantization_level: Some("Q4_0".into()),
        },
    ];
    let models = ollama_models(tags);
    assert_eq!(models.len(), 2);
    assert_eq!(models[0].id, "b:1");
    assert_eq!(models[0].architecture, "unknown");
    assert_eq!(models[0].quantization.as_deref(), Some("7B"));
    assert_eq!(models[1].display_name, "a:2");
    assert_eq!(models[1].architecture, "llama");
    assert_eq!(models[1].quantization.as_deref(), Some("Q4_0"));
    assert!(ollama_models(Vec::new()).is_empty());
}
