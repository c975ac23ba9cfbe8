use jira_db::embeddings::cohere_models;
use jira_db::embeddings::ollama_models;
use jira_db::embeddings::openai_models;
use jira_db::embeddings::{
    batch_ranges, plan_provider, CohereConfig, EmbeddingConfig, EmbeddingProviderType, InputType,
    OllamaConfig, ProviderConfig, ProviderPlan,
};
use jira_db::embeddings::{cohere_request_body, ollama_request_body, openai_request_body};
use jira_db::json::JsonValue;
use std::time::Duration;

fn members(v: &JsonValue) -> Vec<(String, &JsonValue)> {
    match v {
        JsonValue::Object(m) => m.iter().map(|(k, v)| (k.clone(), v)).collect(),
        other => panic!("not an object: {:?}", other),
    }
}

fn texts(v: &JsonValue) -> Vec<String> {
    match v {
        JsonValue::Array(items) => items
            .iter()
            .map(|i| match i {
                JsonValue::Str(s) => s.clone(),
                other => panic!("not a string: {:?}", other),
            })
            .collect(),
        other => panic!("not an array: {:?}", other),
    }
}

#[test]
fn test_embedding_conversion() {
    let embedding = vec![0.1, 0.2, 0.3, -0.4, 0.5];
    let embedding_str = format!(
        "[{}]",
        embedding.iter().map(|f: &f64| f.to_string()).collect::<Vec<_>>().join(",")
    );
    assert!(embedding_str.contains("0.1"));
    assert!(embedding_str.contains("-0.4"));
    assert!(embedding_str.starts_with('[') && embedding_str.ends_with(']'));
}

#[test]
fn cohere_test_config_default() {
    let config = CohereConfig::default();
    assert_eq!(config.model, cohere_models::EMBED_MULTILINGUAL_V3);
    assert_eq!(config.dimension, cohere_models::EMBED_MULTILINGUAL_V3_DIM);
}

#[test]
fn cohere_test_config_builder() {
    let config = CohereConfig::new("test-key").with_english_model().for_search_query();

    assert_eq!(config.api_key, "test-key");
    assert_eq!(config.model, cohere_models::EMBED_ENGLISH_V3);
    assert!(matches!(config.input_type, InputType::SearchQuery));
}

#[test]
fn test_provider_type_parsing() {
    assert_eq!("openai".parse::<EmbeddingProviderType>().unwrap(), EmbeddingProviderType::OpenAI);
    assert_eq!("ollama".parse::<EmbeddingProviderType>().unwrap(), EmbeddingProviderType::Ollama);
    assert_eq!("cohere".parse::<EmbeddingProviderType>().unwrap(), EmbeddingProviderType::Cohere);
    assert!("unknown".parse::<EmbeddingProviderType>().is_err());
}

#[test]
fn test_provider_config() {
    let config = ProviderConfig::openai("test-key").with_model("text-embedding-3-large");

    assert_eq!(config.provider, EmbeddingProviderType::OpenAI);
    assert_eq!(config.api_key, Some("test-key".to_string()));
    assert_eq!(config.model, Some("text-embedding-3-large".to_string()));
}

#[test]
fn ollama_test_config_default() {
    let config = OllamaConfig::default();
    assert_eq!(config.model, ollama_models::NOMIC_EMBED_TEXT);
    assert_eq!(config.dimension, ollama_models::NOMIC_EMBED_TEXT_DIM);
    assert_eq!(config.endpoint, "http://localhost:11434");
}

#[test]
fn ollama_test_config_builder() {
    let config = OllamaConfig::new("mxbai-embed-large")
        .with_endpoint("http://192.168.1.100:11434")
        .with_timeout(Duration::from_secs(60).as_secs());

    assert_eq!(config.model, "mxbai-embed-large");
    assert_eq!(config.dimension, ollama_models::MXBAI_EMBED_LARGE_DIM);
    assert_eq!(config.endpoint, "http://192.168.1.100:11434");
}

#[test]
fn openai_test_config_default() {
    let config = EmbeddingConfig::default();
    assert_eq!(config.model, openai_models::TEXT_EMBEDDING_3_SMALL);
    assert_eq!(config.dimension, Some(openai_models::TEXT_EMBEDDING_3_SMALL_DIM));
}

#[test]
fn openai_test_config_builder() {
    let config = EmbeddingConfig::new("test-key").with_large_model().with_batch_size(50);

    assert_eq!(config.api_key, Some("test-key".to_string()));
    assert_eq!(config.model, openai_models::TEXT_EMBEDDING_3_LARGE);
    assert_eq!(config.dimension, Some(openai_models::TEXT_EMBEDDING_3_LARGE_DIM));
    assert_eq!(config.batch_size, 50);
}

#[test]
fn provider_names_round_trip() {
    for p in [EmbeddingProviderType::OpenAI, EmbeddingProviderType::Ollama, EmbeddingProviderType::Cohere] {
        assert_eq!(p.to_string().parse::<EmbeddingProviderType>().unwrap(), p);
    }
    assert_eq!("OpenAI".parse::<EmbeddingProviderType>().unwrap(), EmbeddingProviderType::OpenAI);
    let err = EmbeddingProviderType::parse_name("voyage").unwrap_err();
    assert!(matches!(err, jira_db::error::DomainError::Configuration(ref m)
        if m == "Unknown embedding provider: voyage. Supported: openai, ollama, cohere"));
}

#[test]
fn cohere_batch_size_is_capped() {
    assert_eq!(CohereConfig::new("k").with_batch_size(500).batch_size, 96);
    assert_eq!(CohereConfig::new("k").with_batch_size(10).batch_size, 10);
    assert!(CohereConfig::default().check().is_err());
    assert!(CohereConfig::new("k").check().is_ok());
}

#[test]
fn ollama_dimensions_by_model() {
    assert_eq!(OllamaConfig::new("snowflake-arctic-embed").dimension, 1024);
    assert_eq!(OllamaConfig::new("nomic-embed-text").dimension, 768);
    assert_eq!(OllamaConfig::new("something-else").dimension, 768);
}

#[test]
fn batches_cover_all_texts() {
    assert_eq!(batch_ranges(0, 3), vec![]);
    assert_eq!(batch_ranges(7, 3), vec![(0, 3), (3, 6), (6, 7)]);
    assert_eq!(batch_ranges(6, 3), vec![(0, 3), (3, 6)]);
}

#[test]
fn plans_follow_the_provider() {
    let plan = plan_provider(ProviderConfig::openai("key"), None).unwrap();
    match plan {
        ProviderPlan::OpenAI(c) => {
            assert_eq!(c.api_key, Some("key".to_string()));
            assert_eq!(c.model, "text-embedding-3-small");
        }
        _ => panic!("expected an OpenAI plan"),
    }
    let err = plan_provider(ProviderConfig::default(), None).unwrap_err();
    assert!(matches!(err, jira_db::error::DomainError::Configuration(ref m)
        if m == "OpenAI API key not found. Set OPENAI_API_KEY environment variable or provide api_key"));
    let plan = plan_provider(ProviderConfig::cohere("k").with_model("embed-english-light-v3.0"), None).unwrap();
    match plan {
        ProviderPlan::Cohere(c) => assert_eq!(c.dimension, 384),
        _ => panic!("expected a Cohere plan"),
    }
    let err = plan_provider(ProviderConfig::cohere(""), None).unwrap_err();
    assert!(matches!(err, jira_db::error::DomainError::Configuration(ref m) if m == "Cohere API key is required"));
    let plan = plan_provider(ProviderConfig::ollama().with_endpoint("http://h:1"), None).unwrap();
    match plan {
        ProviderPlan::Ollama(c) => {
            assert_eq!(c.endpoint, "http://h:1");
            assert_eq!(c.dimension, 768);
        }
        _ => panic!("expected an Ollama plan"),
    }
}

#[test]
fn embedding_request_bodies() {
    let input = vec!["first".to_string(), "second".to_string()];

    let body = openai_request_body("text-embedding-3-small", &input);
    let m = members(&body);
    assert_eq!(m.iter().map(|p| p.0.as_str()).collect::<Vec<_>>(), vec!["model", "input", "encoding_format"]);
    assert!(matches!(m[0].1, JsonValue::Str(s) if s == "text-embedding-3-small"));
    assert_eq!(texts(m[1].1), input);
    assert!(matches!(m[2].1, JsonValue::Str(s) if s == "float"));

    let body = cohere_request_body("embed-multilingual-v3.0", &input, InputType::SearchQuery);
    let m = members(&body);
    assert_eq!(m.iter().map(|p| p.0.as_str()).collect::<Vec<_>>(), vec!["model", "texts", "input_type", "truncate"]);
    assert_eq!(texts(m[1].1), input);
    assert!(matches!(m[2].1, JsonValue::Str(s) if s == "search_query"));
    assert!(matches!(m[3].1, JsonValue::Str(s) if s == "END"));

    let body = ollama_request_body("nomic-embed-text", "hello");
    let m = members(&body);
    assert_eq!(m.iter().map(|p| p.0.as_str()).collect::<Vec<_>>(), vec!["model", "prompt"]);
    assert!(matches!(m[1].1, JsonValue::Str(s) if s == "hello"));
}

#[test]
fn provider_names_parse_back_in_any_case() {
    for p in [EmbeddingProviderType::OpenAI, EmbeddingProviderType::Ollama, EmbeddingProviderType::Cohere] {
        let name = p.to_string();
        assert_eq!(name.parse::<EmbeddingProviderType>().unwrap(), p);
        assert_eq!(name.to_uppercase().parse::<EmbeddingProviderType>().unwrap(), p);
    }
    assert!("OpenAi".parse::<EmbeddingProviderType>().is_ok());
    assert!("open ai".parse::<EmbeddingProviderType>().is_err());
}
