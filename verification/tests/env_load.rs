use rag::env_load::{Config, EnvError};

fn vars(pairs: &[(&str, &str)]) -> Vec<(String, String)> {
    pairs.iter().map(|(k, v)| (k.to_string(), v.to_string())).collect()
}

fn complete() -> Vec<(&'static str, &'static str)> {
    vec![
        ("PATH", "/usr/bin"),
        ("OPENAI_API_KEY", "sk-test"),
        ("PINECONE_API_KEY", "pc-test"),
        ("PINECONE_INDEX_NAME", "faq"),
        ("PINECONE_INDEX_DIMENSION", "1536"),
        ("PINECONE_INDEX_METRIC", "dotproduct"),
        ("PINECONE_INDEX_CLOUD", "aws"),
        ("PINECONE_INDEX_REGION", "us-east-1"),
    ]
}

fn without(name: &str) -> Vec<(String, String)> {
    let kept: Vec<(&str, &str)> = complete().into_iter().filter(|(k, _)| *k != name).collect();
    vars(&kept)
}

fn with(name: &str, value: &str) -> Vec<(String, String)> {
    let mut all = without(name);
    all.push((name.to_string(), value.to_string()));
    all
}

#[test]
fn config_from_a_complete_environment() {
    let config = Config::from_env(&vars(&complete())).unwrap();
    assert_eq!(
        config,
        Config {
            openai_api_key: "sk-test".to_string(),
            pinecone_api_key: "pc-test".to_string(),
            pinecone_index_name: "faq".to_string(),
            pinecone_index_dimension: 1536,
            pinecone_index_metric: "dotproduct".to_string(),
            pinecone_index_cloud: "aws".to_string(),
            pinecone_index_region: "us-east-1".to_string(),
        }
    );
}

#[test]
fn metric_defaults_to_cosine() {
    let config = Config::from_env(&without("PINECONE_INDEX_METRIC")).unwrap();
    assert_eq!(config.pinecone_index_metric, "cosine");
}

#[test]
fn each_required_variable_is_missed_by_name() {
    for name in [
        "OPENAI_API_KEY",
        "PINECONE_API_KEY",
        "PINECONE_INDEX_NAME",
        "PINECONE_INDEX_DIMENSION",
        "PINECONE_INDEX_CLOUD",
        "PINECONE_INDEX_REGION",
    ] {
        assert_eq!(Config::from_env(&without(name)), Err(EnvError::Missing(name.to_string())));
    }
}

#[test]
fn the_first_missing_variable_decides() {
    assert_eq!(Config::from_env(&vars(&[])), Err(EnvError::Missing("OPENAI_API_KEY".to_string())));
    let some = vars(&[("OPENAI_API_KEY", "k"), ("PINECONE_INDEX_REGION", "r")]);
    assert_eq!(Config::from_env(&some), Err(EnvError::Missing("PINECONE_API_KEY".to_string())));
    let bad_number_before_cloud = vars(&[
        ("OPENAI_API_KEY", "k"),
        ("PINECONE_API_KEY", "k"),
        ("PINECONE_INDEX_NAME", "n"),
        ("PINECONE_INDEX_DIMENSION", "many"),
    ]);
    assert_eq!(
        Config::from_env(&bad_number_before_cloud),
        Err(EnvError::Parse(
            "PINECONE_INDEX_DIMENSION".to_string(),
            "invalid digit found in string".to_string()
        ))
    );
}

#[test]
fn dimension_must_be_a_number() {
    for bad in ["", "abc", "12a", " 12", "12 ", "-1", "+", "1_000", "1.5", "4294967296", "99999999999999999999"] {
        let expected = bad.parse::<u32>().unwrap_err().to_string();
        assert_eq!(
            Config::from_env(&with("PINECONE_INDEX_DIMENSION", bad)),
            Err(EnvError::Parse("PINECONE_INDEX_DIMENSION".to_string(), expected)),
            "{:?}",
            bad
        );
    }
}

#[test]
fn dimension_is_read_in_decimal() {
    for (text, n) in [("0", 0u32), ("007", 7), ("+5", 5), ("3072", 3072), ("4294967295", u32::MAX), ("000000000000000000000042", 42)] {
        let config = Config::from_env(&with("PINECONE_INDEX_DIMENSION", text)).unwrap();
        assert_eq!(config.pinecone_index_dimension, n);
    }
}

#[test]
fn the_first_variable_of_a_name_is_taken() {
    let mut all = vars(&complete());
    all.push(("PINECONE_INDEX_NAME".to_string(), "other".to_string()));
    assert_eq!(Config::from_env(&all).unwrap().pinecone_index_name, "faq");
}

#[test]
fn env_errors_describe_themselves() {
    assert_eq!(
        EnvError::Missing("OPENAI_API_KEY".to_string()).message(),
        "Environment variable OPENAI_API_KEY is not set"
    );
    assert_eq!(
        EnvError::Parse("PINECONE_INDEX_DIMENSION".to_string(), "invalid digit found in string".to_string())
            .message(),
        "Failed to parse PINECONE_INDEX_DIMENSION: invalid digit found in string"
    );
}
