use backend_core::{ModelType, Pool};

#[test]
fn pool_renders_lowercase_names() {
    assert_eq!(Pool::Cls.to_string(), "cls");
    assert_eq!(Pool::Mean.to_string(), "mean");
}

#[test]
fn pool_parses_its_names() {
    assert_eq!(Pool::parse("cls"), Some(Pool::Cls));
    assert_eq!(Pool::parse("mean"), Some(Pool::Mean));
}

#[test]
fn pool_rejects_other_text() {
    assert_eq!(Pool::parse(""), None);
    assert_eq!(Pool::parse("Cls"), None);
    assert_eq!(Pool::parse("MEAN"), None);
    assert_eq!(Pool::parse("cl"), None);
    assert_eq!(Pool::parse("clss"), None);
    assert_eq!(Pool::parse("mean "), None);
    assert_eq!(Pool::parse("max"), None);
    assert_eq!(Pool::parse("cl\u{00df}"), None);
}

#[test]
fn pool_name_round_trip() {
    let all = [Pool::Cls, Pool::Mean];
    for pool in all {
        assert_eq!(Pool::parse(&pool.to_string()), Some(pool));
    }
}

#[test]
fn pool_names_differ() {
    assert_ne!(Pool::Cls.to_string(), Pool::Mean.to_string());
    assert_ne!(Pool::Cls, Pool::Mean);
}

#[test]
fn model_type_equality_is_structural() {
    assert_eq!(ModelType::Embedding(Pool::Mean), ModelType::Embedding(Pool::Mean));
    assert_ne!(ModelType::Embedding(Pool::Mean), ModelType::Embedding(Pool::Cls));
    assert_ne!(ModelType::Embedding(Pool::Mean), ModelType::Classifier);
    assert_eq!(ModelType::Classifier, ModelType::Classifier);
    assert_ne!(ModelType::Classifier, ModelType::Embedding(Pool::Cls));
}

#[test]
fn model_type_clone_is_equal() {
    let embedding = ModelType::Embedding(Pool::Cls);
    assert_eq!(embedding.clone(), embedding);
    let classifier = ModelType::Classifier;
    assert_eq!(classifier.clone(), ModelType::Classifier);
    assert_eq!(Pool::Mean.clone(), Pool::Mean);
}
