use zero_shot::config::{standard_config, MAX_LENGTH};
use zero_shot::error::{ErrorKind, PipelineError};
use zero_shot::prediction::{answers_categories, sentence_labels, ScoredLabel};
use zero_shot::resource::{ResourceSource, ResourceType};

fn label(text: &str, score: f64) -> ScoredLabel<f64> {
    ScoredLabel { text: text.to_string(), score }
}

fn categories() -> Vec<String> {
    vec!["science".to_string(), "politics".to_string()]
}

#[test]
fn standard_config_names_the_files() {
    let config = standard_config();
    assert_eq!(config.model_path, "src/model/rust_model.ot");
    assert_eq!(config.merge_script, "bin/merge-model-parts.sh");
    assert_eq!(config.config_path, "src/config/main.json");
    assert_eq!(config.vocab_path, "src/config/vocab.json");
    assert_eq!(config.merges_path, "src/config/merges.txt");
    assert_eq!(config.categories, categories());
    assert_eq!(config.max_length, 128);
    assert_eq!(MAX_LENGTH, 128);
}

#[test]
fn resources_come_in_loading_order() {
    let plan = standard_config().resources();
    let kinds: Vec<ResourceType> = plan.iter().map(|d| d.kind).collect();
    assert_eq!(
        kinds,
        vec![
            ResourceType::Model,
            ResourceType::Config,
            ResourceType::Vocab,
            ResourceType::Merges
        ]
    );
    let paths: Vec<&str> = plan.iter().map(|d| d.location.as_str()).collect();
    assert_eq!(
        paths,
        vec![
            "src/model/rust_model.ot",
            "src/config/main.json",
            "src/config/vocab.json",
            "src/config/merges.txt"
        ]
    );
    assert!(plan.iter().all(|d| d.source == ResourceSource::Local));
}

#[test]
fn zero_shot_result_has_one_score_per_category_in_order() {
    let output = vec![vec![label("science", 0.9731), label("politics", 0.0412)]];
    let labels = sentence_labels(&output, &categories()).unwrap();
    assert_eq!(labels.len(), 2);
    assert_eq!(labels[0].text, "science");
    assert_eq!(labels[1].text, "politics");
    assert_eq!(labels[0].score, 0.9731);
    assert_eq!(labels[1].score, 0.0412);
    for l in labels {
        assert!(0.0 <= l.score && l.score <= 1.0);
    }
}

#[test]
fn only_the_first_sentence_is_returned() {
    let output = vec![
        vec![label("science", 0.1), label("politics", 0.9)],
        vec![label("science", 0.8), label("politics", 0.3)],
    ];
    let labels = sentence_labels(&output, &categories()).unwrap();
    assert_eq!(labels, &vec![label("science", 0.1), label("politics", 0.9)]);
}

#[test]
fn no_output_is_an_inference_error() {
    let output: Vec<Vec<ScoredLabel<f64>>> = Vec::new();
    assert_eq!(
        sentence_labels(&output, &categories()),
        Err(PipelineError {
            kind: ErrorKind::ModelInference,
            message: "The model returned no scores.".to_string(),
        })
    );
}

#[test]
fn labels_in_another_order_are_an_inference_error() {
    let output = vec![vec![label("politics", 0.9), label("science", 0.1)]];
    assert_eq!(
        sentence_labels(&output, &categories()),
        Err(PipelineError {
            kind: ErrorKind::ModelInference,
            message: "The model's labels do not match the categories.".to_string(),
        })
    );
}

#[test]
fn missing_or_extra_labels_are_an_inference_error() {
    let short = vec![vec![label("science", 0.9)]];
    let long = vec![vec![label("science", 0.9), label("politics", 0.1), label("sports", 0.0)]];
    let empty: Vec<Vec<ScoredLabel<f64>>> = vec![Vec::new()];
    for output in [short, long, empty] {
        let error = sentence_labels(&output, &categories()).unwrap_err();
        assert_eq!(error.kind, ErrorKind::ModelInference);
        assert_eq!(error.message, "The model's labels do not match the categories.");
    }
}

#[test]
fn answers_compares_label_texts_with_categories() {
    assert!(answers_categories(
        &vec![label("science", 0.5), label("politics", 0.5)],
        &categories()
    ));
    assert!(!answers_categories(
        &vec![label("science", 0.5), label("Politics", 0.5)],
        &categories()
    ));
    assert!(!answers_categories(&vec![label("science", 0.5)], &categories()));
    assert!(answers_categories(&Vec::<ScoredLabel<f64>>::new(), &Vec::new()));
}

#[test]
fn scores_of_any_type_are_carried_through() {
    let output = vec![vec![
        ScoredLabel { text: "science".to_string(), score: 9731u32 },
        ScoredLabel { text: "politics".to_string(), score: 412u32 },
    ]];
    let labels = sentence_labels(&output, &categories()).unwrap();
    assert_eq!(labels[0].score, 9731);
    assert_eq!(labels[1].score, 412);
}
