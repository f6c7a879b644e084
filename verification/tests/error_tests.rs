use zero_shot::error::{ErrorKind, ModelFailure, PipelineError};

#[test]
fn new_keeps_kind_and_message() {
    let error = PipelineError::new(ErrorKind::Tokenization, "bad vocabulary".to_string());
    assert_eq!(error.kind, ErrorKind::Tokenization);
    assert_eq!(error.message, "bad vocabulary");
}

#[test]
fn unreadable_files_are_configuration_errors() {
    let error = PipelineError::from_model(
        ModelFailure::Io,
        "IO error: No such file or directory (os error 2)".to_string(),
    );
    assert_eq!(error.kind, ErrorKind::Configuration);
    assert_eq!(error.message, "IO error: No such file or directory (os error 2)");
    assert_eq!(
        PipelineError::from_model(ModelFailure::InvalidConfiguration, String::new()).kind,
        ErrorKind::Configuration
    );
}

#[test]
fn failed_downloads_are_retrieval_errors() {
    let error = PipelineError::from_model(ModelFailure::Download, "no route".to_string());
    assert_eq!(
        error,
        PipelineError { kind: ErrorKind::Retrieval, message: "no route".to_string() }
    );
}

#[test]
fn tokenizer_failures_are_tokenization_errors() {
    let error = PipelineError::from_model(ModelFailure::Tokenizer, "merges".to_string());
    assert_eq!(error.kind, ErrorKind::Tokenization);
}

#[test]
fn failures_of_the_forward_pass_are_inference_errors() {
    for failure in [ModelFailure::Tensor, ModelFailure::Value, ModelFailure::Unsupported] {
        let error = PipelineError::from_model(failure, "shape mismatch".to_string());
        assert_eq!(error.kind, ErrorKind::ModelInference);
        assert_eq!(error.message, "shape mismatch");
    }
}
