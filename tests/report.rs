use llm_node::config::{model_path_from, ConfigError};
use llm_node::events::TokenEvent;
use llm_node::loader::{resolve_architecture, Architecture, LoadError};
use llm_node::report::{format_report, InferenceFailure, RunStats};
use llm_node::session::replay;

fn stats() -> RunStats {
    RunStats { feed_prompt_ms: 12, prompt_tokens: 5, predict_ms: 40, predict_tokens: 9 }
}

#[test]
fn success_report_starts_with_heading() {
    let text = format_report(&Ok(stats()));
    assert!(text.starts_with("\n\nInference stats:\n"));
}

#[test]
fn success_report_exact_text() {
    let text = format_report(&Ok(stats()));
    assert_eq!(
        text,
        "\n\nInference stats:\nfeed_prompt_duration: 12ms\nprompt_tokens: 5\npredict_duration: 40ms\npredict_tokens: 9\nper_token_duration: 4.444ms"
    );
}

#[test]
fn failure_report_is_the_error_text() {
    assert_eq!(format_report(&Err(InferenceFailure::ContextFull)), "the context window is full");
    assert_eq!(
        format_report(&Err(InferenceFailure::TokenizationFailed)),
        "an invalid token was encountered during tokenization"
    );
    assert_eq!(format_report(&Err(InferenceFailure::EndOfText)), "reached end of text");
    assert_eq!(
        format_report(&Err(InferenceFailure::UserCallback)),
        "the user-specified callback returned an error"
    );
}

#[test]
fn missing_model_path_gives_the_same_error() {
    let first = model_path_from(None);
    let second = model_path_from(None);
    assert_eq!(first, Err(ConfigError::MissingModelPath));
    assert_eq!(first, second);
    assert_eq!(ConfigError::MissingModelPath.message(), "MODEL_PATH must be set");
}

#[test]
fn model_path_setting_is_kept() {
    let path = "/models/llama.bin".to_string();
    assert_eq!(model_path_from(Some(path.clone())), Ok(path));
}

#[test]
fn end_to_end_two_tokens_then_end() {
    let events = vec![
        TokenEvent::InferredToken(b"A".to_vec()),
        TokenEvent::InferredToken(b"B".to_vec()),
        TokenEvent::EndOfSequence,
    ];
    let run = replay(&events, None);
    let output = String::from_utf8(run.output_bytes()).unwrap();
    assert_eq!(output, "AB");
    assert!(!run.wants_more());
    let report = format_report(&Ok(stats()));
    let answer = format!("{output}{report}");
    assert!(answer.starts_with("AB\n\nInference stats:\n"));
}

#[test]
fn architecture_names_resolve() {
    assert_eq!(resolve_architecture("llama"), Ok(Architecture::Llama));
    assert_eq!(resolve_architecture("LLaMA"), Ok(Architecture::Llama));
    assert_eq!(resolve_architecture("GPT-NeoX"), Ok(Architecture::NeoX));
    assert_eq!(resolve_architecture("gpt-2"), Ok(Architecture::Gpt2));
    assert_eq!(resolve_architecture("GPT-J"), Ok(Architecture::GptJ));
    assert_eq!(resolve_architecture("Bloom"), Ok(Architecture::Bloom));
}

#[test]
fn unknown_architecture_is_refused() {
    assert_eq!(resolve_architecture("gpt-3"), Err(LoadError::UnknownArchitecture));
    assert_eq!(resolve_architecture(""), Err(LoadError::UnknownArchitecture));
}
