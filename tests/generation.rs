use llm_node::accumulator::TokenAccumulator;
use llm_node::events::{Feedback, TokenEvent};
use llm_node::feedback::decide;
use llm_node::session::{replay, Generation};

fn token(text: &str) -> TokenEvent {
    TokenEvent::InferredToken(text.as_bytes().to_vec())
}

#[test]
fn tokens_are_concatenated_in_order() {
    let events = vec![token("Hello"), token(" world")];
    let run = replay(&events, None);
    assert_eq!(run.output_bytes(), b"Hello world".to_vec());
    assert_eq!(run.emitted_tokens(), 2);
}

#[test]
fn accumulator_appends_each_token_verbatim() {
    let mut acc = TokenAccumulator::new();
    acc.update(&b"Hel".to_vec());
    acc.update(&b"lo".to_vec());
    acc.update(&Vec::new());
    acc.update(&b" world".to_vec());
    assert_eq!(acc.output_bytes(), b"Hello world".to_vec());
}

#[test]
fn empty_run_has_empty_output() {
    let run = replay(&Vec::new(), None);
    assert_eq!(run.output_bytes(), Vec::<u8>::new());
    assert_eq!(run.emitted_tokens(), 0);
    assert!(run.wants_more());
}

#[test]
fn end_of_sequence_halts_before_later_tokens() {
    let events = vec![token("A"), TokenEvent::EndOfSequence, token("B")];
    let run = replay(&events, None);
    assert_eq!(run.output_bytes(), b"A".to_vec());
    assert_eq!(run.emitted_tokens(), 1);
    assert!(!run.wants_more());
}

#[test]
fn end_of_sequence_halts_with_budget_left() {
    let events = vec![TokenEvent::EndOfSequence, token("A"), token("B")];
    let run = replay(&events, Some(10));
    assert_eq!(run.output_bytes(), Vec::<u8>::new());
    assert_eq!(run.emitted_tokens(), 0);
    assert!(!run.wants_more());
}

#[test]
fn token_limit_caps_emitted_tokens() {
    let events = vec![token("A"), token("B"), token("C"), token("D")];
    let run = replay(&events, Some(2));
    assert_eq!(run.output_bytes(), b"AB".to_vec());
    assert_eq!(run.emitted_tokens(), 2);
    assert!(!run.wants_more());
}

#[test]
fn zero_token_limit_reads_nothing() {
    let events = vec![token("A")];
    let run = replay(&events, Some(0));
    assert_eq!(run.output_bytes(), Vec::<u8>::new());
    assert_eq!(run.emitted_tokens(), 0);
    assert!(!run.wants_more());
}

#[test]
fn control_signals_do_not_count_or_accumulate() {
    let events = vec![TokenEvent::Other, token("A"), TokenEvent::Other, token("B")];
    let run = replay(&events, Some(2));
    assert_eq!(run.output_bytes(), b"AB".to_vec());
    assert_eq!(run.emitted_tokens(), 2);
}

#[test]
fn decision_follows_the_update() {
    let mut acc = TokenAccumulator::new();
    assert_eq!(decide(&token("x"), &mut acc), Feedback::Continue);
    assert_eq!(acc.output_bytes(), b"x".to_vec());
    assert_eq!(decide(&TokenEvent::Other, &mut acc), Feedback::Continue);
    assert_eq!(acc.output_bytes(), b"x".to_vec());
    assert_eq!(decide(&TokenEvent::EndOfSequence, &mut acc), Feedback::Halt);
    assert_eq!(acc.output_bytes(), b"x".to_vec());
}

#[test]
fn each_token_reaches_the_output_once() {
    let mut run = Generation::new(None);
    assert_eq!(run.feed(&token("ab")), Feedback::Continue);
    assert_eq!(run.feed(&token("ab")), Feedback::Continue);
    assert_eq!(run.output_bytes(), b"abab".to_vec());
    assert_eq!(run.emitted_tokens(), 2);
    assert_eq!(run.feed(&TokenEvent::EndOfSequence), Feedback::Halt);
    assert!(!run.wants_more());
}

#[test]
fn multibyte_text_is_kept_whole() {
    let events = vec![
        TokenEvent::InferredToken(vec![0xc3]),
        TokenEvent::InferredToken(vec![0xa9]),
    ];
    let run = replay(&events, None);
    assert_eq!(String::from_utf8(run.output_bytes()).unwrap(), "\u{e9}");
}
