use vstd::prelude::*;

use crate::events::TokenEvent;
use crate::report::{format_report, report_of, InferenceFailure, RunStats};
use crate::session::{budget_of, law_tokens_within_budget, Generation};

verus! {

#[verifier::external_type_specification]
#[verifier::external_body]
pub struct ExLlama(llm::models::Llama);

#[verifier::external_type_specification]
#[verifier::external_body]
pub struct ExInferenceSession(llm::InferenceSession);

#[verifier::external_type_specification]
#[verifier::external_body]
pub struct ExInferenceParameters(llm::InferenceParameters);

#[verifier::external_type_specification]
#[verifier::external_body]
pub struct ExThreadRng(rand::rngs::ThreadRng);

#[verifier::external_type_specification]
#[verifier::external_body]
pub struct ExInstant(std::time::Instant);

/// Relies on `rand::thread_rng`, the random source for sampling.
pub assume_specification[ rand::thread_rng ]() -> rand::rngs::ThreadRng;

/// Relies on `std::time::Instant::now`, the moment a run starts.
pub assume_specification[ std::time::Instant::now ]() -> std::time::Instant;

/// Relies on `Default for llm::InferenceParameters`: the default sampling
/// parameters.
pub assume_specification[ <llm::InferenceParameters as core::default::Default>::default ]() -> llm::InferenceParameters;

/// Relies on `llm::KnownModel::start_session`: a fresh session, with the
/// default session configuration.
#[verifier::external_body]
fn start_session(model: &llm::models::Llama) -> llm::InferenceSession {
    llm::KnownModel::start_session(model, llm::InferenceSessionConfig::default())
}

/// Relies on `llm::InferenceSession::feed_prompt`: feeds the prompt into the
/// context; the prompt's own tokens are not reported.
#[verifier::external_body]
fn feed_prompt(
    session: &mut llm::InferenceSession,
    model: &llm::models::Llama,
    params: &llm::InferenceParameters,
    prompt: &str,
) -> Result<(), InferenceFailure> {
    let mut request = llm::OutputRequest::default();
    match session.feed_prompt::<std::convert::Infallible>(model, params, prompt, &mut request, |_| Ok(())) {
        Ok(()) => Ok(()),
        Err(llm::InferenceError::TokenizationFailed) => Err(InferenceFailure::TokenizationFailed),
        Err(llm::InferenceError::ContextFull) => Err(InferenceFailure::ContextFull),
        Err(llm::InferenceError::EndOfText) => Err(InferenceFailure::EndOfText),
        Err(llm::InferenceError::UserCallback(_)) => Err(InferenceFailure::UserCallback),
    }
}

/// Relies on `llm::InferenceSession::infer_next_token`: a sampled token's
/// bytes, or the end-of-text marker; it never yields a control signal.
#[verifier::external_body]
fn next_event(
    session: &mut llm::InferenceSession,
    model: &llm::models::Llama,
    params: &llm::InferenceParameters,
    rng: &mut rand::rngs::ThreadRng,
) -> (r: Result<TokenEvent, InferenceFailure>)
    ensures
        r matches Ok(e) ==> !(e is Other),
{
    match session.infer_next_token(model, params, &mut llm::OutputRequest::default(), rng) {
        Ok(token) => Ok(TokenEvent::InferredToken(token.to_vec())),
        Err(llm::InferenceError::EndOfText) => Ok(TokenEvent::EndOfSequence),
        Err(llm::InferenceError::TokenizationFailed) => Err(InferenceFailure::TokenizationFailed),
        Err(llm::InferenceError::ContextFull) => Err(InferenceFailure::ContextFull),
        Err(llm::InferenceError::UserCallback(_)) => Err(InferenceFailure::UserCallback),
    }
}

/// Relies on the field `llm::InferenceSession::n_past`: how many tokens the
/// context holds.
#[verifier::external_body]
fn context_len(session: &llm::InferenceSession) -> usize {
    session.n_past
}

/// Relies on `std::time::Instant::elapsed`: milliseconds since `start`.
#[verifier::external_body]
fn elapsed_ms(start: &std::time::Instant) -> u64 {
    start.elapsed().as_millis() as u64
}

/// The outcome of one generation request: the run's state, with its output,
/// and its figures or the failure that ended it.
pub struct Completion {
    pub run: Generation,
    pub result: Result<RunStats, InferenceFailure>,
}

/// Generates text after `prompt` with a fresh session on `model`, feeding
/// each token to the accumulator and stopping when the model ends the
/// sequence or `limit` tokens have come.
///
/// Whatever the model produces, the output is the concatenation of the
/// events taken in, in order; a run that succeeds stopped where the loop's
/// rules stop it; and no run emits more tokens than its limit.
pub fn infer(
    model: &llm::models::Llama,
    prompt: &str,
    limit: Option<usize>,
    rng: &mut rand::rngs::ThreadRng,
) -> (r: Completion)
    ensures
        r.run.wf(),
        r.run.consistent(),
        r.run.budget() == budget_of(limit),
        r.run.emitted() <= budget_of(limit),
        r.result is Ok ==> !r.run.is_open(),
        r.result is Err ==> r.run.is_open() || r.run.events().len() == 0,
{
    let params = llm::InferenceParameters::default();
    let mut session = start_session(model);
    let start = std::time::Instant::now();
    let mut run = Generation::new(limit);
    proof {
        run.lemma_consistent();
    }
    match feed_prompt(&mut session, model, &params, prompt) {
        Ok(()) => {},
        Err(f) => {
            proof {
                law_tokens_within_budget(run.events(), run.budget());
            }
            return Completion { run, result: Err(f) };
        },
    }
    let feed_prompt_ms = elapsed_ms(&start);
    let prompt_tokens = context_len(&session);
    while run.wants_more()
        invariant
            run.wf(),
            run.consistent(),
            run.budget() == budget_of(limit),
        decreases 2 * (run.budget() - run.emitted()) + if run.is_open() { 1int } else { 0int },
    {
        proof {
            law_tokens_within_budget(run.events(), run.budget());
        }
        match next_event(&mut session, model, &params, rng) {
            Ok(event) => {
                let ghost before = run.events();
                run.feed(&event);
                proof {
                    assert(run.events().drop_last() == before);
                    run.lemma_consistent();
                    law_tokens_within_budget(run.events(), run.budget());
                }
            },
            Err(f) => {
                return Completion { run, result: Err(f) };
            },
        }
    }
    proof {
        law_tokens_within_budget(run.events(), run.budget());
    }
    let stats = RunStats {
        feed_prompt_ms,
        prompt_tokens,
        predict_ms: elapsed_ms(&start),
        predict_tokens: context_len(&session),
    };
    Completion { run, result: Ok(stats) }
}

/// The prompt that a request without one of its own is answered for.
pub const DEFAULT_PROMPT: &'static str = "Rust is a cool programming language because";

/// Answers the default prompt on `model`, with no token limit, and reports
/// the result as text.
pub fn language_model(model: &llm::models::Llama) -> (r: String)
    ensures
        exists|res: Result<RunStats, InferenceFailure>| r@ == report_of(res),
{
    let mut rng = rand::thread_rng();
    let completion = infer(model, DEFAULT_PROMPT, None, &mut rng);
    format_report(&completion.result)
}

} // verus!
