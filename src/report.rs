use vstd::prelude::*;
use vstd::string::StringExecFns;

verus! {

/// Why a generation run failed.
#[derive(PartialEq, Eq, Structural, Clone, Copy, Debug)]
pub enum InferenceFailure {
    /// A token of the prompt was invalid.
    TokenizationFailed,
    /// The context window is full.
    ContextFull,
    /// The model ended the text where no end was expected.
    EndOfText,
    /// A callback handed to the model refused a token.
    UserCallback,
}

impl InferenceFailure {
    /// The description of each failure, as the model library words it.
    pub open spec fn text(&self) -> Seq<char> {
        match self {
            InferenceFailure::TokenizationFailed => "an invalid token was encountered during tokenization"@,
            InferenceFailure::ContextFull => "the context window is full"@,
            InferenceFailure::EndOfText => "reached end of text"@,
            InferenceFailure::UserCallback => "the user-specified callback returned an error"@,
        }
    }

    pub fn message(&self) -> (r: String)
        ensures
            r@ == self.text(),
    {
        match self {
            InferenceFailure::TokenizationFailed => String::from_str(
                "an invalid token was encountered during tokenization",
            ),
            InferenceFailure::ContextFull => String::from_str("the context window is full"),
            InferenceFailure::EndOfText => String::from_str("reached end of text"),
            InferenceFailure::UserCallback => String::from_str(
                "the user-specified callback returned an error",
            ),
        }
    }
}

/// Figures of a finished run: durations in milliseconds since the run
/// started, and the length of the context after the prompt and at the end.
#[derive(PartialEq, Eq, Structural, Clone, Copy, Debug)]
pub struct RunStats {
    pub feed_prompt_ms: u64,
    pub prompt_tokens: usize,
    pub predict_ms: u64,
    pub predict_tokens: usize,
}

/// The text that the model library gives for a run's figures.
pub uninterp spec fn stats_display(
    feed_prompt_ms: u64,
    prompt_tokens: usize,
    predict_ms: u64,
    predict_tokens: usize,
) -> Seq<char>;

/// Relies on `Display for llm::InferenceStats`: its text depends on the four
/// figures alone.
#[verifier::external_body]
fn stats_text(s: &RunStats) -> (r: String)
    ensures
        r@ == stats_display(s.feed_prompt_ms, s.prompt_tokens, s.predict_ms, s.predict_tokens),
{
    llm_base::InferenceStats {
        feed_prompt_duration: std::time::Duration::from_millis(s.feed_prompt_ms),
        prompt_tokens: s.prompt_tokens,
        predict_duration: std::time::Duration::from_millis(s.predict_ms),
        predict_tokens: s.predict_tokens,
    }.to_string()
}

/// The heading put before a successful run's figures.
pub open spec fn stats_heading() -> Seq<char> {
    "\n\nInference stats:\n"@
}

/// The text reported for the result of a run.
pub open spec fn report_of(result: Result<RunStats, InferenceFailure>) -> Seq<char> {
    match result {
        Ok(s) => stats_heading() + stats_display(
            s.feed_prompt_ms,
            s.prompt_tokens,
            s.predict_ms,
            s.predict_tokens,
        ),
        Err(e) => e.text(),
    }
}

/// Formats the result of a run: the figures after a heading on success, the
/// failure's description alone on failure.
pub fn format_report(result: &Result<RunStats, InferenceFailure>) -> (r: String)
    ensures
        r@ == report_of(*result),
{
    match result {
        Ok(s) => {
            let mut text = String::from_str("\n\nInference stats:\n");
            let figures = stats_text(s);
            text.append(figures.as_str());
            text
        },
        Err(e) => e.message(),
    }
}

} // verus!
