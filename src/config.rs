use vstd::prelude::*;
use vstd::string::StringExecFns;

verus! {

/// A setting that the process must be given is missing.
#[derive(PartialEq, Eq, Structural, Clone, Copy, Debug)]
pub enum ConfigError {
    /// No path to the model's weights was set.
    MissingModelPath,
}

impl ConfigError {
    pub open spec fn text(&self) -> Seq<char> {
        match self {
            ConfigError::MissingModelPath => "MODEL_PATH must be set"@,
        }
    }

    /// The message, naming the missing setting.
    pub fn message(&self) -> (r: String)
        ensures
            r@ == self.text(),
    {
        match self {
            ConfigError::MissingModelPath => String::from_str("MODEL_PATH must be set"),
        }
    }
}

/// The path to the model's weights, from the value of its setting, if any.
pub fn model_path_from(setting: Option<String>) -> (r: Result<String, ConfigError>)
    ensures
        match setting {
            Some(p) => r == Ok::<String, ConfigError>(p),
            None => r == Err::<String, ConfigError>(ConfigError::MissingModelPath),
        },
{
    match setting {
        Some(p) => Ok(p),
        None => Err(ConfigError::MissingModelPath),
    }
}

/// A missing setting gives the same message every time: it names the
/// setting, and nothing else goes into it.
pub proof fn law_missing_path_is_deterministic(e: ConfigError)
    ensures
        e.text() == "MODEL_PATH must be set"@,
{
}

} // verus!
