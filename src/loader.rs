use vstd::prelude::*;

verus! {

/// The model families that weights can be loaded for.
#[derive(PartialEq, Eq, Structural, Clone, Copy, Debug)]
pub enum Architecture {
    Bloom,
    Gpt2,
    GptJ,
    Llama,
    NeoX,
}

/// Why a model could not be had.
#[derive(PartialEq, Eq, Clone, Debug)]
pub enum LoadError {
    /// The identifier names no supported architecture.
    UnknownArchitecture,
    /// The weights at `path` are missing, unreadable or invalid.
    LoadFailure { path: String, cause: String },
}

pub open spec fn is_ascii_text(s: Seq<char>) -> bool {
    forall|i: int| 0 <= i < s.len() ==> (s[i] as u32) < 128
}

pub open spec fn is_ascii_alnum(c: char) -> bool {
    let n = c as u32;
    (48 <= n <= 57) || (65 <= n <= 90) || (97 <= n <= 122)
}

/// The code of a character, with capital ASCII letters made small.
pub open spec fn folded_code(c: char) -> int {
    let n = c as u32;
    if 65 <= n <= 90 {
        n + 32
    } else {
        n as int
    }
}

/// The letters and digits of `s`, in order and made small, as codes.
pub open spec fn key_codes(s: Seq<char>) -> Seq<int>
    decreases s.len(),
{
    if s.len() == 0 {
        Seq::empty()
    } else if is_ascii_alnum(s.last()) {
        key_codes(s.drop_last()).push(folded_code(s.last()))
    } else {
        key_codes(s.drop_last())
    }
}

/// The architecture whose name folds to `key`, if any.
pub open spec fn architecture_for_key(key: Seq<int>) -> Option<Architecture> {
    if key == key_codes("bloom"@) {
        Some(Architecture::Bloom)
    } else if key == key_codes("gpt2"@) {
        Some(Architecture::Gpt2)
    } else if key == key_codes("gptj"@) {
        Some(Architecture::GptJ)
    } else if key == key_codes("llama"@) {
        Some(Architecture::Llama)
    } else if key == key_codes("gptneox"@) {
        Some(Architecture::NeoX)
    } else {
        None
    }
}

/// Relies on `FromStr for llm::ModelArchitecture`, which ignores case and
/// every character but letters and digits; for ASCII identifiers that is
/// the comparison of `key_codes`.
#[verifier::external_body]
fn parse_architecture(id: &str) -> (r: Option<Architecture>)
    ensures
        is_ascii_text(id@) ==> r == architecture_for_key(key_codes(id@)),
{
    match id.parse::<llm::ModelArchitecture>() {
        Ok(llm::ModelArchitecture::Bloom) => Some(Architecture::Bloom),
        Ok(llm::ModelArchitecture::Gpt2) => Some(Architecture::Gpt2),
        Ok(llm::ModelArchitecture::GptJ) => Some(Architecture::GptJ),
        Ok(llm::ModelArchitecture::Llama) => Some(Architecture::Llama),
        Ok(llm::ModelArchitecture::NeoX) => Some(Architecture::NeoX),
        Err(_) => None,
    }
}

/// Resolves an architecture identifier against the supported families.
pub fn resolve_architecture(id: &str) -> (r: Result<Architecture, LoadError>)
    ensures
        r is Err ==> r == Err::<Architecture, LoadError>(LoadError::UnknownArchitecture),
        is_ascii_text(id@) ==> match architecture_for_key(key_codes(id@)) {
            Some(a) => r == Ok::<Architecture, LoadError>(a),
            None => r is Err,
        },
{
    match parse_architecture(id) {
        Some(a) => Ok(a),
        None => Err(LoadError::UnknownArchitecture),
    }
}

} // verus!
