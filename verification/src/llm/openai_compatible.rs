//! Reading the answer of a provider of the OpenAI-compatible interface.

use vstd::prelude::*;
use vstd::string::StringExecFns;
use crate::llm::LlmResponse;

verus! {

/// The answer that a provider gave: the first of its choices. An answer
/// without choices is an error.
pub fn first_choice(choices: Vec<LlmResponse>) -> (r: Result<LlmResponse, String>)
    ensures
        match r {
            Ok(response) => choices@.len() > 0 && response@ == choices@[0]@,
            Err(e) => choices@.len() == 0 && e@ == "No choices in LLM response"@,
        },
{
    let mut choices = choices;
    if choices.len() == 0 {
        Err(String::from_str("No choices in LLM response"))
    } else {
        Ok(choices.swap_remove(0))
    }
}

} // verus!
