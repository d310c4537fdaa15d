use vstd::prelude::*;

verus! {

/// Why a prompt was refused.
#[derive(Clone, Copy, Debug, PartialEq, Eq, Structural)]
pub enum DecemberError {
    /// The prompt holds nothing but whitespace.
    EmptyPrompt,
}

impl DecemberError {
    /// The message shown to the user.
    pub fn message(&self) -> (r: String)
        ensures
            r@ == "Prompt cannot be empty"@,
    {
        String::from_str("Prompt cannot be empty")
    }
}

} // verus!
