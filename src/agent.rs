use vstd::prelude::*;

use crate::error::DecemberError;
use crate::memory::{render, MessageView, Role, SessionMemory};
use crate::text::{has_infix, lower_of, str_contains, to_lower, trim, trim_ws};

verus! {

/// The reply rules, in the order in which they are tried.
#[derive(Clone, Copy, Debug, PartialEq, Eq, Structural)]
pub enum Rule {
    /// A request to start a Rust project.
    Scaffold,
    /// A request to fix a defect.
    Fix,
    /// Anything else; always applies.
    Fallback,
}

/// The lowercased prompt asks to initialise a Rust project.
pub open spec fn wants_scaffold(lowered: Seq<char>) -> bool {
    has_infix(lowered, "init"@) && has_infix(lowered, "rust"@)
}

/// The lowercased prompt speaks of a bug or a fix.
pub open spec fn wants_fix(lowered: Seq<char>) -> bool {
    has_infix(lowered, "fix"@) || has_infix(lowered, "bug"@)
}

/// The first rule, in priority order, that applies to the lowercased prompt.
pub open spec fn rule_for(lowered: Seq<char>) -> Rule {
    if wants_scaffold(lowered) {
        Rule::Scaffold
    } else if wants_fix(lowered) {
        Rule::Fix
    } else {
        Rule::Fallback
    }
}

pub open spec fn scaffold_plan() -> Seq<char> {
    "Plan:\n1. Create a Cargo project scaffold.\n2. Add CLI argument parsing and command routing.\n3. Add agent/memory modules.\n4. Run `cargo fmt` and `cargo check`."@
}

pub open spec fn fix_plan() -> Seq<char> {
    "Plan:\n1. Reproduce the issue.\n2. Identify the failing code path.\n3. Patch with the smallest safe change.\n4. Run checks and summarize impact."@
}

/// The acknowledgement that quotes the prompt as it was given.
pub open spec fn fallback_reply(prompt: Seq<char>) -> Seq<char> {
    "I can help with that. First action: inspect the repository and current build status for: \""@
        + prompt + "\""@
}

/// The text that `rule` produces for `prompt`.
pub open spec fn rule_reply(rule: Rule, prompt: Seq<char>) -> Seq<char> {
    match rule {
        Rule::Scaffold => scaffold_plan(),
        Rule::Fix => fix_plan(),
        Rule::Fallback => fallback_reply(prompt),
    }
}

/// The reply to a trimmed `prompt` whose lowercase form is `lowered`.
pub open spec fn reply_spec(prompt: Seq<char>, lowered: Seq<char>) -> Seq<char> {
    rule_reply(rule_for(lowered), prompt)
}

/// The reply to a raw prompt that is not blank.
pub open spec fn reply_to(raw: Seq<char>) -> Seq<char> {
    reply_spec(trim_ws(raw), lower_of(trim_ws(raw)))
}

/// A prompt that matches both the scaffold and the fix rule gets the
/// scaffold plan: rules never mix, and the earlier one wins.
pub proof fn lemma_scaffold_outranks_fix(prompt: Seq<char>, lowered: Seq<char>)
    requires
        wants_scaffold(lowered),
        wants_fix(lowered),
    ensures
        reply_spec(prompt, lowered) == scaffold_plan(),
        reply_spec(prompt, lowered) != fix_plan(),
{
    reveal_strlit("Plan:\n1. Create a Cargo project scaffold.\n2. Add CLI argument parsing and command routing.\n3. Add agent/memory modules.\n4. Run `cargo fmt` and `cargo check`.");
    reveal_strlit("Plan:\n1. Reproduce the issue.\n2. Identify the failing code path.\n3. Patch with the smallest safe change.\n4. Run checks and summarize impact.");
    assert(scaffold_plan()[10] != fix_plan()[10]);
}

impl Rule {
    /// Whether this rule applies to a lowercased prompt, ignoring the rules
    /// before it.
    pub fn matches(&self, lowered: &str) -> (r: bool)
        ensures
            r == match *self {
                Rule::Scaffold => wants_scaffold(lowered@),
                Rule::Fix => wants_fix(lowered@),
                Rule::Fallback => true,
            },
    {
        match self {
            Rule::Scaffold => str_contains(lowered, "init") && str_contains(lowered, "rust"),
            Rule::Fix => str_contains(lowered, "fix") || str_contains(lowered, "bug"),
            Rule::Fallback => true,
        }
    }

    /// The reply this rule gives to `prompt`.
    pub fn reply(&self, prompt: &str) -> (r: String)
        ensures
            r@ == rule_reply(*self, prompt@),
    {
        match self {
            Rule::Scaffold => String::from_str(
                "Plan:\n1. Create a Cargo project scaffold.\n2. Add CLI argument parsing and command routing.\n3. Add agent/memory modules.\n4. Run `cargo fmt` and `cargo check`.",
            ),
            Rule::Fix => String::from_str(
                "Plan:\n1. Reproduce the issue.\n2. Identify the failing code path.\n3. Patch with the smallest safe change.\n4. Run checks and summarize impact.",
            ),
            Rule::Fallback => {
                let mut out = String::from_str(
                    "I can help with that. First action: inspect the repository and current build status for: \"",
                );
                out.append(prompt);
                out.append("\"");
                out
            },
        }
    }
}

/// The first rule that applies to a lowercased prompt.
pub fn select_rule(lowered: &str) -> (r: Rule)
    ensures
        r == rule_for(lowered@),
{
    if Rule::Scaffold.matches(lowered) {
        Rule::Scaffold
    } else if Rule::Fix.matches(lowered) {
        Rule::Fix
    } else {
        Rule::Fallback
    }
}

/// The reply to `prompt`, given its lowercase form `lowered`.
pub fn reply_for(prompt: &str, lowered: &str) -> (r: String)
    ensures
        r@ == reply_spec(prompt@, lowered@),
{
    select_rule(lowered).reply(prompt)
}

/// A rule-based assistant that keeps the transcript of its session.
pub struct CodingAgent {
    memory: SessionMemory,
}

impl View for CodingAgent {
    type V = Seq<MessageView>;

    closed spec fn view(&self) -> Seq<MessageView> {
        self.memory@
    }
}

impl CodingAgent {
    /// An agent with an empty transcript.
    pub fn new() -> (r: CodingAgent)
        ensures
            r@ == Seq::<MessageView>::empty(),
    {
        CodingAgent { memory: SessionMemory::default() }
    }

    /// Answers one prompt. A blank prompt is refused and leaves the
    /// transcript alone; any other is trimmed, recorded as the user's
    /// message, answered by the first rule that applies, and the answer is
    /// recorded after it.
    pub fn respond(&mut self, prompt: &str) -> (r: Result<String, DecemberError>)
        ensures
            trim_ws(prompt@).len() == 0 <==> r is Err,
            r is Err ==> r == Err::<String, DecemberError>(DecemberError::EmptyPrompt)
                && final(self)@ == old(self)@,
            r is Ok ==> {
                &&& r->Ok_0@ == reply_to(prompt@)
                &&& final(self)@ == old(self)@.push(
                    MessageView { role: Role::User, content: trim_ws(prompt@) },
                ).push(MessageView { role: Role::Assistant, content: reply_to(prompt@) })
                &&& final(self)@.len() == old(self)@.len() + 2
                &&& final(self)@[old(self)@.len() as int].role == Role::User
                &&& final(self)@[old(self)@.len() + 1int].role == Role::Assistant
            },
    {
        let cleaned = trim(prompt);
        if cleaned.is_empty() {
            return Err(DecemberError::EmptyPrompt);
        }
        self.memory.push_user(cleaned);
        let reply = self.generate_reply(cleaned);
        self.memory.push_assistant(reply.as_str());
        Ok(reply)
    }

    /// The last `max_messages` messages of the transcript, rendered.
    pub fn history(&self, max_messages: usize) -> (r: String)
        ensures
            r@ == render(self@, max_messages as nat),
    {
        self.memory.transcript(max_messages)
    }

    fn generate_reply(&self, prompt: &str) -> (r: String)
        ensures
            r@ == reply_spec(prompt@, lower_of(prompt@)),
    {
        let lowered = to_lower(prompt);
        reply_for(prompt, lowered.as_str())
    }
}

} // verus!
