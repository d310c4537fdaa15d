//! A small terminal coding assistant: a session transcript with windowed
//! rendering, and a rule-based engine that answers one prompt at a time.
mod agent;
mod cli;
mod error;
mod memory;
mod text;

pub use text::{has_infix, is_white, lower_of, trim_end_ws, trim_start_ws, trim_ws};
pub use memory::{
    lemma_render_window, render, render_line, render_lines, speaker_label, window, Message,
    MessageView, Role, SessionMemory,
};
pub use error::DecemberError;
pub use agent::{
    fallback_reply, fix_plan, lemma_scaffold_outranks_fix, reply_for, reply_spec, reply_to,
    rule_for, rule_reply, scaffold_plan, select_rule, wants_fix, wants_scaffold, CodingAgent, Rule,
};
pub use cli::{chat_command, classify_line, join_words, joined, Args, ChatCommand, Command};
