use vstd::prelude::*;

use crate::text::{trim, trim_ws};

verus! {

/// The command line: an optional subcommand.
pub struct Args {
    pub command: Option<Command>,
}

/// What the program was asked to do.
pub enum Command {
    /// Answer one prompt, given as words, and exit.
    Run { prompt: Vec<String> },
    /// Hold an interactive session.
    Chat,
}

impl Args {
    /// The subcommand given, or an interactive session when none was.
    pub fn into_command(self) -> (r: Command)
        ensures
            r == match self.command {
                Some(c) => c,
                None => Command::Chat,
            },
    {
        match self.command {
            Some(c) => c,
            None => Command::Chat,
        }
    }
}

/// The words of `words` with one space between each two.
pub open spec fn joined(words: Seq<Seq<char>>) -> Seq<char>
    decreases words.len(),
{
    if words.len() == 0 {
        Seq::empty()
    } else if words.len() == 1 {
        words[0]
    } else {
        joined(words.drop_last()) + " "@ + words.last()
    }
}

/// Joins the words of a prompt given on the command line with single spaces.
pub fn join_words(words: &Vec<String>) -> (r: String)
    ensures
        r@ == joined(words@.map_values(|w: String| w@)),
{
    let ghost views = words@.map_values(|w: String| w@);
    let mut out = String::new();
    let mut i: usize = 0;
    while i < words.len()
        invariant
            i <= words@.len(),
            views == words@.map_values(|w: String| w@),
            out@ == joined(views.subrange(0, i as int)),
        decreases words.len() - i,
    {
        if i > 0 {
            out.append(" ");
        }
        out.append(words[i].as_str());
        proof {
            let next = views.subrange(0, i + 1);
            assert(next.drop_last() =~= views.subrange(0, i as int));
            if i == 0 {
                assert(out@ =~= next[0]);
            }
        }
        i = i + 1;
    }
    proof {
        assert(views.subrange(0, words@.len() as int) =~= views);
    }
    out
}

/// What one line read in an interactive session asks for.
#[derive(Clone, Copy, Debug, PartialEq, Eq, Structural)]
pub enum ChatCommand {
    /// A blank line: ask again.
    Skip,
    /// `/exit` or `/quit`: end the session.
    Exit,
    /// `/help`: show the commands.
    Help,
    /// `/history`: show the latest transcript.
    History,
    /// Anything else: a prompt for the agent.
    Prompt,
}

/// The meaning of a line, judged on its trimmed text.
pub open spec fn chat_command(line: Seq<char>) -> ChatCommand {
    let t = trim_ws(line);
    if t.len() == 0 {
        ChatCommand::Skip
    } else if t == "/exit"@ || t == "/quit"@ {
        ChatCommand::Exit
    } else if t == "/help"@ {
        ChatCommand::Help
    } else if t == "/history"@ {
        ChatCommand::History
    } else {
        ChatCommand::Prompt
    }
}

/// Relies on `==` of `str`: equal exactly when the characters are.
#[verifier::external_body]
fn str_eq(a: &str, b: &str) -> (r: bool)
    ensures
        r == (a@ == b@),
{
    a == b
}

/// Decides what a line read in an interactive session asks for. Meta
/// commands are never handed to the agent as prompts.
pub fn classify_line(line: &str) -> (r: ChatCommand)
    ensures
        r == chat_command(line@),
{
    let t = trim(line);
    if t.is_empty() {
        ChatCommand::Skip
    } else if str_eq(t, "/exit") || str_eq(t, "/quit") {
        ChatCommand::Exit
    } else if str_eq(t, "/help") {
        ChatCommand::Help
    } else if str_eq(t, "/history") {
        ChatCommand::History
    } else {
        ChatCommand::Prompt
    }
}

} // verus!
