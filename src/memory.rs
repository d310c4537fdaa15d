use vstd::prelude::*;

use crate::text::{trim_end, trim_end_ws};

verus! {

/// Who spoke a message.
#[derive(Clone, Copy, Debug, PartialEq, Eq, Structural)]
pub enum Role {
    User,
    Assistant,
}

/// One entry of a transcript.
#[derive(Clone, Debug)]
pub struct Message {
    pub role: Role,
    pub content: String,
}

/// The mathematical value of a message: its speaker and its text.
pub struct MessageView {
    pub role: Role,
    pub content: Seq<char>,
}

impl View for Message {
    type V = MessageView;

    open spec fn view(&self) -> MessageView {
        MessageView { role: self.role, content: self.content@ }
    }
}

impl PartialEq for Message {
    fn eq(&self, other: &Message) -> (r: bool) {
        self.role == other.role && self.content == other.content
    }
}

impl vstd::std_specs::cmp::PartialEqSpecImpl for Message {
    open spec fn obeys_eq_spec() -> bool {
        true
    }

    open spec fn eq_spec(&self, other: &Message) -> bool {
        self@ == other@
    }
}

impl Eq for Message {
}

/// The name shown before a message of the given speaker.
pub open spec fn speaker_label(role: Role) -> Seq<char> {
    match role {
        Role::User => "You"@,
        Role::Assistant => "December"@,
    }
}

/// One rendered line: `<label>: <content>` and a line break.
pub open spec fn render_line(m: MessageView) -> Seq<char> {
    speaker_label(m.role) + ": "@ + m.content + "\n"@
}

/// The rendered lines of `msgs`, in order.
pub open spec fn render_lines(msgs: Seq<MessageView>) -> Seq<char>
    decreases msgs.len(),
{
    if msgs.len() == 0 {
        Seq::empty()
    } else {
        render_lines(msgs.drop_last()) + render_line(msgs.last())
    }
}

/// The last `n` messages of `msgs` (all of them when there are fewer).
pub open spec fn window(msgs: Seq<MessageView>, n: nat) -> Seq<MessageView> {
    if n >= msgs.len() {
        msgs
    } else {
        msgs.subrange(msgs.len() - n, msgs.len() as int)
    }
}

/// The transcript of `msgs` limited to its last `n` messages, without
/// trailing whitespace.
pub open spec fn render(msgs: Seq<MessageView>, n: nat) -> Seq<char> {
    trim_end_ws(render_lines(window(msgs, n)))
}

/// Windowing: with `n` at least the number of messages the whole
/// transcript is rendered; with fewer, exactly the last `n` messages are,
/// in the order in which they were added.
pub proof fn lemma_render_window(msgs: Seq<MessageView>, n: nat)
    ensures
        n >= msgs.len() ==> render(msgs, n) == trim_end_ws(render_lines(msgs)),
        n < msgs.len() ==> render(msgs, n) == trim_end_ws(
            render_lines(msgs.subrange(msgs.len() - n, msgs.len() as int)),
        ),
        n < msgs.len() ==> window(msgs, n).len() == n,
        forall|j: int|
            0 <= j < window(msgs, n).len() ==> #[trigger] window(msgs, n)[j] == msgs[msgs.len()
                - window(msgs, n).len() + j],
{
}

/// The ordered, append-only history of one session.
pub struct SessionMemory {
    messages: Vec<Message>,
}

impl View for SessionMemory {
    type V = Seq<MessageView>;

    closed spec fn view(&self) -> Seq<MessageView> {
        self.messages@.map_values(|m: Message| m@)
    }
}

impl Default for SessionMemory {
    fn default() -> (r: SessionMemory)
        ensures
            r@ == Seq::<MessageView>::empty(),
    {
        let r = SessionMemory { messages: Vec::new() };
        assert(r@ =~= Seq::<MessageView>::empty());
        r
    }
}

impl SessionMemory {
    fn push(&mut self, role: Role, content: String)
        ensures
            final(self)@ == old(self)@.push(MessageView { role, content: content@ }),
    {
        self.messages.push(Message { role, content });
        assert(final(self)@ =~= old(self)@.push(MessageView { role, content: content@ }));
    }

    /// Appends a message of the user.
    pub fn push_user(&mut self, content: &str)
        ensures
            final(self)@ == old(self)@.push(MessageView { role: Role::User, content: content@ }),
    {
        self.push(Role::User, String::from_str(content));
    }

    /// Appends a message of the assistant.
    pub fn push_assistant(&mut self, content: &str)
        ensures
            final(self)@ == old(self)@.push(
                MessageView { role: Role::Assistant, content: content@ },
            ),
    {
        self.push(Role::Assistant, String::from_str(content));
    }

    /// The last `max_messages` messages, one `<label>: <content>` line each,
    /// oldest first, with trailing whitespace removed.
    pub fn transcript(&self, max_messages: usize) -> (r: String)
        ensures
            r@ == render(self@, max_messages as nat),
    {
        let len = self.messages.len();
        if len == 0 {
            proof {
                assert(window(self@, max_messages as nat) =~= Seq::<MessageView>::empty());
            }
            return String::new();
        }
        let start = len.saturating_sub(max_messages);
        let mut out = String::new();
        let mut i = start;
        while i < len
            invariant
                start <= i <= len,
                len == self.messages@.len(),
                len == self@.len(),
                out@ == render_lines(self@.subrange(start as int, i as int)),
            decreases len - i,
        {
            let msg = &self.messages[i];
            let speaker = match msg.role {
                Role::User => "You",
                Role::Assistant => "December",
            };
            out.append(speaker);
            out.append(": ");
            out.append(msg.content.as_str());
            out.append("\n");
            proof {
                let next = self@.subrange(start as int, i + 1);
                assert(next.drop_last() =~= self@.subrange(start as int, i as int));
                assert(next.last() == self@[i as int]);
                assert(out@ =~= render_lines(next));
            }
            i = i + 1;
        }
        proof {
            assert(window(self@, max_messages as nat) =~= self@.subrange(start as int, len as int));
        }
        trim_end(out.as_str())
    }
}

} // verus!
