//! Commands as the user types them.

use crate::text::{same_text, spaced, split_words, trim, trimmed, words};
use vstd::prelude::*;
use vstd::string::*;

verus! {

/// A command typed on the command line, with the name of the character it
/// is about.
#[derive(Debug, PartialEq, Eq)]
pub enum Command {
    Invite(String),
    Kick(String),
    Leave(String),
    Tell(String, String),
}

/// A [`Command`] with its texts as sequences of characters.
pub enum CommandView {
    Invite(Seq<char>),
    Kick(Seq<char>),
    Leave(Seq<char>),
    Tell(Seq<char>, Seq<char>),
}

impl DeepView for Command {
    type V = CommandView;

    open spec fn deep_view(&self) -> CommandView {
        match self {
            Command::Invite(user) => CommandView::Invite(user@),
            Command::Kick(user) => CommandView::Kick(user@),
            Command::Leave(user) => CommandView::Leave(user@),
            Command::Tell(user, text) => CommandView::Tell(user@, text@),
        }
    }
}

impl View for Command {
    type V = CommandView;

    open spec fn view(&self) -> CommandView {
        self.deep_view()
    }
}

/// `input` without the one slash that may lead it.
pub open spec fn unslashed(input: Seq<char>) -> Seq<char> {
    if input.len() > 0 && input[0] == '/' {
        input.skip(1)
    } else {
        input
    }
}

/// The command that a line of input stands for. Its first word names the
/// command and its second the character; for a tell, the words after that
/// are the message, one space between them. A line of fewer than two words,
/// or with any other first word, stands for no command.
pub open spec fn parse(input: Seq<char>) -> Option<CommandView> {
    let w = words(unslashed(input));
    if w.len() < 2 {
        None
    } else if w[0] == "invite"@ {
        Some(CommandView::Invite(w[1]))
    } else if w[0] == "kick"@ {
        Some(CommandView::Kick(w[1]))
    } else if w[0] == "leave"@ {
        Some(CommandView::Leave(w[1]))
    } else if w[0] == "tell"@ {
        Some(CommandView::Tell(w[1], trimmed(spaced(w.skip(2)))))
    } else {
        None
    }
}

/// The words of `parts` from the third on, each followed by a space.
fn join_rest(parts: &Vec<&str>) -> (out: String)
    requires
        parts@.len() >= 2,
    ensures
        out@ == spaced(parts.deep_view().skip(2)),
{
    let ghost tail = parts.deep_view().skip(2);
    let mut out = String::new();
    let mut i: usize = 2;
    while i < parts.len()
        invariant
            2 <= i <= parts@.len(),
            tail == parts.deep_view().skip(2),
            out@ == spaced(tail.take(i - 2)),
        decreases parts@.len() - i,
    {
        proof {
            reveal_strlit(" ");
            assert(tail.take(i - 1).drop_last() =~= tail.take(i - 2));
        }
        out.append(parts[i]);
        out.append(" ");
        i = i + 1;
    }
    assert(tail.take(i - 2) =~= tail);
    out
}

impl Command {
    /// Reads a command off a line of input.
    pub fn from_input(input: &str) -> (command: Option<Command>)
        ensures
            command.deep_view() == parse(input@),
    {
        let n = input.unicode_len();
        let body = if n > 0 && input.get_char(0) == '/' {
            input.substring_char(1, n)
        } else {
            input
        };
        let parts = split_words(body);
        if parts.len() < 2 {
            return None;
        }
        let name = parts[0];
        let user = parts[1];
        if same_text(name, "invite") {
            Some(Command::Invite(String::from_str(user)))
        } else if same_text(name, "kick") {
            Some(Command::Kick(String::from_str(user)))
        } else if same_text(name, "leave") {
            Some(Command::Leave(String::from_str(user)))
        } else if same_text(name, "tell") {
            let joined = join_rest(&parts);
            let rest = String::from_str(trim(joined.as_str()));
            Some(Command::Tell(String::from_str(user), rest))
        } else {
            None
        }
    }
}

} // verus!
