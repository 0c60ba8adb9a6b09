use vstd::prelude::*;

use crate::client::event::AppEvent;
use crate::client::key_map::KeyInput;
use crate::text::{pop_char, push_char};

verus! {

/// The line that commands are typed into.
#[derive(Debug)]
pub struct CommandTerminal {
    pub command: String,
    pub focus: bool,
    pub edit_ready: bool,
    pub history: Vec<String>,
    pub history_index: usize,
}

/// What typing `key` makes of the command `command`: a character is
/// appended and `Backspace` removes the last one, while the line is open for
/// editing.
pub open spec fn edited_command(command: Seq<char>, edit_ready: bool, key: KeyInput) -> Seq<char> {
    match key {
        KeyInput::Char(c) => if edit_ready {
            command.push(c)
        } else {
            command
        },
        KeyInput::Backspace => if edit_ready && command.len() > 0 {
            command.drop_last()
        } else {
            command
        },
        _ => command,
    }
}

/// Whether the line `after`, having sent `sent`, is the line `before` after
/// the key `key`. `Enter` runs the command: it sends the command to be run,
/// logs it, hands the focus back, keeps it in the history and clears the
/// line. Other keys edit the command and send nothing.
pub open spec fn terminal_key_step(
    before: CommandTerminal,
    after: CommandTerminal,
    key: KeyInput,
    sent: Seq<AppEvent>,
) -> bool {
    &&& after.focus == before.focus
    &&& after.edit_ready == before.edit_ready
    &&& after.history_index == before.history_index
    &&& if key == KeyInput::Enter {
        &&& sent.len() == 3
        &&& sent[0] == AppEvent::ExecCommand(before.command)
        &&& sent[1] == AppEvent::CommandLog(before.command)
        &&& sent[2] == AppEvent::FocusBack
        &&& after.history@ == before.history@.push(before.command)
        &&& after.command@.len() == 0
    } else {
        &&& sent.len() == 0
        &&& after.history@ == before.history@
        &&& after.command@ == edited_command(before.command@, before.edit_ready, key)
    }
}

impl CommandTerminal {
    /// An empty command line, closed for editing.
    pub fn new() -> (t: Self)
        ensures
            t.command@.len() == 0,
            !t.focus,
            !t.edit_ready,
            t.history@.len() == 0,
            t.history_index == 0,
    {
        CommandTerminal {
            command: String::new(),
            focus: false,
            edit_ready: false,
            history: Vec::new(),
            history_index: 0,
        }
    }

    /// Reads a key: `Enter` runs the command, other keys edit it.
    pub fn handle_key_event(&mut self, key: KeyInput) -> (sent: Vec<AppEvent>)
        ensures
            terminal_key_step(*old(self), *final(self), key, sent@),
    {
        let mut sent: Vec<AppEvent> = Vec::new();
        match key {
            KeyInput::Char(c) => {
                if self.edit_ready {
                    push_char(&mut self.command, c);
                }
            },
            KeyInput::Backspace => {
                if self.edit_ready {
                    let _ = pop_char(&mut self.command);
                }
            },
            KeyInput::Enter => {
                sent.push(AppEvent::ExecCommand(self.command.clone()));
                sent.push(AppEvent::CommandLog(self.command.clone()));
                self.history.push(self.command.clone());
                self.command = String::new();
                sent.push(AppEvent::FocusBack);
            },
            _ => {},
        }
        sent
    }

    /// Follows the focus of its pane: gaining it opens an empty line for
    /// editing, losing it closes the line.
    pub fn set_focus(&mut self, focus: bool)
        ensures
            final(self).focus == focus,
            final(self).edit_ready == focus,
            focus ==> final(self).command@.len() == 0,
            !focus ==> final(self).command == old(self).command,
            final(self).history == old(self).history,
            final(self).history_index == old(self).history_index,
    {
        self.focus = focus;
        if focus {
            self.command = String::new();
            self.edit_ready = true;
        } else {
            self.edit_ready = false;
        }
    }

    /// The text that the line shows: a colon, and the command while the line
    /// has the focus.
    pub fn display_text(&self) -> (r: String)
        ensures
            self.focus ==> r@ == ":"@ + self.command@,
            !self.focus ==> r@ == ":"@,
    {
        let mut r = String::from_str(":");
        if self.focus {
            r.append(self.command.as_str());
        }
        r
    }
}

/// The command that typing `keys` into the line makes of `command`.
pub open spec fn typed(command: Seq<char>, edit_ready: bool, keys: Seq<KeyInput>) -> Seq<char>
    decreases keys.len(),
{
    if keys.len() == 0 {
        command
    } else {
        edited_command(typed(command, edit_ready, keys.drop_last()), edit_ready, keys.last())
    }
}

/// On an open line, `Backspace` takes back the character just typed.
pub proof fn lemma_backspace_undoes_char(command: Seq<char>, c: char)
    ensures
        edited_command(edited_command(command, true, KeyInput::Char(c)), true, KeyInput::Backspace)
            == command,
{
    assert(command.push(c).drop_last() =~= command);
}

/// Whether `keys` are the keys of the characters of `text`, in order.
pub open spec fn types_text(keys: Seq<KeyInput>, text: Seq<char>) -> bool {
    keys.len() == text.len() && forall|i: int| 0 <= i < keys.len() ==> keys[i] == KeyInput::Char(
        text[i],
    )
}

/// Typing the characters of a text into an empty open line gives that text.
pub proof fn lemma_typing_gives_text(keys: Seq<KeyInput>, text: Seq<char>)
    requires
        types_text(keys, text),
    ensures
        typed(Seq::empty(), true, keys) == text,
    decreases text.len(),
{
    if text.len() > 0 {
        assert(types_text(keys.drop_last(), text.drop_last()));
        lemma_typing_gives_text(keys.drop_last(), text.drop_last());
        assert(keys.last() == KeyInput::Char(text.last()));
        assert(text.drop_last().push(text.last()) =~= text);
    } else {
        assert(text =~= Seq::<char>::empty());
    }
}

/// On a closed line, characters and `Backspace` change nothing.
pub proof fn lemma_closed_line_is_unchanged(command: Seq<char>, keys: Seq<KeyInput>)
    ensures
        typed(command, false, keys) == command,
    decreases keys.len(),
{
    if keys.len() > 0 {
        lemma_closed_line_is_unchanged(command, keys.drop_last());
    }
}

} // verus!
