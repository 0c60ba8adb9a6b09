use vstd::prelude::*;

use crate::client::components::children::command_pane::command_terminal::{
    terminal_key_step, CommandTerminal,
};
use crate::client::components::children::command_pane::log::{log_follows, Log};
use crate::client::event::AppEvent;
use crate::client::key_map::KeyInput;

verus! {

/// The command pane: the line that commands are typed into, and the log.
#[derive(Debug)]
pub struct CommandLine {
    pub command_terminal: CommandTerminal,
    pub log: Log,
    pub focus: bool,
}

/// Whether the parts of the command pane agree on its focus.
pub open spec fn focus_agrees(c: CommandLine) -> bool {
    c.command_terminal.focus == c.focus && c.log.focus == c.focus
}

impl CommandLine {
    /// A command pane without the focus, with an empty line and log.
    pub fn new() -> (c: Self)
        ensures
            !c.focus,
            focus_agrees(c),
            c.command_terminal.command@.len() == 0,
            !c.command_terminal.edit_ready,
            c.command_terminal.history@.len() == 0,
            c.command_terminal.history_index == 0,
            c.log.log@.len() == 0,
    {
        CommandLine { command_terminal: CommandTerminal::new(), log: Log::new(), focus: false }
    }

    /// Passes an event of the application to the log.
    pub fn handle_app_event(&mut self, event: &AppEvent)
        ensures
            final(self).focus == old(self).focus,
            final(self).command_terminal == old(self).command_terminal,
            final(self).log.focus == old(self).log.focus,
            log_follows(old(self).log.log@, final(self).log.log@, *event),
    {
        self.log.handle_app_event(event);
    }

    /// Passes a key to the command line and gives what it sends.
    pub fn handle_key_event(&mut self, key: KeyInput) -> (sent: Vec<AppEvent>)
        ensures
            command_line_key_step(*old(self), *final(self), key, sent@),
    {
        self.command_terminal.handle_key_event(key)
    }

    /// Gives or takes the focus of the pane and of its parts: gaining it
    /// opens an empty command line, losing it closes the line.
    pub fn set_focus(&mut self, focus: bool)
        ensures
            command_line_refocused(*old(self), *final(self), focus),
    {
        self.focus = focus;
        self.command_terminal.set_focus(focus);
        self.log.set_focus(focus);
    }
}

/// Whether the command pane `after` is the command pane `before` after it
/// gains or loses the focus: its parts agree on the new focus, the log stays
/// as it is, and the command line opens empty for editing when the pane gains
/// the focus and closes, keeping its command, when it loses it.
pub open spec fn command_line_refocused(before: CommandLine, after: CommandLine, focus: bool) -> bool {
    &&& after.focus == focus
    &&& focus_agrees(after)
    &&& after.log.log@ == before.log.log@
    &&& after.command_terminal.edit_ready == focus
    &&& after.command_terminal.history == before.command_terminal.history
    &&& after.command_terminal.history_index == before.command_terminal.history_index
    &&& focus ==> after.command_terminal.command@.len() == 0
    &&& !focus ==> after.command_terminal.command == before.command_terminal.command
}

/// Whether the pane `after`, having sent `sent`, is the pane `before` after
/// the key `key`: the key goes to the command line, and the log and the focus
/// stay as they are.
pub open spec fn command_line_key_step(
    before: CommandLine,
    after: CommandLine,
    key: KeyInput,
    sent: Seq<AppEvent>,
) -> bool {
    &&& after.focus == before.focus
    &&& after.log == before.log
    &&& terminal_key_step(before.command_terminal, after.command_terminal, key, sent)
}

} // verus!
