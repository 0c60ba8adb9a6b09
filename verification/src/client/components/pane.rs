use vstd::prelude::*;

use crate::client::components::children::command_pane::command_line::{
    command_line_key_step, command_line_refocused, focus_agrees, CommandLine,
};
use crate::client::components::children::command_pane::log::log_follows;
use crate::client::components::children::header_panes::project_name::ProjectName;
use crate::client::event::AppEvent;
use crate::client::key_map::KeyInput;
use crate::client::ui::PaneId;

verus! {

/// What a pane shows inside its border.
#[derive(Debug)]
pub enum PaneChild {
    CommandLine(CommandLine),
    ProjectName(ProjectName),
}

/// A bordered pane of the screen, with its title and what it shows.
#[derive(Debug)]
pub struct Pane {
    pub title: String,
    pub child: Option<PaneChild>,
    pub focus: bool,
    pub pane_id: PaneId,
}

/// Whether what the pane shows agrees with the pane on its focus.
pub open spec fn child_agrees(p: Pane) -> bool {
    match p.child {
        Some(PaneChild::CommandLine(c)) => c.focus == p.focus && focus_agrees(c),
        _ => true,
    }
}

/// The focus of a pane after an event: a pane keeps its focus unless the
/// event gives the focus to some pane, and then it has it exactly when it is
/// that pane.
pub open spec fn focus_after(p: Pane, event: AppEvent) -> bool {
    match event {
        AppEvent::FocusPane(id) => id == p.pane_id,
        _ => p.focus,
    }
}

/// Whether the command pane `after` is the command pane `before` after an
/// event, where `focus` is the focus that its pane has after the event. When
/// the event moves the focus, the command pane takes its new focus; every
/// other event goes to the log and leaves the command line as it is.
pub open spec fn command_line_follows(
    before: CommandLine,
    after: CommandLine,
    event: AppEvent,
    focus: bool,
) -> bool {
    &&& after.focus == focus
    &&& focus_agrees(after)
    &&& if event is FocusPane {
        command_line_refocused(before, after, focus)
    } else {
        &&& after.command_terminal == before.command_terminal
        &&& log_follows(before.log.log@, after.log.log@, event)
    }
}

/// Whether `child` is what the pane `p` shows after an event: the project
/// name shows the name of a new project, the command pane follows the event,
/// and a pane that shows nothing goes on showing nothing.
pub open spec fn child_follows(p: Pane, event: AppEvent, child: Option<PaneChild>) -> bool {
    match p.child {
        None => child is None,
        Some(PaneChild::ProjectName(n)) => match child {
            Some(PaneChild::ProjectName(m)) => match event {
                AppEvent::SetProject(project) => m.project_name@ == project.name@,
                _ => m == n,
            },
            _ => false,
        },
        Some(PaneChild::CommandLine(c)) => match child {
            Some(PaneChild::CommandLine(d)) => command_line_follows(
                c,
                d,
                event,
                focus_after(p, event),
            ),
            _ => false,
        },
    }
}

/// Whether the pane `after`, having sent `sent`, is the pane `before` after
/// the key `key`: a command pane passes the key to its command line, and any
/// other pane ignores it.
pub open spec fn pane_key_step(before: Pane, after: Pane, key: KeyInput, sent: Seq<AppEvent>) -> bool {
    &&& after.title == before.title
    &&& after.focus == before.focus
    &&& after.pane_id == before.pane_id
    &&& match before.child {
        Some(PaneChild::CommandLine(c)) => match after.child {
            Some(PaneChild::CommandLine(d)) => command_line_key_step(c, d, key, sent),
            _ => false,
        },
        _ => after.child == before.child && sent.len() == 0,
    }
}

impl Pane {
    /// An empty pane.
    pub fn new(title: String, initial_focus: bool, pane_id: PaneId) -> (p: Self)
        ensures
            p.title == title,
            p.child is None,
            p.focus == initial_focus,
            p.pane_id == pane_id,
    {
        Pane { title, child: None, focus: initial_focus, pane_id }
    }

    /// Sets what the pane shows.
    pub fn set_child(&mut self, child: PaneChild)
        ensures
            final(self).child == Some(child),
            final(self).title == old(self).title,
            final(self).focus == old(self).focus,
            final(self).pane_id == old(self).pane_id,
    {
        self.child = Some(child);
    }

    /// Gives or takes the focus of the pane and of what it shows.
    pub fn set_focus(&mut self, focus: bool)
        ensures
            final(self).focus == focus,
            final(self).title == old(self).title,
            final(self).pane_id == old(self).pane_id,
            child_agrees(*final(self)),
            match old(self).child {
                Some(PaneChild::CommandLine(c)) => match final(self).child {
                    Some(PaneChild::CommandLine(d)) => command_line_refocused(c, d, focus),
                    _ => false,
                },
                _ => final(self).child == old(self).child,
            },
    {
        self.focus = focus;
        match &mut self.child {
            Some(PaneChild::CommandLine(c)) => c.set_focus(focus),
            _ => {},
        }
    }

    /// Follows an event of the application: the pane takes or loses the
    /// focus, and then what it shows follows the event.
    pub fn handle_app_event(&mut self, event: &AppEvent)
        requires
            child_agrees(*old(self)),
        ensures
            final(self).focus == focus_after(*old(self), *event),
            final(self).title == old(self).title,
            final(self).pane_id == old(self).pane_id,
            child_agrees(*final(self)),
            child_follows(*old(self), *event, final(self).child),
    {
        match event {
            AppEvent::FocusPane(pane_id) => {
                let mine = *pane_id == self.pane_id;
                self.set_focus(mine);
            },
            _ => {},
        }
        match &mut self.child {
            Some(PaneChild::CommandLine(c)) => c.handle_app_event(event),
            Some(PaneChild::ProjectName(n)) => n.handle_app_event(event),
            None => {},
        }
    }

    /// Passes a key to what the pane shows, and gives what it sends.
    pub fn handle_key_event(&mut self, key: KeyInput) -> (sent: Vec<AppEvent>)
        requires
            child_agrees(*old(self)),
        ensures
            child_agrees(*final(self)),
            pane_key_step(*old(self), *final(self), key, sent@),
    {
        match &mut self.child {
            Some(PaneChild::CommandLine(c)) => c.handle_key_event(key),
            _ => Vec::new(),
        }
    }
}

} // verus!
