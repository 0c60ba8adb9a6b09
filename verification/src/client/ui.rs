use vstd::prelude::*;

use crate::client::components::children::command_pane::command_line::{focus_agrees, CommandLine};
use crate::client::components::children::header_panes::project_name::ProjectName;
use crate::client::components::pane::{
    child_agrees, child_follows, focus_after, pane_key_step, Pane, PaneChild,
};
use crate::client::event::AppEvent;
use crate::client::key_map::{key_request, KeyInput, UiKeyMap};

verus! {

/// The panes of the screen.
#[derive(Clone, Copy, PartialEq, Eq, Hash, Debug, Structural)]
pub enum PaneId {
    ProjectPane,
    ProjectStatisticsPane,
    StatusPane,
    TaskGroupPane,
    TaskPane,
    CommandPane,
}

/// The screen: its six panes, the pane that has the focus, and the pane that
/// had it before.
#[derive(Debug)]
pub struct UI {
    pub project_pane: Pane,
    pub project_statistics_pane: Pane,
    pub status_pane: Pane,
    pub task_group_pane: Pane,
    pub task_pane: Pane,
    pub command_pane: Pane,
    pub focus: PaneId,
    pub previous_focus: PaneId,
}

/// The title of each pane.
pub open spec fn pane_title(id: PaneId) -> Seq<char> {
    match id {
        PaneId::ProjectPane => "Project"@,
        PaneId::ProjectStatisticsPane => "Project Statistics"@,
        PaneId::StatusPane => "Status"@,
        PaneId::TaskGroupPane => "Task Group"@,
        PaneId::TaskPane => "Task"@,
        PaneId::CommandPane => "Command"@,
    }
}

/// Whether `c` is a command pane as it starts: without the focus, with an
/// empty line closed for editing, no history and an empty log.
pub open spec fn is_fresh_command_line(c: CommandLine) -> bool {
    &&& !c.focus
    &&& focus_agrees(c)
    &&& c.command_terminal.command@.len() == 0
    &&& !c.command_terminal.edit_ready
    &&& c.command_terminal.history@.len() == 0
    &&& c.command_terminal.history_index == 0
    &&& c.log.log@.len() == 0
}

/// Whether each pane of the screen carries its own id and agrees with what it
/// shows on its focus.
pub open spec fn ui_wf(ui: UI) -> bool {
    &&& ui.project_pane.pane_id == PaneId::ProjectPane
    &&& ui.project_statistics_pane.pane_id == PaneId::ProjectStatisticsPane
    &&& ui.status_pane.pane_id == PaneId::StatusPane
    &&& ui.task_group_pane.pane_id == PaneId::TaskGroupPane
    &&& ui.task_pane.pane_id == PaneId::TaskPane
    &&& ui.command_pane.pane_id == PaneId::CommandPane
    &&& child_agrees(ui.project_pane)
    &&& child_agrees(ui.project_statistics_pane)
    &&& child_agrees(ui.status_pane)
    &&& child_agrees(ui.task_group_pane)
    &&& child_agrees(ui.task_pane)
    &&& child_agrees(ui.command_pane)
}

/// The pane of the screen that carries `id`.
pub open spec fn pane_of(ui: UI, id: PaneId) -> Pane {
    match id {
        PaneId::ProjectPane => ui.project_pane,
        PaneId::ProjectStatisticsPane => ui.project_statistics_pane,
        PaneId::StatusPane => ui.status_pane,
        PaneId::TaskGroupPane => ui.task_group_pane,
        PaneId::TaskPane => ui.task_pane,
        PaneId::CommandPane => ui.command_pane,
    }
}

/// The focus and the previous focus after an event: giving the focus to a
/// pane remembers the pane that had it, and `FocusBack` returns to that pane.
pub open spec fn focus_pair_after(focus: PaneId, previous: PaneId, event: AppEvent) -> (
    PaneId,
    PaneId,
) {
    match event {
        AppEvent::FocusPane(id) => (id, focus),
        AppEvent::FocusBack => (previous, previous),
        _ => (focus, previous),
    }
}

/// The event that a key sends, given the pane that has the focus: from the
/// task group pane `:` opens the command pane and `l` moves to the task pane;
/// from the task pane `:` opens the command pane and `h` moves to the task
/// group pane; from the command pane `Esc` goes back.
pub open spec fn ui_key_event(focus: PaneId, key: KeyInput) -> Option<AppEvent> {
    match (focus, key_request(key)) {
        (PaneId::TaskGroupPane, UiKeyMap::FocusToCommandPane) => Some(
            AppEvent::FocusPane(PaneId::CommandPane),
        ),
        (PaneId::TaskGroupPane, UiKeyMap::ChangeFocusToRight) => Some(
            AppEvent::FocusPane(PaneId::TaskPane),
        ),
        (PaneId::TaskPane, UiKeyMap::FocusToCommandPane) => Some(
            AppEvent::FocusPane(PaneId::CommandPane),
        ),
        (PaneId::TaskPane, UiKeyMap::ChangeFocusToLeft) => Some(
            AppEvent::FocusPane(PaneId::TaskGroupPane),
        ),
        (PaneId::CommandPane, UiKeyMap::FocusBackFromCommandPane) => Some(AppEvent::FocusBack),
        _ => None,
    }
}

/// Whether the screen `after` is the screen `before` after an event of the
/// application: the focus moves as the event asks, each pane takes or loses
/// the focus, and what each pane shows follows the event.
pub open spec fn ui_follows(before: UI, after: UI, event: AppEvent) -> bool {
    &&& (after.focus, after.previous_focus) == focus_pair_after(
        before.focus,
        before.previous_focus,
        event,
    )
    &&& forall|id: PaneId| #[trigger]
        pane_of(after, id).focus == focus_after(pane_of(before, id), event)
    &&& forall|id: PaneId| #[trigger]
        child_follows(pane_of(before, id), event, pane_of(after, id).child)
    &&& forall|id: PaneId| #[trigger] pane_of(after, id).title == pane_of(before, id).title
}

/// The events that a key sends to the screen itself, given the pane that has
/// the focus.
pub open spec fn ui_key_events(focus: PaneId, key: KeyInput) -> Seq<AppEvent> {
    match ui_key_event(focus, key) {
        Some(e) => seq![e],
        None => Seq::empty(),
    }
}

/// Whether the screen `after`, having sent `sent`, is the screen `before`
/// after the key `key`: first come the events that the key sends to the
/// screen, then what the pane with the focus sends; that pane takes the key,
/// and the focus and every other pane stay as they are.
pub open spec fn ui_key_step(before: UI, after: UI, key: KeyInput, sent: Seq<AppEvent>) -> bool {
    let own = ui_key_events(before.focus, key);
    &&& after.focus == before.focus
    &&& after.previous_focus == before.previous_focus
    &&& own.len() <= sent.len()
    &&& sent.take(own.len() as int) == own
    &&& pane_key_step(
        pane_of(before, before.focus),
        pane_of(after, before.focus),
        key,
        sent.skip(own.len() as int),
    )
    &&& forall|id: PaneId| id != before.focus ==> #[trigger] pane_of(after, id) == pane_of(before, id)
}

impl UI {
    /// The screen as it starts: the task group pane has the focus, and no
    /// pane shows anything yet.
    pub fn new() -> (ui: Self)
        ensures
            ui_wf(ui),
            ui.focus == PaneId::TaskGroupPane,
            ui.previous_focus == PaneId::TaskGroupPane,
            forall|id: PaneId| #[trigger] pane_of(ui, id).focus == (id == PaneId::TaskGroupPane),
            forall|id: PaneId| #[trigger] pane_of(ui, id).child is None,
            forall|id: PaneId| #[trigger] pane_of(ui, id).title@ == pane_title(id),
    {
        UI {
            project_pane: Pane::new(String::from_str("Project"), false, PaneId::ProjectPane),
            project_statistics_pane: Pane::new(
                String::from_str("Project Statistics"),
                false,
                PaneId::ProjectStatisticsPane,
            ),
            status_pane: Pane::new(String::from_str("Status"), false, PaneId::StatusPane),
            task_group_pane: Pane::new(String::from_str("Task Group"), true, PaneId::TaskGroupPane),
            task_pane: Pane::new(String::from_str("Task"), false, PaneId::TaskPane),
            command_pane: Pane::new(String::from_str("Command"), false, PaneId::CommandPane),
            focus: PaneId::TaskGroupPane,
            previous_focus: PaneId::TaskGroupPane,
        }
    }

    /// Puts the command line in the command pane and the project name in the
    /// project pane.
    pub fn init_pane(&mut self)
        requires
            ui_wf(*old(self)),
            !old(self).command_pane.focus,
        ensures
            ui_wf(*final(self)),
            final(self).focus == old(self).focus,
            final(self).previous_focus == old(self).previous_focus,
            forall|id: PaneId| #[trigger] pane_of(*final(self), id).focus == pane_of(
                *old(self),
                id,
            ).focus,
            forall|id: PaneId| #[trigger] pane_of(*final(self), id).title == pane_of(
                *old(self),
                id,
            ).title,
            forall|id: PaneId|
                id != PaneId::CommandPane && id != PaneId::ProjectPane ==> #[trigger] pane_of(
                    *final(self),
                    id,
                ) == pane_of(*old(self), id),
            final(self).command_pane.child matches Some(PaneChild::CommandLine(c))
                && is_fresh_command_line(c),
            final(self).project_pane.child matches Some(PaneChild::ProjectName(n))
                && n.project_name@ == "Not Set"@,
    {
        self.command_pane.set_child(PaneChild::CommandLine(CommandLine::new()));
        self.project_pane.set_child(
            PaneChild::ProjectName(ProjectName::new(String::from_str("Not Set"))),
        );
    }

    /// Moves the focus as the event asks.
    pub fn handle_ui_app_event(&mut self, event: &AppEvent)
        ensures
            (final(self).focus, final(self).previous_focus) == focus_pair_after(
                old(self).focus,
                old(self).previous_focus,
                *event,
            ),
            final(self).project_pane == old(self).project_pane,
            final(self).project_statistics_pane == old(self).project_statistics_pane,
            final(self).status_pane == old(self).status_pane,
            final(self).task_group_pane == old(self).task_group_pane,
            final(self).task_pane == old(self).task_pane,
            final(self).command_pane == old(self).command_pane,
    {
        match event {
            AppEvent::FocusPane(pane_id) => {
                self.previous_focus = self.focus;
                self.focus = *pane_id;
            },
            AppEvent::FocusBack => {
                self.focus = self.previous_focus;
            },
            _ => {},
        }
    }

    /// The event that a key sends, given the pane that has the focus.
    pub fn handle_ui_key_event(&self, key: KeyInput) -> (r: Option<AppEvent>)
        ensures
            r == ui_key_event(self.focus, key),
    {
        match (self.focus, UiKeyMap::key(key)) {
            (PaneId::TaskGroupPane, UiKeyMap::FocusToCommandPane) => Some(
                AppEvent::FocusPane(PaneId::CommandPane),
            ),
            (PaneId::TaskGroupPane, UiKeyMap::ChangeFocusToRight) => Some(
                AppEvent::FocusPane(PaneId::TaskPane),
            ),
            (PaneId::TaskPane, UiKeyMap::FocusToCommandPane) => Some(
                AppEvent::FocusPane(PaneId::CommandPane),
            ),
            (PaneId::TaskPane, UiKeyMap::ChangeFocusToLeft) => Some(
                AppEvent::FocusPane(PaneId::TaskGroupPane),
            ),
            (PaneId::CommandPane, UiKeyMap::FocusBackFromCommandPane) => Some(AppEvent::FocusBack),
            _ => None,
        }
    }

    /// Follows an event of the application: the screen moves its focus, and
    /// then every pane follows the event.
    pub fn handle_app_event(&mut self, event: &AppEvent)
        requires
            ui_wf(*old(self)),
        ensures
            ui_wf(*final(self)),
            ui_follows(*old(self), *final(self), *event),
    {
        self.handle_ui_app_event(event);
        self.project_pane.handle_app_event(event);
        self.project_statistics_pane.handle_app_event(event);
        self.status_pane.handle_app_event(event);
        self.task_group_pane.handle_app_event(event);
        self.task_pane.handle_app_event(event);
        self.command_pane.handle_app_event(event);
    }

    /// Reads a key: first the event that the key sends to the screen, if any,
    /// then what the pane with the focus sends.
    pub fn handle_key_event(&mut self, key: KeyInput) -> (sent: Vec<AppEvent>)
        requires
            ui_wf(*old(self)),
        ensures
            ui_wf(*final(self)),
            ui_key_step(*old(self), *final(self), key, sent@),
    {
        let mut sent: Vec<AppEvent> = Vec::new();
        match self.handle_ui_key_event(key) {
            Some(e) => sent.push(e),
            None => {},
        }
        let ghost before = sent@;
        let mut more = match self.focus {
            PaneId::ProjectPane => self.project_pane.handle_key_event(key),
            PaneId::ProjectStatisticsPane => self.project_statistics_pane.handle_key_event(key),
            PaneId::StatusPane => self.status_pane.handle_key_event(key),
            PaneId::TaskGroupPane => self.task_group_pane.handle_key_event(key),
            PaneId::TaskPane => self.task_pane.handle_key_event(key),
            PaneId::CommandPane => self.command_pane.handle_key_event(key),
        };
        let ghost extra = more@;
        sent.append(&mut more);
        assert(sent@ =~= before + extra);
        assert(sent@.take(before.len() as int) =~= before);
        assert(sent@.skip(before.len() as int) =~= extra);
        sent
    }
}

/// Giving the focus to a pane and then going back returns the focus to the
/// pane that had it.
pub proof fn lemma_focus_back_returns(focus: PaneId, previous: PaneId, id: PaneId)
    ensures
        ({
            let (f1, p1) = focus_pair_after(focus, previous, AppEvent::FocusPane(id));
            focus_pair_after(f1, p1, AppEvent::FocusBack).0 == focus
        }),
{
}

/// After the focus is given to a pane, that pane alone has it.
pub proof fn lemma_focus_is_exclusive(ui: UI, target: PaneId, id: PaneId)
    requires
        ui_wf(ui),
    ensures
        focus_after(pane_of(ui, id), AppEvent::FocusPane(target)) == (id == target),
{
}

/// The keys of the screen: from the task group pane `l` moves right to the
/// task pane; from the task pane `h` moves left to the task group pane; from
/// either `:` opens the command pane; from the command pane `Esc` goes back.
/// No other key, and no key on another pane, sends anything to the screen.
pub proof fn lemma_screen_keys(focus: PaneId, key: KeyInput)
    ensures
        focus == PaneId::TaskGroupPane && key == KeyInput::Char('l') ==> ui_key_event(focus, key)
            == Some(AppEvent::FocusPane(PaneId::TaskPane)),
        focus == PaneId::TaskPane && key == KeyInput::Char('h') ==> ui_key_event(focus, key)
            == Some(AppEvent::FocusPane(PaneId::TaskGroupPane)),
        (focus == PaneId::TaskGroupPane || focus == PaneId::TaskPane) && key == KeyInput::Char(
            ':',
        ) ==> ui_key_event(focus, key) == Some(AppEvent::FocusPane(PaneId::CommandPane)),
        focus == PaneId::CommandPane && key == KeyInput::Esc ==> ui_key_event(focus, key) == Some(
            AppEvent::FocusBack,
        ),
        ui_key_event(focus, key) is Some ==> {
            ||| focus == PaneId::TaskGroupPane && key == KeyInput::Char('l')
            ||| focus == PaneId::TaskPane && key == KeyInput::Char('h')
            ||| (focus == PaneId::TaskGroupPane || focus == PaneId::TaskPane) && key
                == KeyInput::Char(':')
            ||| focus == PaneId::CommandPane && key == KeyInput::Esc
        },
{
}

/// Giving the focus to a pane puts the focus there and remembers the pane
/// that had it; going back returns to the remembered pane; no other event
/// moves the focus.
pub proof fn lemma_focus_moves(focus: PaneId, previous: PaneId, event: AppEvent)
    ensures
        event matches AppEvent::FocusPane(id) ==> focus_pair_after(focus, previous, event) == (
            id,
            focus,
        ),
        event is FocusBack ==> focus_pair_after(focus, previous, event).0 == previous,
        !(event is FocusPane) && !(event is FocusBack) ==> focus_pair_after(
            focus,
            previous,
            event,
        ) == (focus, previous),
{
}

} // verus!
