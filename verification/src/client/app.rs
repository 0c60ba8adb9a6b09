use vstd::prelude::*;

use crate::client::command_map::{command_of, parse_command, Command, CommandModel};
use crate::client::components::pane::PaneChild;
use crate::client::event::{AppEvent, Dispatch, RepositoryEvent};
use crate::client::key_map::KeyInput;
use crate::client::repository::{Repository, TaskTree};
use crate::client::ui::{
    is_fresh_command_line, pane_of, pane_title, ui_follows, ui_key_step, ui_wf, PaneId, UI,
};
use crate::models::task_filter_is_empty;

verus! {

/// An error that the application shows in its log.
#[derive(Debug)]
pub enum ErrorType {
    InvalidCommand(String),
    HandlerError(String),
    RepositoryError(String),
}

/// The log text of an error: what failed, a colon and the detail.
pub open spec fn error_log_text(e: ErrorType) -> Seq<char> {
    match e {
        ErrorType::InvalidCommand(c) => "Invalid command: "@ + c@,
        ErrorType::HandlerError(m) => "Handler error: "@ + m@,
        ErrorType::RepositoryError(m) => "Repository error: "@ + m@,
    }
}

/// Whether `d` is the log entry of an error whose text is `text`.
pub open spec fn is_error_log(d: Dispatch, text: Seq<char>) -> bool {
    d matches Dispatch::App(AppEvent::ErrorLog(m)) && m@ == text
}

/// The state of the terminal application: whether it runs, its screen and
/// its data.
#[derive(Debug)]
pub struct App {
    pub running: bool,
    pub ui: UI,
    pub repository: Repository,
}

/// What a command asks of the application, given whether it ran before
/// (`before`) and after (`after`) the command: nothing for the empty command,
/// stopping for `q`, fetching for a project change, and a log entry for an
/// invalid command; only `q` changes whether it runs.
pub open spec fn command_dispatches_ok(
    c: CommandModel,
    before: bool,
    after: bool,
    d: Seq<Dispatch>,
) -> bool {
    match c {
        CommandModel::EmptyCommand => d.len() == 0 && after == before,
        CommandModel::Quit => d.len() == 0 && !after,
        CommandModel::InvalidCommand(s) => d.len() == 1 && is_error_log(
            d[0],
            "Invalid command: "@ + s,
        ) && after == before,
        CommandModel::SetProject(name) => {
            &&& d.len() == 1
            &&& d[0] matches Dispatch::Repository(RepositoryEvent::RequestProject(n)) && n@ == name
            &&& after == before
        },
    }
}

/// The events of the application that the dispatches `d` carry.
pub open spec fn app_events(d: Seq<Dispatch>) -> Seq<AppEvent> {
    Seq::new(d.len(), |i: int| d[i]->App_0)
}

impl App {
    /// A running application whose screen starts with the task group pane in
    /// focus, an empty command pane and the project name pane, and whose
    /// project is not set.
    pub fn new() -> (a: Self)
        ensures
            a.running,
            ui_wf(a.ui),
            a.ui.focus == PaneId::TaskGroupPane,
            a.ui.previous_focus == PaneId::TaskGroupPane,
            forall|id: PaneId| #[trigger] pane_of(a.ui, id).focus == (id == PaneId::TaskGroupPane),
            forall|id: PaneId| #[trigger] pane_of(a.ui, id).title@ == pane_title(id),
            forall|id: PaneId|
                id != PaneId::CommandPane && id != PaneId::ProjectPane ==> #[trigger] pane_of(
                    a.ui,
                    id,
                ).child is None,
            a.ui.command_pane.child matches Some(PaneChild::CommandLine(c))
                && is_fresh_command_line(c),
            a.ui.project_pane.child matches Some(PaneChild::ProjectName(n)) && n.project_name@
                == "Not Set"@,
            a.repository.project.id is None,
            a.repository.project.name@ == "Not Set"@,
            task_filter_is_empty(a.repository.task_filter),
            a.repository.task_tree@ == Map::<i64, TaskTree>::empty(),
    {
        let mut ui = UI::new();
        assert(!pane_of(ui, PaneId::CommandPane).focus);
        ui.init_pane();
        App { running: true, ui, repository: Repository::new() }
    }

    /// Follows an event of the application: `Quit` stops it, a command is
    /// run, and then the screen follows the event.
    pub fn handle_app_events(&mut self, app_event: AppEvent) -> (d: Vec<Dispatch>)
        requires
            ui_wf(old(self).ui),
        ensures
            ui_wf(final(self).ui),
            ui_follows(old(self).ui, final(self).ui, app_event),
            final(self).repository == old(self).repository,
            match app_event {
                AppEvent::Quit => !final(self).running && d@.len() == 0,
                AppEvent::ExecCommand(c) => command_dispatches_ok(
                    command_of(c@),
                    old(self).running,
                    final(self).running,
                    d@,
                ),
                _ => final(self).running == old(self).running && d@.len() == 0,
            },
    {
        let mut d: Vec<Dispatch> = Vec::new();
        match &app_event {
            AppEvent::Quit => self.running = false,
            AppEvent::ExecCommand(command) => {
                d = self.handle_command(command.as_str());
            },
            _ => {},
        }
        self.ui.handle_app_event(&app_event);
        d
    }

    /// Reads a key: the screen handles it, and what it sends becomes events
    /// of the application.
    pub fn handle_key_events(&mut self, key: KeyInput) -> (d: Vec<Dispatch>)
        requires
            ui_wf(old(self).ui),
        ensures
            ui_wf(final(self).ui),
            final(self).running == old(self).running,
            final(self).repository == old(self).repository,
            forall|i: int| 0 <= i < d@.len() ==> #[trigger] d@[i] is App,
            ui_key_step(old(self).ui, final(self).ui, key, app_events(d@)),
    {
        let mut sent = self.ui.handle_key_event(key);
        let ghost all = sent@;
        let mut d: Vec<Dispatch> = Vec::new();
        let n = sent.len();
        let mut i: usize = 0;
        while i < n
            invariant
                i <= n,
                n == all.len(),
                sent@ == all.skip(i as int),
                d@.len() == i,
                forall|k: int| 0 <= k < i ==> #[trigger] d@[k] == Dispatch::App(all[k]),
            decreases n - i,
        {
            let e = sent.remove(0);
            d.push(Dispatch::App(e));
            i = i + 1;
            assert(sent@ =~= all.skip(i as int));
        }
        assert(app_events(d@) =~= all);
        d
    }

    /// Runs a command line.
    pub fn handle_command(&mut self, command: &str) -> (d: Vec<Dispatch>)
        ensures
            command_dispatches_ok(command_of(command@), old(self).running, final(self).running, d@),
            final(self).ui == old(self).ui,
            final(self).repository == old(self).repository,
    {
        let command_event = parse_command(command);
        self.handle_command_events(command_event)
    }

    /// Does what a command asks.
    pub fn handle_command_events(&mut self, command: Command) -> (d: Vec<Dispatch>)
        ensures
            command_dispatches_ok(command@, old(self).running, final(self).running, d@),
            final(self).ui == old(self).ui,
            final(self).repository == old(self).repository,
    {
        let mut d: Vec<Dispatch> = Vec::new();
        match command {
            Command::EmptyCommand => {},
            Command::Quit => self.quit(),
            Command::InvalidCommand(command) => {
                d.push(self.handle_error(ErrorType::InvalidCommand(command)));
            },
            Command::SetProject(project_name) => {
                d.push(Dispatch::Repository(RepositoryEvent::RequestProject(project_name)));
            },
        }
        d
    }

    /// Follows an event of the store: an error is logged, and then the store
    /// handles the event.
    pub fn handle_repository_events(&mut self, repository_event: RepositoryEvent) -> (d: Vec<
        Dispatch,
    >)
        ensures
            final(self).running == old(self).running,
            final(self).ui == old(self).ui,
            match repository_event {
                RepositoryEvent::Error(m) => d@.len() == 1 && is_error_log(
                    d@[0],
                    "Repository error: "@ + m@,
                ) && final(self).repository == old(self).repository,
                RepositoryEvent::RequestProject(name) => d@ == seq![Dispatch::FetchProject(name)]
                    && final(self).repository == old(self).repository,
                RepositoryEvent::ResponseProject(p) => final(self).repository.project == p
                    && d@ == seq![Dispatch::App(AppEvent::SetProject(p))],
            },
    {
        let mut d: Vec<Dispatch> = Vec::new();
        match &repository_event {
            RepositoryEvent::Error(error) => {
                d.push(self.handle_error(ErrorType::RepositoryError(error.clone())));
            },
            _ => {},
        }
        let mut more = self.repository.handle_repository_events(repository_event);
        let ghost before = d@;
        let ghost extra = more@;
        d.append(&mut more);
        assert(d@ =~= before + extra);
        d
    }

    /// The log entry of an error.
    pub fn handle_error(&self, error: ErrorType) -> (d: Dispatch)
        ensures
            is_error_log(d, error_log_text(error)),
    {
        let (head, detail) = match &error {
            ErrorType::InvalidCommand(command) => ("Invalid command: ", command.as_str()),
            ErrorType::HandlerError(e) => ("Handler error: ", e.as_str()),
            ErrorType::RepositoryError(e) => ("Repository error: ", e.as_str()),
        };
        let mut message = String::from_str(head);
        message.append(detail);
        Dispatch::App(AppEvent::ErrorLog(message))
    }

    /// A tick of the clock; the application does nothing on it.
    pub fn tick(&self) {
    }

    /// Stops the application.
    pub fn quit(&mut self)
        ensures
            !final(self).running,
            final(self).ui == old(self).ui,
            final(self).repository == old(self).repository,
    {
        self.running = false;
    }
}

} // verus!
