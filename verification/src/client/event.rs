use vstd::prelude::*;

use crate::client::ui::PaneId;
use crate::models::Project;

verus! {

/// An event of the application, sent from one part of it to the others.
#[derive(Debug)]
pub enum AppEvent {
    Quit,
    Error(String),
    CommandLog(String),
    ErrorLog(String),
    FocusPane(PaneId),
    FocusBack,
    ExecCommand(String),
    SetProject(Project),
}

/// An event for or from the store of the application's data.
#[derive(Debug)]
pub enum RepositoryEvent {
    RequestProject(String),
    ResponseProject(Project),
    Error(String),
}

/// What a step of the application asks to be done: an event to send, or a
/// project to fetch from the service.
#[derive(Debug)]
pub enum Dispatch {
    App(AppEvent),
    Repository(RepositoryEvent),
    FetchProject(String),
}

} // verus!
