use vstd::prelude::*;
use std::collections::HashMap;

use crate::client::event::{AppEvent, Dispatch, RepositoryEvent};
use crate::models::{task_filter_is_empty, Project, TaskFilter, TaskWithUser};

verus! {

/// A task with the tasks under it, by id.
#[derive(Debug)]
pub struct TaskTree {
    pub own: TaskWithUser,
    pub children: Option<HashMap<i64, TaskTree>>,
}

/// The data of the application: the current project, the task filter and the
/// task tree.
#[derive(Debug)]
pub struct Repository {
    pub project: Project,
    pub task_filter: TaskFilter,
    pub task_tree: HashMap<i64, TaskTree>,
}

impl Repository {
    /// A store whose project is not set yet.
    pub fn new() -> (r: Self)
        ensures
            r.project.id is None,
            r.project.name@ == "Not Set"@,
            task_filter_is_empty(r.task_filter),
            r.task_tree@ == Map::<i64, TaskTree>::empty(),
    {
        Repository {
            project: Project::new(String::from_str("Not Set")),
            task_filter: TaskFilter::new(),
            task_tree: HashMap::new(),
        }
    }

    /// Sets the current project.
    pub fn set_project(&mut self, project: Project)
        ensures
            final(self).project == project,
            final(self).task_filter == old(self).task_filter,
            final(self).task_tree == old(self).task_tree,
    {
        self.project = project;
    }

    /// The current project.
    pub fn project(&self) -> (r: &Project)
        ensures
            *r == self.project,
    {
        &self.project
    }

    /// Sets the task filter.
    pub fn set_task_filter(&mut self, task_filter: TaskFilter)
        ensures
            final(self).task_filter == task_filter,
            final(self).project == old(self).project,
            final(self).task_tree == old(self).task_tree,
    {
        self.task_filter = task_filter;
    }

    /// The task filter.
    pub fn task_filter(&self) -> (r: &TaskFilter)
        ensures
            *r == self.task_filter,
    {
        &self.task_filter
    }

    /// Sets the task tree.
    pub fn set_task_tree(&mut self, task_tree: HashMap<i64, TaskTree>)
        ensures
            final(self).task_tree == task_tree,
            final(self).project == old(self).project,
            final(self).task_filter == old(self).task_filter,
    {
        self.task_tree = task_tree;
    }

    /// The task tree.
    pub fn task_tree(&self) -> (r: &HashMap<i64, TaskTree>)
        ensures
            *r == self.task_tree,
    {
        &self.task_tree
    }

    /// Follows an event of the store: a request for a project asks that it
    /// be fetched, and a fetched project becomes the current one and is
    /// announced to the application.
    pub fn handle_repository_events(&mut self, event: RepositoryEvent) -> (d: Vec<Dispatch>)
        ensures
            final(self).task_filter == old(self).task_filter,
            final(self).task_tree == old(self).task_tree,
            match event {
                RepositoryEvent::RequestProject(name) => final(self).project == old(self).project
                    && d@.len() == 1 && d@[0] == Dispatch::FetchProject(name),
                RepositoryEvent::ResponseProject(p) => final(self).project == p && d@.len() == 1
                    && d@[0] == Dispatch::App(AppEvent::SetProject(p)),
                RepositoryEvent::Error(_) => final(self).project == old(self).project && d@.len()
                    == 0,
            },
    {
        match event {
            RepositoryEvent::RequestProject(project_name) => self.handle_request_project(
                project_name,
            ),
            RepositoryEvent::ResponseProject(project) => self.handle_response_project(project),
            RepositoryEvent::Error(_) => Vec::new(),
        }
    }

    /// Asks that the project named `project_name` be fetched.
    pub fn handle_request_project(&mut self, project_name: String) -> (d: Vec<Dispatch>)
        ensures
            *final(self) == *old(self),
            d@ == seq![Dispatch::FetchProject(project_name)],
    {
        let mut d: Vec<Dispatch> = Vec::new();
        d.push(Dispatch::FetchProject(project_name));
        d
    }

    /// Makes a fetched project the current one and announces it.
    pub fn handle_response_project(&mut self, project: Project) -> (d: Vec<Dispatch>)
        ensures
            final(self).project == project,
            final(self).task_filter == old(self).task_filter,
            final(self).task_tree == old(self).task_tree,
            d@ == seq![Dispatch::App(AppEvent::SetProject(project))],
    {
        self.project = project;
        let mut d: Vec<Dispatch> = Vec::new();
        d.push(Dispatch::App(AppEvent::SetProject(self.project.clone())));
        d
    }
}

/// The event that the outcome of fetching a project becomes: the project,
/// or the error's text.
pub fn fetch_result_event(result: Result<Project, String>) -> (e: RepositoryEvent)
    ensures
        match result {
            Ok(p) => e == RepositoryEvent::ResponseProject(p),
            Err(m) => e == RepositoryEvent::Error(m),
        },
{
    match result {
        Ok(project) => RepositoryEvent::ResponseProject(project),
        Err(message) => RepositoryEvent::Error(message),
    }
}

} // verus!
