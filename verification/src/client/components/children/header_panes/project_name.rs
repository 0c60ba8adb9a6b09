use vstd::prelude::*;

use crate::client::event::AppEvent;

verus! {

/// The header pane that shows the name of the current project.
#[derive(Debug)]
pub struct ProjectName {
    pub project_name: String,
}

impl ProjectName {
    /// A pane that shows `project_name`.
    pub fn new(project_name: String) -> (p: Self)
        ensures
            p.project_name == project_name,
    {
        ProjectName { project_name }
    }

    /// Shows `project_name`.
    pub fn set_project_name(&mut self, project_name: String)
        ensures
            final(self).project_name == project_name,
    {
        self.project_name = project_name;
    }

    /// Follows the project of the application: a new project shows its name,
    /// every other event leaves the pane as it is.
    pub fn handle_app_event(&mut self, event: &AppEvent)
        ensures
            match event {
                AppEvent::SetProject(p) => final(self).project_name@ == p.name@,
                _ => *final(self) == *old(self),
            },
    {
        match event {
            AppEvent::SetProject(project) => self.set_project_name(project.name.clone()),
            _ => {},
        }
    }

    /// The text that the pane shows: the name after a space.
    pub fn display_text(&self) -> (r: String)
        ensures
            r@ == " "@ + self.project_name@,
    {
        let mut r = String::from_str(" ");
        r.append(self.project_name.as_str());
        r
    }
}

} // verus!
