use menahel::client::api::{build_task_tree, first_project};
use menahel::client::app::{App, ErrorType};
use menahel::client::command::{parse_change_project, CommandKind};
use menahel::client::command_map::{parse_command, parse_set_project_cmd, Command};
use menahel::client::components::children::command_pane::command_line::CommandLine;
use menahel::client::components::children::command_pane::command_terminal::CommandTerminal;
use menahel::client::components::children::command_pane::log::{Log, LogKind};
use menahel::client::components::children::header_panes::project_name::ProjectName;
use menahel::client::components::pane::{Pane, PaneChild};
use menahel::client::event::{AppEvent, Dispatch, RepositoryEvent};
use menahel::client::key_map::{KeyInput, UiKeyMap};
use menahel::client::repository::{fetch_result_event, Repository};
use menahel::client::ui::{PaneId, UI};
use menahel::models::{Project, TaskFilter, TaskWithUser};

fn task(task_id: i64, parent_id: Option<i64>, level: i64) -> TaskWithUser {
    TaskWithUser {
        task_id,
        project_id: 1,
        parent_id,
        level,
        name: format!("t{}", task_id),
        description: None,
        status: 0,
        deadline: None,
        created_at: 0,
        updated_at: None,
    }
}

fn command_pane_log(ui: &UI) -> Vec<String> {
    match &ui.command_pane.child {
        Some(PaneChild::CommandLine(c)) => c.log.log.iter().map(|l| l.text.clone()).collect(),
        _ => panic!("no command line"),
    }
}

#[test]
fn keys_map_to_requests() {
    assert_eq!(UiKeyMap::key(KeyInput::Char(':')), UiKeyMap::FocusToCommandPane);
    assert_eq!(UiKeyMap::key(KeyInput::Char('h')), UiKeyMap::ChangeFocusToLeft);
    assert_eq!(UiKeyMap::key(KeyInput::Char('l')), UiKeyMap::ChangeFocusToRight);
    assert_eq!(UiKeyMap::key(KeyInput::Esc), UiKeyMap::FocusBackFromCommandPane);
    assert_eq!(UiKeyMap::key(KeyInput::Char('x')), UiKeyMap::UnDefined);
    assert_eq!(UiKeyMap::key(KeyInput::Enter), UiKeyMap::UnDefined);
}

#[test]
fn commands_parse() {
    assert!(matches!(parse_command(""), Command::EmptyCommand));
    assert!(matches!(parse_command("   "), Command::EmptyCommand));
    assert!(matches!(parse_command("q"), Command::Quit));
    assert!(matches!(parse_command("q now"), Command::Quit));
    assert!(matches!(parse_command("sp alpha"), Command::SetProject(n) if n == "alpha"));
    assert!(matches!(parse_command("  sp   beta  "), Command::SetProject(n) if n == "beta"));
    assert!(matches!(parse_command("sp"), Command::InvalidCommand(c) if c == "sp"));
    assert!(matches!(parse_command("sp a b"), Command::InvalidCommand(c) if c == "sp a b"));
    assert!(matches!(parse_command("list"), Command::InvalidCommand(c) if c == "list"));
    assert!(matches!(parse_set_project_cmd("sp x"), Command::SetProject(n) if n == "x"));
}

#[test]
fn command_kinds_parse() {
    assert!(matches!(CommandKind::parse_command(""), Ok(CommandKind::EmptyCommand)));
    assert!(matches!(CommandKind::parse_command("q"), Ok(CommandKind::CloseApp)));
    assert!(matches!(CommandKind::parse_command("cp alpha"), Ok(CommandKind::ChangeProject(n)) if n == "alpha"));
    assert!(matches!(
        CommandKind::parse_command("change-project beta"),
        Ok(CommandKind::ChangeProject(n)) if n == "beta"
    ));
    assert!(matches!(CommandKind::parse_command("cp"), Err(e) if e == "Invalid command: cp"));
    assert!(matches!(CommandKind::parse_command("ls -a"), Err(e) if e == "Invalid command: ls -a"));
    assert!(matches!(parse_change_project("cp a b"), Err(e) if e == "Invalid command: cp a b"));
}

#[test]
fn terminal_edits_and_runs() {
    let mut t = CommandTerminal::new();
    assert!(t.handle_key_event(KeyInput::Char('a')).is_empty());
    assert_eq!(t.command, "");
    t.set_focus(true);
    assert_eq!(t.display_text(), ":");
    for c in "sp x".chars() {
        assert!(t.handle_key_event(KeyInput::Char(c)).is_empty());
    }
    t.handle_key_event(KeyInput::Char('y'));
    t.handle_key_event(KeyInput::Backspace);
    assert_eq!(t.command, "sp x");
    assert_eq!(t.display_text(), ":sp x");
    let sent = t.handle_key_event(KeyInput::Enter);
    assert_eq!(sent.len(), 3);
    assert!(matches!(&sent[0], AppEvent::ExecCommand(c) if c == "sp x"));
    assert!(matches!(&sent[1], AppEvent::CommandLog(c) if c == "sp x"));
    assert!(matches!(&sent[2], AppEvent::FocusBack));
    assert_eq!(t.command, "");
    assert_eq!(t.history, vec!["sp x".to_string()]);
    t.handle_key_event(KeyInput::Backspace);
    assert_eq!(t.command, "");
    t.set_focus(false);
    assert_eq!(t.display_text(), ":");
}

#[test]
fn log_shows_newest_first() {
    let mut log = Log::new();
    for i in 0..10 {
        log.add_command_log(&format!("c{}", i));
    }
    log.add_error_log(&"boom".to_string());
    let lines = log.get_visible_lines();
    assert_eq!(lines.len(), 8);
    assert_eq!(lines[0].text, "[ERROR] boom");
    assert_eq!(lines[0].kind, LogKind::Error);
    assert_eq!(lines[1].text, ": c9");
    assert_eq!(lines[7].text, ": c3");
    let mut short = Log::new();
    short.handle_app_event(&AppEvent::CommandLog("q".to_string()));
    short.handle_app_event(&AppEvent::Quit);
    assert_eq!(short.get_visible_lines().len(), 1);
}

#[test]
fn project_name_follows_project() {
    let mut p = ProjectName::new("Not Set".to_string());
    assert_eq!(p.display_text(), " Not Set");
    p.handle_app_event(&AppEvent::SetProject(Project { id: Some(3), name: "alpha".to_string() }));
    assert_eq!(p.display_text(), " alpha");
    p.handle_app_event(&AppEvent::FocusBack);
    assert_eq!(p.project_name, "alpha");
}

#[test]
fn pane_passes_keys_to_command_line() {
    let mut pane = Pane::new("Command".to_string(), false, PaneId::CommandPane);
    pane.set_child(PaneChild::CommandLine(CommandLine::new()));
    pane.handle_app_event(&AppEvent::FocusPane(PaneId::CommandPane));
    assert!(pane.focus);
    pane.handle_key_event(KeyInput::Char('q'));
    let sent = pane.handle_key_event(KeyInput::Enter);
    assert!(matches!(&sent[0], AppEvent::ExecCommand(c) if c == "q"));
    pane.handle_app_event(&AppEvent::FocusPane(PaneId::TaskPane));
    assert!(!pane.focus);
}

#[test]
fn focus_moves_and_returns() {
    let mut ui = UI::new();
    ui.init_pane();
    assert_eq!(ui.focus, PaneId::TaskGroupPane);
    let sent = ui.handle_key_event(KeyInput::Char('l'));
    assert!(matches!(sent.as_slice(), [AppEvent::FocusPane(PaneId::TaskPane)]));
    ui.handle_app_event(&AppEvent::FocusPane(PaneId::TaskPane));
    assert_eq!(ui.focus, PaneId::TaskPane);
    assert!(ui.task_pane.focus);
    assert!(!ui.task_group_pane.focus);
    let sent = ui.handle_key_event(KeyInput::Char(':'));
    assert!(matches!(sent.as_slice(), [AppEvent::FocusPane(PaneId::CommandPane)]));
    ui.handle_app_event(&AppEvent::FocusPane(PaneId::CommandPane));
    assert_eq!(ui.previous_focus, PaneId::TaskPane);
    let sent = ui.handle_key_event(KeyInput::Esc);
    assert!(matches!(sent.as_slice(), [AppEvent::FocusBack]));
    ui.handle_app_event(&AppEvent::FocusBack);
    assert_eq!(ui.focus, PaneId::TaskPane);
    assert!(ui.handle_key_event(KeyInput::Char('x')).is_empty());
    assert!(ui.handle_ui_key_event(KeyInput::Char('l')).is_none());
}

#[test]
fn app_runs_commands() {
    let mut app = App::new();
    assert!(app.running);
    assert_eq!(app.repository.project.name, "Not Set");
    let d = app.handle_app_events(AppEvent::ExecCommand("sp alpha".to_string()));
    assert!(matches!(
        d.as_slice(),
        [Dispatch::Repository(RepositoryEvent::RequestProject(n))] if n == "alpha"
    ));
    let d = app.handle_app_events(AppEvent::ExecCommand("bogus".to_string()));
    assert!(matches!(d.as_slice(), [Dispatch::App(AppEvent::ErrorLog(m))] if m == "Invalid command: bogus"));
    assert!(app.handle_app_events(AppEvent::ExecCommand(String::new())).is_empty());
    assert!(app.running);
    assert!(app.handle_app_events(AppEvent::ExecCommand("q".to_string())).is_empty());
    assert!(!app.running);
}

#[test]
fn app_quits_on_quit_event() {
    let mut app = App::new();
    assert!(app.handle_app_events(AppEvent::Quit).is_empty());
    assert!(!app.running);
}

#[test]
fn app_typing_a_command() {
    let mut app = App::new();
    let d = app.handle_key_events(KeyInput::Char(':'));
    assert!(matches!(d.as_slice(), [Dispatch::App(AppEvent::FocusPane(PaneId::CommandPane))]));
    for dispatch in d {
        if let Dispatch::App(e) = dispatch {
            app.handle_app_events(e);
        }
    }
    assert_eq!(app.ui.focus, PaneId::CommandPane);
    for c in "sp beta".chars() {
        assert!(app.handle_key_events(KeyInput::Char(c)).is_empty());
    }
    let d = app.handle_key_events(KeyInput::Enter);
    assert_eq!(d.len(), 3);
    let mut requests = Vec::new();
    for dispatch in d {
        if let Dispatch::App(e) = dispatch {
            requests.extend(app.handle_app_events(e));
        }
    }
    assert!(matches!(
        requests.as_slice(),
        [Dispatch::Repository(RepositoryEvent::RequestProject(n))] if n == "beta"
    ));
    assert_eq!(app.ui.focus, PaneId::TaskGroupPane);
    assert_eq!(command_pane_log(&app.ui), vec![": sp beta".to_string()]);
}

#[test]
fn app_follows_the_store() {
    let mut app = App::new();
    let d = app.handle_repository_events(RepositoryEvent::RequestProject("alpha".to_string()));
    assert!(matches!(d.as_slice(), [Dispatch::FetchProject(n)] if n == "alpha"));
    let p = Project { id: Some(5), name: "alpha".to_string() };
    let d = app.handle_repository_events(RepositoryEvent::ResponseProject(p.clone()));
    assert_eq!(app.repository.project, p);
    assert!(matches!(d.as_slice(), [Dispatch::App(AppEvent::SetProject(q))] if *q == p));
    for dispatch in d {
        if let Dispatch::App(e) = dispatch {
            app.handle_app_events(e);
        }
    }
    match &app.ui.project_pane.child {
        Some(PaneChild::ProjectName(n)) => assert_eq!(n.project_name, "alpha"),
        _ => panic!("no project name"),
    }
    let d = app.handle_repository_events(RepositoryEvent::Error("timeout".to_string()));
    assert!(matches!(d.as_slice(), [Dispatch::App(AppEvent::ErrorLog(m))] if m == "Repository error: timeout"));
    let d = app.handle_error(ErrorType::HandlerError("x".to_string()));
    assert!(matches!(d, Dispatch::App(AppEvent::ErrorLog(m)) if m == "Handler error: x"));
}

#[test]
fn store_accessors() {
    let mut r = Repository::new();
    assert_eq!(r.project().name, "Not Set");
    assert!(r.task_filter().is_empty());
    assert!(r.task_tree().is_empty());
    let mut f = TaskFilter::new();
    f.level = Some(1);
    r.set_task_filter(f);
    assert_eq!(r.task_filter().level, Some(1));
    r.set_project(Project::new("p".to_string()));
    assert_eq!(r.project().name, "p");
}

#[test]
fn fetch_outcomes_become_events() {
    let p = Project { id: Some(1), name: "a".to_string() };
    assert!(matches!(fetch_result_event(Ok(p.clone())), RepositoryEvent::ResponseProject(q) if q == p));
    assert!(matches!(fetch_result_event(Err("e".to_string())), RepositoryEvent::Error(m) if m == "e"));
}

#[test]
fn first_result_is_the_project() {
    let a = Project { id: Some(1), name: "a".to_string() };
    let b = Project { id: Some(2), name: "a".to_string() };
    assert_eq!(first_project(vec![a.clone(), b]).unwrap(), a);
    assert_eq!(first_project(Vec::new()).unwrap_err(), "Project not found");
}

#[test]
fn task_tree_groups_children() {
    let level0 = vec![task(1, None, 0), task(2, None, 0)];
    let level1 = vec![task(10, Some(1), 1), task(11, Some(1), 1), task(20, Some(2), 1), task(30, None, 1)];
    let tree = build_task_tree(&level0, &level1).unwrap();
    assert_eq!(tree.len(), 2);
    let one = &tree[&1];
    assert_eq!(one.own.task_id, 1);
    let children = one.children.as_ref().unwrap();
    assert_eq!(children.len(), 2);
    assert!(children[&10].children.as_ref().unwrap().is_empty());
    assert_eq!(children[&11].own.name, "t11");
    assert_eq!(tree[&2].children.as_ref().unwrap().len(), 1);
    let empty = build_task_tree(&Vec::new(), &Vec::new()).unwrap();
    assert!(empty.is_empty());
}

#[test]
fn task_tree_refuses_orphans() {
    let level0 = vec![task(1, None, 0)];
    let level1 = vec![task(10, Some(1), 1), task(11, Some(7), 1), task(12, Some(8), 1)];
    assert_eq!(
        build_task_tree(&level0, &level1).unwrap_err(),
        "Parent task with ID 7 not found for task 11"
    );
}

#[test]
fn screen_starts_as_described() {
    let app = App::new();
    let ui = &app.ui;
    let titles: Vec<&str> = [
        &ui.project_pane,
        &ui.project_statistics_pane,
        &ui.status_pane,
        &ui.task_group_pane,
        &ui.task_pane,
        &ui.command_pane,
    ]
    .iter()
    .map(|p| p.title.as_str())
    .collect();
    assert_eq!(titles, vec!["Project", "Project Statistics", "Status", "Task Group", "Task", "Command"]);
    assert_eq!(ui.previous_focus, PaneId::TaskGroupPane);
    assert!(ui.task_group_pane.focus && !ui.command_pane.focus && !ui.project_pane.focus);
    assert!(ui.status_pane.child.is_none() && ui.task_pane.child.is_none());
    match &ui.command_pane.child {
        Some(PaneChild::CommandLine(c)) => {
            assert!(!c.focus && c.command_terminal.command.is_empty() && c.log.log.is_empty());
        }
        _ => panic!("no command line"),
    }
    assert!(app.repository.task_filter.is_empty());
    assert!(app.repository.task_tree.is_empty());
}

#[test]
fn stopped_app_still_answers_commands() {
    let mut app = App::new();
    app.quit();
    let d = app.handle_command("sp alpha");
    assert!(matches!(d.as_slice(), [Dispatch::Repository(RepositoryEvent::RequestProject(n))] if n == "alpha"));
    assert!(!app.running);
}
