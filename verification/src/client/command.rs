use vstd::prelude::*;

use crate::text::{
    is_word, lemma_split_single_word, lemma_split_ws_append_word, split_whitespace, split_ws,
    str_eq,
};

verus! {

/// A command of the command line, in its long or short spelling.
pub enum CommandKind {
    EmptyCommand,
    ChangeProject(String),
    CloseApp,
}

/// What a command kind means, with its texts as character sequences.
pub enum CommandKindModel {
    EmptyCommand,
    ChangeProject(Seq<char>),
    CloseApp,
}

impl View for CommandKind {
    type V = CommandKindModel;

    open spec fn view(&self) -> CommandKindModel {
        match self {
            CommandKind::EmptyCommand => CommandKindModel::EmptyCommand,
            CommandKind::ChangeProject(p) => CommandKindModel::ChangeProject(p@),
            CommandKind::CloseApp => CommandKindModel::CloseApp,
        }
    }
}

/// The message of a refused command.
pub open spec fn invalid_command_message(s: Seq<char>) -> Seq<char> {
    "Invalid command: "@ + s
}

/// What parsing `s` gives: `change-project <name>` or `cp <name>` change the
/// project, `q` closes the application, blank text is the empty command, and
/// anything else is refused with the message `Invalid command: <s>`.
pub open spec fn command_kind_of(s: Seq<char>) -> Result<CommandKindModel, Seq<char>> {
    let parts = split_ws(s);
    if parts.len() == 0 {
        Ok(CommandKindModel::EmptyCommand)
    } else if parts[0] == "change-project"@ || parts[0] == "cp"@ {
        change_project_of(s)
    } else if parts[0] == "q"@ {
        Ok(CommandKindModel::CloseApp)
    } else {
        Err(invalid_command_message(s))
    }
}

/// What parsing a project change gives: exactly two words name the project.
pub open spec fn change_project_of(s: Seq<char>) -> Result<CommandKindModel, Seq<char>> {
    let parts = split_ws(s);
    if parts.len() == 2 {
        Ok(CommandKindModel::ChangeProject(parts[1]))
    } else {
        Err(invalid_command_message(s))
    }
}

fn invalid_command(command: &str) -> (e: String)
    ensures
        e@ == invalid_command_message(command@),
{
    let mut e = String::from_str("Invalid command: ");
    e.append(command);
    e
}

impl CommandKind {
    /// Parses a command line.
    pub fn parse_command(command: &str) -> (r: Result<CommandKind, String>)
        ensures
            match (r, command_kind_of(command@)) {
                (Ok(k), Ok(m)) => k@ == m,
                (Err(e), Err(m)) => e@ == m,
                _ => false,
            },
    {
        let parts = split_whitespace(command);
        if parts.len() == 0 {
            return Ok(CommandKind::EmptyCommand);
        }
        assert(parts@[0]@ == split_ws(command@)[0]);
        if str_eq(parts[0].as_str(), "change-project") || str_eq(parts[0].as_str(), "cp") {
            parse_change_project(command)
        } else if str_eq(parts[0].as_str(), "q") {
            Ok(CommandKind::CloseApp)
        } else {
            Err(invalid_command(command))
        }
    }
}

/// Parses `change-project <name>` or `cp <name>`.
pub fn parse_change_project(command: &str) -> (r: Result<CommandKind, String>)
    ensures
        match (r, change_project_of(command@)) {
            (Ok(k), Ok(m)) => k@ == m,
            (Err(e), Err(m)) => e@ == m,
            _ => false,
        },
{
    let parts = split_whitespace(command);
    if parts.len() != 2 {
        return Err(invalid_command(command));
    }
    assert(parts@[1]@ == split_ws(command@)[1]);
    Ok(CommandKind::ChangeProject(parts[1].clone()))
}

/// `cp <name>` and `change-project <name>` change to the project `name`, for
/// any name that is a single word; `q` closes the application.
pub proof fn lemma_change_project_command(name: Seq<char>)
    requires
        is_word(name),
    ensures
        command_kind_of("cp"@ + " "@ + name) == Ok::<CommandKindModel, Seq<char>>(
            CommandKindModel::ChangeProject(name),
        ),
        command_kind_of("change-project"@ + " "@ + name) == Ok::<CommandKindModel, Seq<char>>(
            CommandKindModel::ChangeProject(name),
        ),
        command_kind_of("q"@) == Ok::<CommandKindModel, Seq<char>>(CommandKindModel::CloseApp),
{
    reveal_strlit("cp");
    reveal_strlit("change-project");
    reveal_strlit("q");
    reveal_strlit(" ");
    let cp = "cp"@;
    let long = "change-project"@;
    assert(is_word(cp));
    assert(is_word(long));
    assert(is_word("q"@));
    lemma_split_single_word(cp);
    lemma_split_single_word(long);
    lemma_split_single_word("q"@);
    lemma_split_ws_append_word(cp, ' ', name);
    lemma_split_ws_append_word(long, ' ', name);
    assert(cp.push(' ') + name =~= "cp"@ + " "@ + name);
    assert(long.push(' ') + name =~= "change-project"@ + " "@ + name);
}

/// A command line is read by its words: a line without words is the empty
/// command, `q` as the first word closes the application, `cp` or
/// `change-project` followed by exactly one word changes to the project of
/// that word, and anything else is refused as `Invalid command: <line>`.
pub proof fn lemma_command_kind_words(s: Seq<char>)
    ensures
        (command_kind_of(s) == Ok::<CommandKindModel, Seq<char>>(CommandKindModel::EmptyCommand))
            == (split_ws(s).len() == 0),
        (command_kind_of(s) == Ok::<CommandKindModel, Seq<char>>(CommandKindModel::CloseApp)) == (
        split_ws(s).len() > 0 && split_ws(s)[0] == "q"@),
        command_kind_of(s) matches Ok(CommandKindModel::ChangeProject(n)) ==> n == split_ws(s)[1],
        (command_kind_of(s) matches Ok(CommandKindModel::ChangeProject(_))) == (split_ws(s).len()
            == 2 && (split_ws(s)[0] == "cp"@ || split_ws(s)[0] == "change-project"@)),
        command_kind_of(s) matches Err(m) ==> m == "Invalid command: "@ + s,
{
    reveal_strlit("q");
    reveal_strlit("cp");
    reveal_strlit("change-project");
    assert("q"@.len() == 1 && "cp"@.len() == 2 && "change-project"@.len() == 14);
}

} // verus!
