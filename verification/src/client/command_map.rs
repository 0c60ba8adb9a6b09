use vstd::prelude::*;

use crate::text::{
    is_word, lemma_split_single_word, lemma_split_ws_append_word, split_whitespace, split_ws,
    str_eq,
};

verus! {

/// A command typed into the command pane.
pub enum Command {
    EmptyCommand,
    SetProject(String),
    InvalidCommand(String),
    Quit,
}

/// What a command means, with its texts as character sequences.
pub enum CommandModel {
    EmptyCommand,
    SetProject(Seq<char>),
    InvalidCommand(Seq<char>),
    Quit,
}

impl View for Command {
    type V = CommandModel;

    open spec fn view(&self) -> CommandModel {
        match self {
            Command::EmptyCommand => CommandModel::EmptyCommand,
            Command::SetProject(p) => CommandModel::SetProject(p@),
            Command::InvalidCommand(c) => CommandModel::InvalidCommand(c@),
            Command::Quit => CommandModel::Quit,
        }
    }
}

/// The command that the text `s` stands for: `sp <name>` sets the project,
/// `q` quits, blank text is the empty command, and anything else is invalid.
pub open spec fn command_of(s: Seq<char>) -> CommandModel {
    let parts = split_ws(s);
    if parts.len() == 0 {
        CommandModel::EmptyCommand
    } else if parts[0] == "sp"@ {
        if parts.len() == 2 {
            CommandModel::SetProject(parts[1])
        } else {
            CommandModel::InvalidCommand(s)
        }
    } else if parts[0] == "q"@ {
        CommandModel::Quit
    } else {
        CommandModel::InvalidCommand(s)
    }
}

/// Parses a command line.
pub fn parse_command(command: &str) -> (r: Command)
    ensures
        r@ == command_of(command@),
{
    let parts = split_whitespace(command);
    if parts.len() == 0 {
        return Command::EmptyCommand;
    }
    assert(parts@[0]@ == split_ws(command@)[0]);
    if str_eq(parts[0].as_str(), "sp") {
        parse_set_project_cmd(command)
    } else if str_eq(parts[0].as_str(), "q") {
        Command::Quit
    } else {
        Command::InvalidCommand(String::from_str(command))
    }
}

/// Parses `sp <name>`: exactly two words make a project change.
pub fn parse_set_project_cmd(command: &str) -> (r: Command)
    ensures
        split_ws(command@).len() == 2 ==> r@ == CommandModel::SetProject(split_ws(command@)[1]),
        split_ws(command@).len() != 2 ==> r@ == CommandModel::InvalidCommand(command@),
{
    let parts = split_whitespace(command);
    if parts.len() != 2 {
        return Command::InvalidCommand(String::from_str(command));
    }
    assert(parts@[1]@ == split_ws(command@)[1]);
    let name = parts[1].clone();
    Command::SetProject(name)
}

/// `sp <name>` sets the project `name`, for any name that is a single word.
pub proof fn lemma_set_project_command(name: Seq<char>)
    requires
        is_word(name),
    ensures
        command_of("sp"@ + " "@ + name) == CommandModel::SetProject(name),
{
    reveal_strlit("sp");
    reveal_strlit(" ");
    let sp = "sp"@;
    assert(is_word(sp));
    lemma_split_single_word(sp);
    lemma_split_ws_append_word(sp, ' ', name);
    assert(sp.push(' ') + name =~= "sp"@ + " "@ + name);
}

/// `q` quits.
pub proof fn lemma_quit_command()
    ensures
        command_of("q"@) == CommandModel::Quit,
{
    reveal_strlit("q");
    reveal_strlit("sp");
    assert(is_word("q"@));
    lemma_split_single_word("q"@);
}

/// A command line is read by its words: a line without words is the empty
/// command, `q` as the first word quits, `sp` followed by exactly one word
/// sets the project to that word, and anything else is an invalid command
/// that carries the whole line.
pub proof fn lemma_command_words(s: Seq<char>)
    ensures
        (command_of(s) == CommandModel::EmptyCommand) == (split_ws(s).len() == 0),
        (command_of(s) == CommandModel::Quit) == (split_ws(s).len() > 0 && split_ws(s)[0]
            == "q"@),
        command_of(s) matches CommandModel::SetProject(n) ==> n == split_ws(s)[1],
        (command_of(s) is SetProject) == (split_ws(s).len() == 2 && split_ws(s)[0] == "sp"@),
        command_of(s) matches CommandModel::InvalidCommand(c) ==> c == s,
{
    reveal_strlit("q");
    reveal_strlit("sp");
    assert("q"@.len() == 1 && "sp"@.len() == 2);
}

} // verus!
