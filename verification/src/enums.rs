use vstd::prelude::*;

use crate::errors::messages::{error_text, get_error_message, ErrorKey};
use crate::text::{decimal, i64_to_decimal, str_eq};

verus! {

/// How coarse a task is: major tasks hold minor ones, which hold trivial ones.
#[derive(Debug, Clone, Copy, PartialEq, Eq, Hash, Structural)]
pub enum TaskLevel {
    Major,
    Minor,
    Trivial,
}

/// The number that stands for a task level.
pub open spec fn level_number(level: TaskLevel) -> int {
    match level {
        TaskLevel::Major => 0,
        TaskLevel::Minor => 1,
        TaskLevel::Trivial => 2,
    }
}

/// The task level that a number stands for, if any.
pub open spec fn level_of_number(n: int) -> Option<TaskLevel> {
    if n == 0 {
        Some(TaskLevel::Major)
    } else if n == 1 {
        Some(TaskLevel::Minor)
    } else if n == 2 {
        Some(TaskLevel::Trivial)
    } else {
        None
    }
}

/// The message of an invalid level number.
pub open spec fn level_error(level: int) -> Seq<char> {
    error_text(ErrorKey::TaskLevelInvalid, "Level = "@ + decimal(level))
}

impl TaskLevel {
    /// The number of this level.
    pub fn to_int(&self) -> (r: i64)
        ensures
            r == level_number(*self),
    {
        match self {
            TaskLevel::Major => 0,
            TaskLevel::Minor => 1,
            TaskLevel::Trivial => 2,
        }
    }

    /// The level of a number; any number but 0, 1 and 2 is refused.
    pub fn from_int(level: i64) -> (r: Result<TaskLevel, String>)
        ensures
            match level_of_number(level as int) {
                Some(l) => r == Ok::<TaskLevel, String>(l),
                None => r matches Err(e) && e@ == level_error(level as int),
            },
    {
        match level {
            0 => Ok(TaskLevel::Major),
            1 => Ok(TaskLevel::Minor),
            2 => Ok(TaskLevel::Trivial),
            _ => {
                let mut info = String::from_str("Level = ");
                let digits = i64_to_decimal(level);
                info.append(digits.as_str());
                Err(get_error_message(ErrorKey::TaskLevelInvalid, info))
            },
        }
    }

    /// Every task level, from the coarsest to the finest.
    pub fn all() -> (r: Vec<TaskLevel>)
        ensures
            r@ == seq![TaskLevel::Major, TaskLevel::Minor, TaskLevel::Trivial],
    {
        vec![TaskLevel::Major, TaskLevel::Minor, TaskLevel::Trivial]
    }
}

/// The number of the finest task level.
pub fn get_max_task_level() -> (r: i64)
    ensures
        r == 2,
        forall|l: TaskLevel| level_number(l) <= r,
        exists|l: TaskLevel| level_number(l) == r,
{
    let levels = TaskLevel::all();
    assert(level_number(TaskLevel::Trivial) == 2);
    levels.len() as i64 - 1
}

/// Where a task stands.
#[derive(Debug, Clone, Copy, PartialEq, Eq, Structural)]
pub enum TaskStatus {
    NotStarted,
    InProgress,
    Reviewing,
    Cancelled,
    Done,
}

/// The number that stands for a task status.
pub open spec fn status_number(status: TaskStatus) -> int {
    match status {
        TaskStatus::NotStarted => 0,
        TaskStatus::InProgress => 1,
        TaskStatus::Reviewing => 2,
        TaskStatus::Cancelled => 3,
        TaskStatus::Done => 4,
    }
}

/// The task status that a number stands for, if any.
pub open spec fn status_of_number(n: int) -> Option<TaskStatus> {
    if n == 0 {
        Some(TaskStatus::NotStarted)
    } else if n == 1 {
        Some(TaskStatus::InProgress)
    } else if n == 2 {
        Some(TaskStatus::Reviewing)
    } else if n == 3 {
        Some(TaskStatus::Cancelled)
    } else if n == 4 {
        Some(TaskStatus::Done)
    } else {
        None
    }
}

/// The two-letter code of a task status.
pub open spec fn status_code(status: TaskStatus) -> Seq<char> {
    match status {
        TaskStatus::NotStarted => "ns"@,
        TaskStatus::InProgress => "ip"@,
        TaskStatus::Reviewing => "rv"@,
        TaskStatus::Cancelled => "cn"@,
        TaskStatus::Done => "dn"@,
    }
}

/// The task status that a two-letter code stands for, if any.
pub open spec fn status_of_code(s: Seq<char>) -> Option<TaskStatus> {
    if s == "ns"@ {
        Some(TaskStatus::NotStarted)
    } else if s == "ip"@ {
        Some(TaskStatus::InProgress)
    } else if s == "rv"@ {
        Some(TaskStatus::Reviewing)
    } else if s == "cn"@ {
        Some(TaskStatus::Cancelled)
    } else if s == "dn"@ {
        Some(TaskStatus::Done)
    } else {
        None
    }
}

/// The message of an invalid status, given as its number or its code.
pub open spec fn status_error(info: Seq<char>) -> Seq<char> {
    error_text(ErrorKey::TaskStatusInvalid, "Status = "@ + info)
}

impl TaskStatus {
    /// The number of this status.
    pub fn to_int(&self) -> (r: i64)
        ensures
            r == status_number(*self),
    {
        match self {
            TaskStatus::NotStarted => 0,
            TaskStatus::InProgress => 1,
            TaskStatus::Reviewing => 2,
            TaskStatus::Cancelled => 3,
            TaskStatus::Done => 4,
        }
    }

    /// The status of a number; any number outside 0 to 4 is refused.
    pub fn from_int(status: i64) -> (r: Result<TaskStatus, String>)
        ensures
            match status_of_number(status as int) {
                Some(s) => r == Ok::<TaskStatus, String>(s),
                None => r matches Err(e) && e@ == status_error(decimal(status as int)),
            },
    {
        match status {
            0 => Ok(TaskStatus::NotStarted),
            1 => Ok(TaskStatus::InProgress),
            2 => Ok(TaskStatus::Reviewing),
            3 => Ok(TaskStatus::Cancelled),
            4 => Ok(TaskStatus::Done),
            _ => {
                let mut info = String::from_str("Status = ");
                let digits = i64_to_decimal(status);
                info.append(digits.as_str());
                Err(get_error_message(ErrorKey::TaskStatusInvalid, info))
            },
        }
    }

    /// The two-letter code of this status.
    pub fn to_short_string(&self) -> (r: String)
        ensures
            r@ == status_code(*self),
    {
        match self {
            TaskStatus::NotStarted => String::from_str("ns"),
            TaskStatus::InProgress => String::from_str("ip"),
            TaskStatus::Reviewing => String::from_str("rv"),
            TaskStatus::Cancelled => String::from_str("cn"),
            TaskStatus::Done => String::from_str("dn"),
        }
    }

    /// The status of a two-letter code; any other text is refused.
    pub fn from_short_string(status: &str) -> (r: Result<TaskStatus, String>)
        ensures
            match status_of_code(status@) {
                Some(s) => r == Ok::<TaskStatus, String>(s),
                None => r matches Err(e) && e@ == status_error(status@),
            },
    {
        if str_eq(status, "ns") {
            Ok(TaskStatus::NotStarted)
        } else if str_eq(status, "ip") {
            Ok(TaskStatus::InProgress)
        } else if str_eq(status, "rv") {
            Ok(TaskStatus::Reviewing)
        } else if str_eq(status, "cn") {
            Ok(TaskStatus::Cancelled)
        } else if str_eq(status, "dn") {
            Ok(TaskStatus::Done)
        } else {
            let mut info = String::from_str("Status = ");
            info.append(status);
            Err(get_error_message(ErrorKey::TaskStatusInvalid, info))
        }
    }
}

/// A level's number gives the level back, and a number that gives a level is
/// that level's number.
pub proof fn lemma_level_number_round_trip(level: TaskLevel, n: int)
    ensures
        level_of_number(level_number(level)) == Some(level),
        level_of_number(n) == Some(level) ==> level_number(level) == n,
{
}

/// A status's number gives the status back, and a number that gives a status
/// is that status's number.
pub proof fn lemma_status_number_round_trip(status: TaskStatus, n: int)
    ensures
        status_of_number(status_number(status)) == Some(status),
        status_of_number(n) == Some(status) ==> status_number(status) == n,
{
}

/// A status's code gives the status back, and a code that gives a status is
/// that status's code.
pub proof fn lemma_status_code_round_trip(status: TaskStatus, s: Seq<char>)
    ensures
        status_of_code(status_code(status)) == Some(status),
        status_of_code(s) == Some(status) ==> status_code(status) == s,
{
    reveal_strlit("ns");
    reveal_strlit("ip");
    reveal_strlit("rv");
    reveal_strlit("cn");
    reveal_strlit("dn");
    assert("ns"@[0] == 'n' && "ip"@[0] == 'i' && "rv"@[0] == 'r' && "cn"@[0] == 'c' && "dn"@[0]
        == 'd');
}

/// The levels are numbered from 0 in order, Major, Minor, Trivial, and a
/// number names a level exactly when it lies from 0 to 2.
pub proof fn lemma_level_numbers(n: int)
    ensures
        level_number(TaskLevel::Major) == 0,
        level_number(TaskLevel::Minor) == 1,
        level_number(TaskLevel::Trivial) == 2,
        (level_of_number(n) is Some) == (0 <= n && n <= 2),
{
}

/// The statuses are numbered from 0 in order, NotStarted, InProgress,
/// Reviewing, Cancelled, Done, and a number names a status exactly when it
/// lies from 0 to 4.
pub proof fn lemma_status_numbers(n: int)
    ensures
        status_number(TaskStatus::NotStarted) == 0,
        status_number(TaskStatus::InProgress) == 1,
        status_number(TaskStatus::Reviewing) == 2,
        status_number(TaskStatus::Cancelled) == 3,
        status_number(TaskStatus::Done) == 4,
        (status_of_number(n) is Some) == (0 <= n && n <= 4),
{
}

} // verus!
