use vstd::prelude::*;

use crate::client::event::AppEvent;

verus! {

/// The most lines that the log shows.
pub const MAX_LOG_LINES: usize = 8;

/// What a log line reports.
#[derive(Debug, Clone, Copy, PartialEq, Eq, Structural)]
pub enum LogKind {
    Error,
    Command,
}

/// A line of the log.
#[derive(Debug)]
pub struct LogLine {
    pub text: String,
    pub kind: LogKind,
}

impl Clone for LogLine {
    fn clone(&self) -> (r: Self)
        ensures
            r == *self,
    {
        LogLine { text: self.text.clone(), kind: self.kind }
    }
}

/// The log of commands and errors under the command line.
#[derive(Debug)]
pub struct Log {
    pub log: Vec<LogLine>,
    pub focus: bool,
}

/// The lines that the log shows: the newest first, at most eight.
pub open spec fn visible(log: Seq<LogLine>) -> Seq<LogLine> {
    let n = if log.len() < MAX_LOG_LINES { log.len() as int } else { MAX_LOG_LINES as int };
    Seq::new(n as nat, |i: int| log[log.len() - 1 - i])
}

/// Whether the log `after` is the log `before` after an event of the
/// application: an error or a command adds its line, `[ERROR] <error>` or
/// `: <command>`, and every other event leaves the log as it is.
pub open spec fn log_follows(before: Seq<LogLine>, after: Seq<LogLine>, event: AppEvent) -> bool {
    match event {
        AppEvent::ErrorLog(e) => {
            &&& after.len() == before.len() + 1
            &&& after.drop_last() == before
            &&& after.last().text@ == "[ERROR] "@ + e@
            &&& after.last().kind == LogKind::Error
        },
        AppEvent::CommandLog(c) => {
            &&& after.len() == before.len() + 1
            &&& after.drop_last() == before
            &&& after.last().text@ == ": "@ + c@
            &&& after.last().kind == LogKind::Command
        },
        _ => after == before,
    }
}

impl Log {
    /// An empty log.
    pub fn new() -> (l: Self)
        ensures
            l.log@.len() == 0,
            !l.focus,
    {
        Log { log: Vec::new(), focus: false }
    }

    /// Adds an error line, `[ERROR] <error>`.
    pub fn add_error_log(&mut self, error: &String)
        ensures
            final(self).log@.len() == old(self).log@.len() + 1,
            final(self).log@.drop_last() == old(self).log@,
            final(self).log@.last().text@ == "[ERROR] "@ + error@,
            final(self).log@.last().kind == LogKind::Error,
            final(self).focus == old(self).focus,
    {
        let mut text = String::from_str("[ERROR] ");
        text.append(error.as_str());
        self.log.push(LogLine { text, kind: LogKind::Error });
        assert(self.log@.drop_last() =~= old(self).log@);
    }

    /// Adds a command line, `: <command>`.
    pub fn add_command_log(&mut self, command: &String)
        ensures
            final(self).log@.len() == old(self).log@.len() + 1,
            final(self).log@.drop_last() == old(self).log@,
            final(self).log@.last().text@ == ": "@ + command@,
            final(self).log@.last().kind == LogKind::Command,
            final(self).focus == old(self).focus,
    {
        let mut text = String::from_str(": ");
        text.append(command.as_str());
        self.log.push(LogLine { text, kind: LogKind::Command });
        assert(self.log@.drop_last() =~= old(self).log@);
    }

    /// The lines that the log shows.
    pub fn get_visible_lines(&self) -> (r: Vec<LogLine>)
        ensures
            r@ == visible(self.log@),
    {
        let mut r: Vec<LogLine> = Vec::new();
        let len = self.log.len();
        let n = if len < MAX_LOG_LINES { len } else { MAX_LOG_LINES };
        let mut i: usize = 0;
        while i < n
            invariant
                len == self.log@.len(),
                n <= len,
                n == visible(self.log@).len(),
                i <= n,
                r@ == visible(self.log@).take(i as int),
            decreases n - i,
        {
            let line = self.log[len - 1 - i].clone();
            r.push(line);
            i = i + 1;
            assert(r@ =~= visible(self.log@).take(i as int));
        }
        assert(visible(self.log@).take(n as int) =~= visible(self.log@));
        r
    }

    /// Logs the errors and commands that the application reports.
    pub fn handle_app_event(&mut self, event: &AppEvent)
        ensures
            final(self).focus == old(self).focus,
            log_follows(old(self).log@, final(self).log@, *event),
    {
        match event {
            AppEvent::ErrorLog(error) => self.add_error_log(error),
            AppEvent::CommandLog(command) => self.add_command_log(command),
            _ => {},
        }
    }

    /// Follows the focus of its pane.
    pub fn set_focus(&mut self, focus: bool)
        ensures
            final(self).focus == focus,
            final(self).log@ == old(self).log@,
    {
        self.focus = focus;
    }
}

/// A line added to the log is the first line that it shows, and the log
/// never shows more than eight lines.
pub proof fn lemma_newest_line_first(log: Seq<LogLine>, line: LogLine)
    ensures
        visible(log.push(line))[0] == line,
        visible(log.push(line)).len() <= MAX_LOG_LINES,
        visible(log).len() <= MAX_LOG_LINES,
{
}

} // verus!
