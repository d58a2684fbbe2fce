//! Progress shown with three dots: `task... 42.00 % [00:03] info`.

use vstd::prelude::*;

use crate::codes::{CUR_LOAD, CUR_SAVE, ERASE_TO_END};
use crate::progress::duration::{duration_text, duration_to_string, TimeSpan};
use crate::text::{push_char, push_str};

verus! {

/// A progress line with three dots after the task.
pub struct Dots {
    /// Whether the line is cleared after it is shown, so that other output
    /// printed later takes its place.
    pub log: bool,
    /// The text drawn last.
    pub buf: String,
}

impl Default for Dots {
    fn default() -> (d: Self)
        ensures
            d.log,
            d.buf@ == Seq::<char>::empty(),
    {
        Dots { log: true, buf: String::new() }
    }
}

/// A progress line: the task and three dots, then the percentage when known,
/// the time when given and the additional information when there is some.
pub open spec fn dots_text(
    done: Option<Seq<char>>,
    task: Seq<char>,
    info: Seq<char>,
    eta: Option<TimeSpan>,
) -> Seq<char> {
    task + "..."@ + (match done {
        Some(p) => " \x1b[96m"@ + p + " %\x1b[0m"@,
        None => seq![],
    }) + (match eta {
        Some(t) => " [\x1b[95m"@ + duration_text(t, true) + "\x1b[0m]"@,
        None => seq![],
    }) + (if info.len() > 0 {
        seq![' '] + info
    } else {
        seq![]
    })
}

/// The percentage as text, when known.
pub open spec fn percent_view(done: Option<&str>) -> Option<Seq<char>> {
    match done {
        Some(p) => Some(p@),
        None => None,
    }
}

/// The info shown when a task is done.
pub open spec fn done_info() -> Seq<char> {
    "\x1b[92mDone!\x1b[0m"@
}

/// The info shown when a task failed.
pub open spec fn failed_info() -> Seq<char> {
    "\x1b[91mFailed!\x1b[0m"@
}

impl Dots {
    /// Appends the progress line; `done` is the percentage as text (such as
    /// `42.00`), `None` when unknown.
    pub fn format_progress(
        &mut self,
        done: Option<&str>,
        task: &str,
        info: &str,
        eta: Option<TimeSpan>,
    )
        requires
            match eta {
                Some(t) => t.nanos < 1_000_000_000,
                None => true,
            },
        ensures
            final(self).buf@ == old(self).buf@ + dots_text(percent_view(done), task@, info@, eta),
            final(self).log == old(self).log,
    {
        let ghost start = self.buf@;
        push_str(&mut self.buf, task);
        push_str(&mut self.buf, "...");
        let ghost b1 = self.buf@;
        match done {
            Some(p) => {
                push_str(&mut self.buf, " \x1b[96m");
                push_str(&mut self.buf, p);
                push_str(&mut self.buf, " %\x1b[0m");
            },
            None => {},
        }
        let ghost b2 = self.buf@;
        match eta {
            Some(t) => {
                push_str(&mut self.buf, " [\x1b[95m");
                duration_to_string(t, true, &mut self.buf);
                push_str(&mut self.buf, "\x1b[0m]");
            },
            None => {},
        }
        let ghost b3 = self.buf@;
        if info.unicode_len() > 0 {
            push_char(&mut self.buf, ' ');
            push_str(&mut self.buf, info);
        }
        assert(self.buf@ =~= start + dots_text(percent_view(done), task@, info@, eta));
    }

    /// Replaces the buffer with the frame that shows the progress: it erases
    /// to the end of the screen, saves the cursor, draws the line and puts
    /// the cursor back. Printing the frame is left to the caller.
    pub fn show_progress(&mut self, done: Option<&str>, task: &str, info: &str, eta: Option<TimeSpan>)
        requires
            match eta {
                Some(t) => t.nanos < 1_000_000_000,
                None => true,
            },
        ensures
            final(self).buf@ == ERASE_TO_END@ + CUR_SAVE@ + dots_text(percent_view(done), task@, info@, eta)
                + CUR_LOAD@,
            final(self).log == old(self).log,
    {
        self.buf = String::new();
        push_str(&mut self.buf, ERASE_TO_END);
        push_str(&mut self.buf, CUR_SAVE);
        self.format_progress(done, task, info, eta);
        push_str(&mut self.buf, CUR_LOAD);
    }

    /// Replaces the buffer with the final line of a finished task:
    /// `task... Done!` after erasing to the end of the screen.
    pub fn finish(&mut self, task: &str)
        ensures
            final(self).buf@ == ERASE_TO_END@ + dots_text(None, task@, done_info(), None),
            final(self).log == old(self).log,
    {
        self.buf = String::new();
        push_str(&mut self.buf, ERASE_TO_END);
        self.format_progress(None, task, "\x1b[92mDone!\x1b[0m", None);
    }

    /// Replaces the buffer with the final lines of a failed task:
    /// `task... Failed!` after erasing to the end of the screen, then the
    /// error on a line of its own.
    pub fn fail(&mut self, task: &str, err: &str)
        ensures
            final(self).buf@ == ERASE_TO_END@ + dots_text(None, task@, failed_info(), None)
                + "\n\x1b[91merror:\x1b[0m "@ + err@,
            final(self).log == old(self).log,
    {
        self.buf = String::new();
        push_str(&mut self.buf, ERASE_TO_END);
        self.format_progress(None, task, "\x1b[91mFailed!\x1b[0m", None);
        push_str(&mut self.buf, "\n\x1b[91merror:\x1b[0m ");
        push_str(&mut self.buf, err);
    }
}

} // verus!
