//! Running a built server from the command line: which output lines it shows, and when a
//! test run has passed.
use vstd::prelude::*;
use vstd::string::*;
use crate::strs::{ends_with, contains_str, has_infix, has_suffix, pieces_by, split_char, trim, trimmed};

verus! {

/// The lines shown for a chunk of server output: the trimmed chunk cut at line breaks;
/// nothing for a blank chunk.
pub open spec fn shown_lines(buf: Seq<char>) -> Seq<Seq<char>> {
    let t = trimmed(buf);
    if t.len() > 0 {
        pieces_by(t, '\n')
    } else {
        Seq::<Seq<char>>::empty()
    }
}

/// The lines shown for a chunk of server output.
pub fn output_lines(buf: &str) -> (r: Vec<String>)
    ensures
        r.deep_view() == shown_lines(buf@),
{
    let t = trim(buf);
    if t.unicode_len() > 0 {
        split_char(t, '\n')
    } else {
        let r: Vec<String> = Vec::new();
        assert(r.deep_view() =~= Seq::<Seq<char>>::empty());
        r
    }
}

/// Whether a line shows that the server has started.
pub open spec fn started_line(line: Seq<char>) -> bool {
    has_infix(line, "]: Done"@) && has_suffix(line, "For help, type \"help\""@)
}

/// The progress of a test run.
pub struct TestRun {
    pub test_mode: bool,
    /// Whether the server has shown that it started.
    pub passed: bool,
}

impl TestRun {
    /// A test run that has seen nothing yet.
    pub fn new(test_mode: bool) -> (r: Self)
        ensures
            r.test_mode == test_mode,
            !r.passed,
    {
        TestRun { test_mode, passed: false }
    }

    /// Looks at a line of output: the first start line of a test run passes it, and asks to
    /// send the commands that stop the server.
    pub fn on_line(&mut self, line: &str) -> (r: Option<String>)
        ensures
            final(self).test_mode == old(self).test_mode,
            (old(self).test_mode && !old(self).passed && started_line(line@)) ==> (final(self).passed
                && (r matches Some(c) && c@ == "stop\nend\n"@)),
            !(old(self).test_mode && !old(self).passed && started_line(line@)) ==> (final(self).passed
                == old(self).passed && r is None),
    {
        if self.test_mode && !self.passed && contains_str(line, "]: Done") && ends_with(
            line,
            "For help, type \"help\"",
        ) {
            self.passed = true;
            Some("stop\nend\n".to_owned())
        } else {
            None
        }
    }

    /// The outcome of the run once the server has exited: for a test run, whether it passed
    /// (the server exited successfully after starting); nothing otherwise.
    pub fn outcome(&self, exit_success: bool) -> (r: Option<bool>)
        ensures
            self.test_mode ==> r == Some(exit_success && self.passed),
            !self.test_mode ==> r is None,
    {
        if self.test_mode {
            Some(exit_success && self.passed)
        } else {
            None
        }
    }
}

} // verus!
