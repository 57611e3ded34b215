//! The development session: what it does when a watched file changes, when the server
//! prints a line, when its process exits and when the user interrupts it.
use vstd::prelude::*;
use vstd::string::*;
use crate::paths::{diffed_path, relative_path};
use crate::strmap::StrMap;
use crate::strs::{
    cat2, contains_str, has_infix, has_prefix, str_eq, trim, trimmed,
};

verus! {

/// What a change to a watched file makes the running server do.
pub enum HotReloadAction {
    /// Run `reload confirm`.
    Reload,
    /// Stop the server and start it again.
    Restart,
    /// Run the given console command.
    RunCommand(String),
}

/// A `HotReloadAction` with its command seen as characters.
pub enum HotReloadActionView {
    Reload,
    Restart,
    RunCommand(Seq<char>),
}

impl View for HotReloadAction {
    type V = HotReloadActionView;

    open spec fn view(&self) -> HotReloadActionView {
        match self {
            HotReloadAction::Reload => HotReloadActionView::Reload,
            HotReloadAction::Restart => HotReloadActionView::Restart,
            HotReloadAction::RunCommand(c) => HotReloadActionView::RunCommand(c@),
        }
    }
}

impl Clone for HotReloadAction {
    fn clone(&self) -> (r: Self)
        ensures
            r@ == self@,
    {
        match self {
            HotReloadAction::Reload => HotReloadAction::Reload,
            HotReloadAction::Restart => HotReloadAction::Restart,
            HotReloadAction::RunCommand(c) => HotReloadAction::RunCommand(c.clone()),
        }
    }
}

impl Default for HotReloadAction {
    fn default() -> (r: Self)
        ensures
            r@ == HotReloadActionView::Reload,
    {
        HotReloadAction::Reload
    }
}

/// Whether `s` equals the lower-case ASCII word `w` up to the case of its letters.
pub open spec fn ascii_ci_eq(s: Seq<char>, w: Seq<char>) -> bool {
    s.len() == w.len() && forall|i: int|
        0 <= i < s.len() ==> (#[trigger] s[i] == w[i] || (s[i] as u32) + 32 == (w[i] as u32))
}

/// The lower-case letters `a` to `z`.
pub open spec fn lower_ascii_word(w: Seq<char>) -> bool {
    forall|i: int| 0 <= i < w.len() ==> 'a' <= #[trigger] w[i] <= 'z'
}

fn eq_ignore_case(s: &str, w: &str) -> (r: bool)
    requires
        lower_ascii_word(w@),
    ensures
        r == ascii_ci_eq(s@, w@),
{
    let n = s.unicode_len();
    if n != w.unicode_len() {
        return false;
    }
    let mut i: usize = 0;
    while i < n
        invariant
            n == s@.len(),
            n == w@.len(),
            i <= n,
            forall|j: int|
                0 <= j < i ==> (#[trigger] s@[j] == w@[j] || (s@[j] as u32) + 32 == (w@[j] as u32)),
        decreases n - i,
    {
        let a = s.get_char(i);
        let b = w.get_char(i);
        if !(a == b || (a as u32) + 32 == (b as u32)) {
            return false;
        }
        i = i + 1;
    }
    true
}

/// How a text is read as an action: `/` and a command runs that command; `reload` and
/// `restart`, in any case, are those actions; anything else is no action.
pub open spec fn parse_action(s: Seq<char>) -> Option<HotReloadActionView> {
    if s.len() > 0 && s[0] == '/' {
        Some(HotReloadActionView::RunCommand(s.drop_first()))
    } else if ascii_ci_eq(s, "reload"@) {
        Some(HotReloadActionView::Reload)
    } else if ascii_ci_eq(s, "restart"@) {
        Some(HotReloadActionView::Restart)
    } else {
        None
    }
}

/// How an action is written.
pub open spec fn action_text(a: HotReloadActionView) -> Seq<char> {
    match a {
        HotReloadActionView::Reload => "reload"@,
        HotReloadActionView::Restart => "restart"@,
        HotReloadActionView::RunCommand(c) => seq!['/'] + c,
    }
}

/// A text that names no action.
#[derive(Debug, PartialEq, Eq, Structural, Clone, Copy)]
pub struct ActionParseError;

impl HotReloadAction {
    /// Reads an action from its text.
    pub fn try_from_text(value: &str) -> (r: Result<HotReloadAction, ActionParseError>)
        ensures
            match r {
                Ok(a) => parse_action(value@) == Some(a@),
                Err(_) => parse_action(value@) is None,
            },
    {
        proof {
            reveal_strlit("reload");
            reveal_strlit("restart");
        }
        let n = value.unicode_len();
        if n > 0 && value.get_char(0) == '/' {
            let rest = value.substring_char(1, n);
            assert(rest@ =~= value@.drop_first());
            Ok(HotReloadAction::RunCommand(rest.to_owned()))
        } else if eq_ignore_case(value, "reload") {
            Ok(HotReloadAction::Reload)
        } else if eq_ignore_case(value, "restart") {
            Ok(HotReloadAction::Restart)
        } else {
            Err(ActionParseError)
        }
    }

    /// The text of this action.
    pub fn to_text(&self) -> (r: String)
        ensures
            r@ == action_text(self@),
    {
        match self {
            HotReloadAction::Reload => "reload".to_owned(),
            HotReloadAction::Restart => "restart".to_owned(),
            HotReloadAction::RunCommand(cmd) => {
                let r = cat2("/", cmd.as_str());
                proof {
                    reveal_strlit("/");
                }
                assert(r@ =~= seq!['/'] + cmd@);
                r
            },
        }
    }
}

/// Reading the text of an action gives the action back.
pub proof fn lemma_action_text_round_trip(a: HotReloadActionView)
    ensures
        parse_action(action_text(a)) == Some(a),
{
    reveal_strlit("reload");
    reveal_strlit("restart");
    match a {
        HotReloadActionView::RunCommand(c) => {
            assert((seq!['/'] + c).drop_first() =~= c);
        },
        HotReloadActionView::Reload => {
            assert("reload"@[0] != '/');
            assert(ascii_ci_eq("reload"@, "reload"@));
        },
        HotReloadActionView::Restart => {
            assert("restart"@[0] != '/');
            assert(!ascii_ci_eq("restart"@, "reload"@));
            assert(ascii_ci_eq("restart"@, "restart"@));
        },
    }
}

/// A watched file pattern and what a change to a matching file does.
pub struct Entry {
    /// A glob pattern, relative to the `config` directory.
    pub path: String,
    pub action: HotReloadAction,
}

/// The hot-reload settings of a server (`hotreload.toml`).
pub struct HotReloadConfig {
    pub path: String,
    pub files: Vec<Entry>,
    pub events: StrMap<HotReloadAction>,
}

impl Default for HotReloadConfig {
    fn default() -> (r: Self)
        ensures
            r.path@ == "./hotreload.toml"@,
            r.events@.len() == 0,
            r.files@.len() == 1,
            r.files@[0].path@ == "server.properties"@,
            r.files@[0].action@ == HotReloadActionView::Reload,
    {
        HotReloadConfig {
            path: "./hotreload.toml".to_owned(),
            events: StrMap::new(),
            files: vec![
                Entry { path: "server.properties".to_owned(), action: HotReloadAction::Reload },
            ],
        }
    }
}

/// Whether glob pattern `pattern` matches `path`, as `glob::Pattern::matches` decides it
/// with its default options; `None` where the pattern is not a valid glob.
pub uninterp spec fn glob_result(pattern: Seq<char>, path: Seq<char>) -> Option<bool>;

/// Whether `glob::Pattern::new` accepts `pattern` as a glob.
pub uninterp spec fn glob_pattern_ok(pattern: Seq<char>) -> bool;

/// `glob::Pattern::new`, asked only whether it accepts the pattern. This depends on the
/// pattern alone and is named `glob_pattern_ok`, with nothing said of which patterns pass.
#[verifier::external_body]
fn glob_valid(pattern: &str) -> (r: bool)
    ensures
        r == glob_pattern_ok(pattern@),
{
    glob::Pattern::new(pattern).is_ok()
}

/// `glob::Pattern::new` then `glob::Pattern::matches`. Both depend on the two strings alone;
/// the result is named `glob_result`, with nothing said of what it is beyond this: it is
/// `None` exactly where `Pattern::new` refuses the pattern.
#[verifier::external_body]
fn glob_match(pattern: &str, path: &str) -> (r: Option<bool>)
    ensures
        r == glob_result(pattern@, path@),
        r is None <==> !glob_pattern_ok(pattern@),
{
    match glob::Pattern::new(pattern) {
        Ok(p) => Some(p.matches(path)),
        Err(_) => None,
    }
}

/// The position of the first entry whose pattern matches `path`.
pub open spec fn first_match(entries: Seq<Entry>, path: Seq<char>, i: int) -> bool {
    0 <= i < entries.len() && glob_result(entries[i].path@, path) == Some(true) && forall|j: int|
        0 <= j < i ==> glob_result(#[trigger] entries[j].path@, path) != Some(true)
}

/// A watched file pattern that is no valid glob: such settings are refused when they are
/// read.
pub struct InvalidPattern {
    /// The position of the entry in the settings' list.
    pub index: usize,
    pub pattern: String,
}

impl HotReloadConfig {
    /// Checks the settings as reading them does: an error for the first entry whose pattern
    /// is no valid glob, where there is one.
    pub fn check_patterns(&self) -> (r: Result<(), InvalidPattern>)
        ensures
            match r {
                Ok(()) => forall|j: int|
                    0 <= j < self.files@.len() ==> glob_pattern_ok(#[trigger] self.files@[j].path@),
                Err(e) => e.index < self.files@.len() && e.pattern@ == self.files@[e.index as int].path@
                    && !glob_pattern_ok(e.pattern@) && forall|j: int|
                    0 <= j < e.index ==> glob_pattern_ok(#[trigger] self.files@[j].path@),
            },
    {
        let mut i: usize = 0;
        while i < self.files.len()
            invariant
                i <= self.files@.len(),
                forall|j: int| 0 <= j < i ==> glob_pattern_ok(#[trigger] self.files@[j].path@),
            decreases self.files@.len() - i,
        {
            if !glob_valid(self.files[i].path.as_str()) {
                return Err(InvalidPattern { index: i, pattern: self.files[i].path.clone() });
            }
            i = i + 1;
        }
        Ok(())
    }
}

/// A step of the development session.
pub enum Command {
    Start,
    EndSession,
    Rebuild,
    SendCommand(String),
    Log(String),
    WaitUntilExit,
    /// Copy the file at this path, relative to the `config` directory, into the output.
    Bootstrap(String),
}

/// A `Command` with its strings seen as characters.
pub enum CommandView {
    Start,
    EndSession,
    Rebuild,
    SendCommand(Seq<char>),
    Log(Seq<char>),
    WaitUntilExit,
    Bootstrap(Seq<char>),
}

impl View for Command {
    type V = CommandView;

    open spec fn view(&self) -> CommandView {
        match self {
            Command::Start => CommandView::Start,
            Command::EndSession => CommandView::EndSession,
            Command::Rebuild => CommandView::Rebuild,
            Command::SendCommand(c) => CommandView::SendCommand(c@),
            Command::Log(m) => CommandView::Log(m@),
            Command::WaitUntilExit => CommandView::WaitUntilExit,
            Command::Bootstrap(p) => CommandView::Bootstrap(p@),
        }
    }
}

/// The views of a list of commands.
pub open spec fn commands_view(cs: Seq<Command>) -> Seq<CommandView> {
    cs.map_values(|c: Command| c@)
}

/// The commands that an action turns into.
pub open spec fn action_commands(a: HotReloadActionView) -> Seq<CommandView> {
    match a {
        HotReloadActionView::Reload => seq![CommandView::SendCommand("reload confirm\n"@)],
        HotReloadActionView::Restart => seq![
            CommandView::SendCommand("stop\nend\n"@),
            CommandView::WaitUntilExit,
            CommandView::Start,
        ],
        HotReloadActionView::RunCommand(c) => seq![CommandView::SendCommand(c + "\n"@)],
    }
}

fn commands_for(a: &HotReloadAction) -> (r: Vec<Command>)
    ensures
        commands_view(r@) == action_commands(a@),
{
    let r = match a {
        HotReloadAction::Reload => vec![Command::SendCommand("reload confirm\n".to_owned())],
        HotReloadAction::Restart => vec![
            Command::SendCommand("stop\nend\n".to_owned()),
            Command::WaitUntilExit,
            Command::Start,
        ],
        HotReloadAction::RunCommand(cmd) => vec![Command::SendCommand(cat2(cmd.as_str(), "\n"))],
    };
    assert(commands_view(r@) =~= action_commands(a@));
    r
}

impl HotReloadConfig {
    /// The position of the first entry whose pattern matches `rel_path`, if any.
    pub fn find_entry(&self, rel_path: &str) -> (r: Option<usize>)
        ensures
            match r {
                Some(i) => first_match(self.files@, rel_path@, i as int),
                None => forall|j: int|
                    0 <= j < self.files@.len() ==> glob_result(
                        #[trigger] self.files@[j].path@,
                        rel_path@,
                    ) != Some(true),
            },
    {
        let mut i: usize = 0;
        while i < self.files.len()
            invariant
                i <= self.files@.len(),
                forall|j: int|
                    0 <= j < i ==> glob_result(#[trigger] self.files@[j].path@, rel_path@) != Some(
                        true,
                    ),
            decreases self.files@.len() - i,
        {
            match glob_match(self.files[i].path.as_str(), rel_path) {
                Some(true) => {
                    return Some(i);
                },
                _ => {},
            }
            i = i + 1;
        }
        None
    }

    /// The commands for a change to the file at `rel_path` (relative to the `config`
    /// directory): copy it into the output, then what the first matching entry asks for.
    pub fn file_changed(&self, rel_path: &str) -> (r: Vec<Command>)
        ensures
            commands_view(r@) == seq![CommandView::Bootstrap(rel_path@)] + match self.find_first(
                rel_path@,
            ) {
                Some(i) => action_commands(self.files@[i].action@),
                None => Seq::<CommandView>::empty(),
            },
    {
        let mut out: Vec<Command> = vec![Command::Bootstrap(rel_path.to_owned())];
        assert(commands_view(out@) =~= seq![CommandView::Bootstrap(rel_path@)]);
        let found = self.find_entry(rel_path);
        proof {
            self.lemma_find_first(rel_path@);
        }
        match found {
            Some(i) => {
                let ghost before = commands_view(out@);
                let mut more = commands_for(&self.files[i].action);
                out.append(&mut more);
                assert(commands_view(out@) =~= before + action_commands(self.files@[i as int].action@));
            },
            None => {},
        }
        out
    }

    /// The commands for a change to the file at `path` under the `config` directory
    /// `base`: those of `file_changed` for its path relative to `base`; `None` where it
    /// cannot be made relative to `base`.
    pub fn config_file_changed(&self, base: &str, path: &str) -> (r: Option<Vec<Command>>)
        ensures
            match diffed_path(path@, base@) {
                Some(rel) => r matches Some(cs) && commands_view(cs@) == seq![
                    CommandView::Bootstrap(rel),
                ] + match self.find_first(rel) {
                    Some(i) => action_commands(self.files@[i].action@),
                    None => Seq::<CommandView>::empty(),
                },
                None => r is None,
            },
    {
        match relative_path(path, base) {
            Some(rel) => Some(self.file_changed(rel.as_str())),
            None => None,
        }
    }

    /// The first entry whose pattern matches `path`, if any.
    pub open spec fn find_first(&self, path: Seq<char>) -> Option<int> {
        if exists|i: int| first_match(self.files@, path, i) {
            Some(choose|i: int| first_match(self.files@, path, i))
        } else {
            None
        }
    }

    proof fn lemma_find_first(&self, path: Seq<char>)
        ensures
            forall|i: int| #[trigger] first_match(self.files@, path, i) ==> self.find_first(path) == Some(i),
            (forall|j: int|
                0 <= j < self.files@.len() ==> glob_result(#[trigger] self.files@[j].path@, path)
                    != Some(true)) ==> self.find_first(path) is None,
    {
        assert forall|i: int| #[trigger] first_match(self.files@, path, i) implies self.find_first(path)
            == Some(i) by {
            let k = choose|k: int| first_match(self.files@, path, k);
            assert(first_match(self.files@, path, k));
            if k < i {
                assert(glob_result(self.files@[k].path@, path) != Some(true));
            } else if i < k {
                assert(glob_result(self.files@[i].path@, path) != Some(true));
            }
        }
    }
}

/// The commands for a change to `server.toml`: when a file was modified, stop the server,
/// build it again and start it.
pub open spec fn servertoml_commands(modified: bool) -> Seq<CommandView> {
    if modified {
        seq![
            CommandView::SendCommand("stop\nend"@),
            CommandView::WaitUntilExit,
            CommandView::Rebuild,
            CommandView::Start,
        ]
    } else {
        Seq::<CommandView>::empty()
    }
}

/// The commands for a change to `server.toml`.
pub fn servertoml_changed(modified: bool) -> (r: Vec<Command>)
    ensures
        commands_view(r@) == servertoml_commands(modified),
{
    let r = if modified {
        vec![
            Command::SendCommand("stop\nend".to_owned()),
            Command::WaitUntilExit,
            Command::Rebuild,
            Command::Start,
        ]
    } else {
        Vec::new()
    };
    assert(commands_view(r@) =~= servertoml_commands(modified));
    r
}

/// The commands that open a session: build, then start.
pub fn session_start_commands() -> (r: Vec<Command>)
    ensures
        commands_view(r@) == seq![CommandView::Rebuild, CommandView::Start],
{
    let r = vec![Command::Rebuild, Command::Start];
    assert(commands_view(r@) =~= seq![CommandView::Rebuild, CommandView::Start]);
    r
}

/// Where the server process stands.
#[derive(Debug, PartialEq, Eq, Structural, Clone, Copy)]
pub enum State {
    Building,
    Starting,
    Online,
    Stopping,
    Stopped,
}

/// How a test run of the server ended.
#[derive(Debug, PartialEq, Eq, Structural, Clone, Copy)]
pub enum TestResult {
    Success,
    Failed,
    Crashed,
}

/// The start of the line that a crashing server prints.
pub open spec fn crashed_line() -> Seq<char> {
    "]: Crashed! The full crash report has been saved to"@
}

/// The line that closes a crash report.
pub open spec fn end_of_report() -> Seq<char> {
    "---- end of report ----"@
}

/// The state of a development session that its decisions read and change.
pub struct SessionState {
    pub state: State,
    pub is_stopping: bool,
    pub is_session_ending: bool,
    pub test_result: TestResult,
    /// Whether the session stops the server once it has started, to test it.
    pub test_mode: bool,
}

/// What happens when a session ends.
pub struct SessionEnd {
    /// Whether a server process still runs and is killed.
    pub kill_child: bool,
    /// The exit code of a test run; none outside test runs.
    pub exit_code: Option<i32>,
}

/// What an interrupt from the user does.
pub enum Interrupt {
    /// End the session now.
    ForceStop,
    /// Stop the server, then end the session with these commands.
    Stop(Vec<Command>),
    /// Nothing: the server is already stopping.
    Ignore,
}

/// How a server output line is judged in a test run: `Some` of the new result when the line
/// decides the test.
pub open spec fn line_verdict(
    s: SessionState,
    line: Seq<char>,
    success_line: Seq<char>,
) -> Option<TestResult> {
    let t = trimmed(line);
    if s.test_mode && !s.is_stopping && s.test_result == TestResult::Failed {
        if has_infix(t, success_line) {
            Some(TestResult::Success)
        } else if has_infix(t, crashed_line()) || t == end_of_report() {
            Some(TestResult::Crashed)
        } else {
            None
        }
    } else {
        None
    }
}

impl SessionState {
    /// A session that has not built anything yet.
    pub fn new(test_mode: bool) -> (r: Self)
        ensures
            r.state == State::Stopped,
            !r.is_stopping,
            !r.is_session_ending,
            r.test_result == TestResult::Failed,
            r.test_mode == test_mode,
    {
        SessionState {
            state: State::Stopped,
            is_stopping: false,
            is_session_ending: false,
            test_result: TestResult::Failed,
            test_mode,
        }
    }

    /// A server process has been started.
    pub fn started(&mut self)
        ensures
            final(self).state == State::Starting,
            final(self).is_stopping == old(self).is_stopping,
            final(self).is_session_ending == old(self).is_session_ending,
            final(self).test_result == old(self).test_result,
            final(self).test_mode == old(self).test_mode,
    {
        self.state = State::Starting;
    }

    /// A `Start` command: a server process is spawned only when none runs, and the
    /// session is then starting; while one runs, nothing happens. Says whether to spawn.
    pub fn start_requested(&mut self, child_running: bool) -> (r: bool)
        ensures
            r == !child_running,
            r ==> final(self).state == State::Starting,
            !r ==> final(self).state == old(self).state,
            final(self).is_stopping == old(self).is_stopping,
            final(self).is_session_ending == old(self).is_session_ending,
            final(self).test_result == old(self).test_result,
            final(self).test_mode == old(self).test_mode,
    {
        if child_running {
            false
        } else {
            self.state = State::Starting;
            true
        }
    }

    /// How the session ends once its loop is over: a server process still running is
    /// killed, and a test run exits with its code.
    pub fn session_end(&self, child_running: bool) -> (r: SessionEnd)
        ensures
            r.kill_child == child_running,
            self.test_mode ==> r.exit_code == Some(if self.test_result == TestResult::Success {
                0i32
            } else {
                1i32
            }),
            !self.test_mode ==> r.exit_code is None,
    {
        SessionEnd { kill_child: child_running, exit_code: self.exit_code() }
    }

    /// The session waits for the server process to exit.
    pub fn stopping(&mut self)
        ensures
            final(self).state == State::Stopping,
            final(self).is_stopping,
            final(self).is_session_ending == old(self).is_session_ending,
            final(self).test_result == old(self).test_result,
            final(self).test_mode == old(self).test_mode,
    {
        self.is_stopping = true;
        self.state = State::Stopping;
    }

    /// The wait for the server process is over.
    pub fn stopped_waiting(&mut self)
        ensures
            !final(self).is_stopping,
            final(self).state == old(self).state,
            final(self).is_session_ending == old(self).is_session_ending,
            final(self).test_result == old(self).test_result,
            final(self).test_mode == old(self).test_mode,
    {
        self.is_stopping = false;
    }

    /// The server is being built.
    pub fn building(&mut self)
        ensures
            final(self).state == State::Building,
            final(self).is_stopping == old(self).is_stopping,
            final(self).is_session_ending == old(self).is_session_ending,
            final(self).test_result == old(self).test_result,
            final(self).test_mode == old(self).test_mode,
    {
        self.state = State::Building;
    }

    /// Judges a line that the server printed. In a test run that is still undecided, a line
    /// holding the success line passes the test (and stops the server with its stop
    /// command); a crash line fails it as a crash. Hands back the commands to run.
    pub fn server_line(&mut self, line: &str, success_line: &str, stop_command: &str) -> (r: Vec<
        Command,
    >)
        ensures
            final(self).is_stopping == old(self).is_stopping,
            final(self).is_session_ending == old(self).is_session_ending,
            final(self).test_mode == old(self).test_mode,
            match line_verdict(*old(self), line@, success_line@) {
                Some(TestResult::Success) => {
                    &&& final(self).test_result == TestResult::Success
                    &&& final(self).state == State::Online
                    &&& commands_view(r@) == seq![
                        CommandView::SendCommand(stop_command@ + "\n"@),
                        CommandView::WaitUntilExit,
                        CommandView::EndSession,
                    ]
                },
                Some(_) => {
                    &&& final(self).test_result == TestResult::Crashed
                    &&& final(self).state == State::Stopping
                    &&& commands_view(r@) == seq![CommandView::WaitUntilExit, CommandView::EndSession]
                },
                None => {
                    &&& final(self).test_result == old(self).test_result
                    &&& final(self).state == old(self).state
                    &&& r@.len() == 0
                },
            },
    {
        proof {
            reveal_strlit("]: Crashed! The full crash report has been saved to");
            reveal_strlit("---- end of report ----");
        }
        let t = trim(line);
        if self.test_mode && !self.is_stopping && self.test_result == TestResult::Failed {
            if contains_str(t, success_line) {
                self.test_result = TestResult::Success;
                self.state = State::Online;
                let r = vec![
                    Command::SendCommand(cat2(stop_command, "\n")),
                    Command::WaitUntilExit,
                    Command::EndSession,
                ];
                assert(commands_view(r@) =~= seq![
                    CommandView::SendCommand(stop_command@ + "\n"@),
                    CommandView::WaitUntilExit,
                    CommandView::EndSession,
                ]);
                return r;
            } else if contains_str(t, "]: Crashed! The full crash report has been saved to")
                || str_eq(t, "---- end of report ----") {
                self.test_result = TestResult::Crashed;
                self.state = State::Stopping;
                let r = vec![Command::WaitUntilExit, Command::EndSession];
                assert(commands_view(r@) =~= seq![CommandView::WaitUntilExit, CommandView::EndSession]);
                return r;
            }
        }
        Vec::new()
    }

    /// The server process has exited; a test run ends with it.
    pub fn child_exited(&mut self) -> (r: Vec<Command>)
        ensures
            !final(self).is_stopping,
            final(self).state == old(self).state,
            final(self).is_session_ending == old(self).is_session_ending,
            final(self).test_result == old(self).test_result,
            final(self).test_mode == old(self).test_mode,
            commands_view(r@) == if old(self).test_mode {
                seq![CommandView::EndSession]
            } else {
                Seq::<CommandView>::empty()
            },
    {
        self.is_stopping = false;
        let r = if self.test_mode {
            vec![Command::EndSession]
        } else {
            Vec::new()
        };
        assert(commands_view(r@) =~= if self.test_mode {
            seq![CommandView::EndSession]
        } else {
            Seq::<CommandView>::empty()
        });
        r
    }

    /// The user interrupted the session: a second interrupt ends it at once; the first
    /// stops the server and then the session, unless the server is already stopping.
    pub fn interrupted(&mut self) -> (r: Interrupt)
        ensures
            final(self).state == old(self).state,
            final(self).is_stopping == old(self).is_stopping,
            final(self).test_result == old(self).test_result,
            final(self).test_mode == old(self).test_mode,
            old(self).is_session_ending ==> r is ForceStop && final(self).is_session_ending,
            !old(self).is_session_ending && !old(self).is_stopping ==> {
                &&& final(self).is_session_ending
                &&& r matches Interrupt::Stop(cs) && commands_view(cs@) == seq![
                    CommandView::SendCommand("stop\nend\n"@),
                    CommandView::WaitUntilExit,
                    CommandView::EndSession,
                ]
            },
            !old(self).is_session_ending && old(self).is_stopping ==> r is Ignore
                && !final(self).is_session_ending,
    {
        if self.is_session_ending {
            Interrupt::ForceStop
        } else if !self.is_stopping {
            self.is_session_ending = true;
            let cs = vec![
                Command::SendCommand("stop\nend\n".to_owned()),
                Command::WaitUntilExit,
                Command::EndSession,
            ];
            assert(commands_view(cs@) =~= seq![
                CommandView::SendCommand("stop\nend\n"@),
                CommandView::WaitUntilExit,
                CommandView::EndSession,
            ]);
            Interrupt::Stop(cs)
        } else {
            Interrupt::Ignore
        }
    }

    /// The exit code of a test run: 0 when it passed, 1 otherwise; none outside test runs.
    pub fn exit_code(&self) -> (r: Option<i32>)
        ensures
            self.test_mode ==> r == Some(if self.test_result == TestResult::Success {
                0i32
            } else {
                1i32
            }),
            !self.test_mode ==> r is None,
    {
        if self.test_mode {
            if self.test_result == TestResult::Success {
                Some(0)
            } else {
                Some(1)
            }
        } else {
            None
        }
    }
}

/// Whether the log of a failed test run shows a crash: the run crashed, or the log holds a
/// crash line.
pub fn is_crash(result: TestResult, latest_log: &str) -> (r: bool)
    ensures
        r == (result == TestResult::Crashed || has_infix(latest_log@, crashed_line())),
{
    if result == TestResult::Crashed {
        true
    } else {
        contains_str(latest_log, "]: Crashed! The full crash report has been saved to")
    }
}


/// A test run is decided once: after its result has changed from failed, or while the server
/// is stopping, or outside test runs, no line decides anything.
pub proof fn lemma_verdict_once(s: SessionState, line: Seq<char>, success_line: Seq<char>)
    requires
        !s.test_mode || s.is_stopping || s.test_result != TestResult::Failed,
    ensures
        line_verdict(s, line, success_line) is None,
{
}

/// In a test run still undecided, a server line that (trimmed) holds the success line
/// passes the test.
pub proof fn lemma_success_line_passes(s: SessionState, line: Seq<char>, success_line: Seq<char>)
    requires
        s.test_mode,
        !s.is_stopping,
        s.test_result == TestResult::Failed,
        has_infix(trimmed(line), success_line),
    ensures
        line_verdict(s, line, success_line) == Some(TestResult::Success),
{
}

/// In a test run still undecided, a server line that (trimmed) holds Minecraft's crash
/// notice `]: Crashed! The full crash report has been saved to`, or is the crash report's
/// last line `---- end of report ----`, and does not hold the success line, fails the test
/// as a crash.
pub proof fn lemma_crash_line_fails(s: SessionState, line: Seq<char>, success_line: Seq<char>)
    requires
        s.test_mode,
        !s.is_stopping,
        s.test_result == TestResult::Failed,
        !has_infix(trimmed(line), success_line),
        has_infix(trimmed(line), "]: Crashed! The full crash report has been saved to"@)
            || trimmed(line) == "---- end of report ----"@,
    ensures
        line_verdict(s, line, success_line) == Some(TestResult::Crashed),
{
}

/// Outside an undecided test run, no line changes the verdict.
pub proof fn lemma_decided_lines_ignored(s: SessionState, line: Seq<char>, success_line: Seq<char>)
    requires
        !s.test_mode || s.is_stopping || s.test_result != TestResult::Failed,
    ensures
        line_verdict(s, line, success_line) is None,
{
}

} // verus!
