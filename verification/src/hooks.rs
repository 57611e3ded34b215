//! Hooks: scripts that run when something happens to a server, and which of them run.
use vstd::prelude::*;
use crate::downloadable::opt_view;
use crate::lockfile::{join_path, joined_path};
use crate::strmap::{lookup, StrMap};
use crate::strs::str_eq;

verus! {

/// The moments at which hooks can run.
#[derive(Debug, PartialEq, Eq, Structural, Clone, Copy, Hash)]
pub enum HookEvent {
    NoEvent,
    PreBuild,
    PostBuild,
    PreInstall,
    PostInstall,
    PreWorldUnpack,
    PostWorldUnpack,
    PreWorldPack,
    PostWorldPack,
    DevSessionStart,
    DevSessionEnd,
    TestSuccess,
    TestFail,
}

impl Default for HookEvent {
    fn default() -> (r: Self)
        ensures
            r == HookEvent::NoEvent,
    {
        HookEvent::NoEvent
    }
}

/// What a failing hook does to the operation that ran it.
#[derive(Debug, PartialEq, Eq, Structural, Clone, Copy, Hash)]
pub enum HookFailBehavior {
    Error,
    Ignore,
    Warn,
}

impl Default for HookFailBehavior {
    fn default() -> (r: Self)
        ensures
            r == HookFailBehavior::Error,
    {
        HookFailBehavior::Error
    }
}

/// A hook: when it runs, what its failure means, and the script to run on each platform.
pub struct Hook {
    pub when: HookEvent,
    pub onfail: HookFailBehavior,
    pub show_output: bool,
    pub description: String,
    pub disabled: bool,
    /// Environment variables for the script, in order.
    pub env: StrMap<String>,
    pub windows: Option<String>,
    pub linux: Option<String>,
}

impl Default for Hook {
    fn default() -> (r: Self)
        ensures
            r.when == HookEvent::NoEvent,
            r.onfail == HookFailBehavior::Error,
            !r.show_output,
            r.description@ == Seq::<char>::empty(),
            !r.disabled,
            r.env@ == Seq::<(String, String)>::empty(),
            r.windows is None,
            r.linux is None,
    {
        Hook {
            when: HookEvent::NoEvent,
            onfail: HookFailBehavior::Error,
            show_output: false,
            description: String::new(),
            disabled: false,
            env: StrMap::new(),
            windows: None,
            linux: None,
        }
    }
}

/// `true`: hooks show their output unless told otherwise.
pub fn bool_true() -> (r: bool)
    ensures
        r,
{
    true
}

/// The hook named `entry`: the server's, else the network's.
pub open spec fn find_hook(
    server_hooks: Seq<(String, Hook)>,
    network_hooks: Option<Seq<(String, Hook)>>,
    entry: Seq<char>,
) -> Option<Hook> {
    match lookup(server_hooks, entry) {
        Some(h) => Some(h),
        None => match network_hooks {
            Some(n) => lookup(n, entry),
            None => None,
        },
    }
}

/// The script file of a hook on an OS family (`"windows"` or `"unix"`): the one the hook
/// names for it, else the hook's own name.
pub open spec fn hook_file(h: Hook, family: Seq<char>, entry: Seq<char>) -> Seq<char> {
    let named = if family == "windows"@ {
        opt_view(h.windows)
    } else if family == "unix"@ {
        opt_view(h.linux)
    } else {
        None
    };
    match named {
        Some(f) => f,
        None => entry,
    }
}

/// The hooks of a server and of its network, if it has one.
pub struct HooksAPI<'a> {
    pub server_hooks: &'a StrMap<Hook>,
    pub network_hooks: Option<&'a StrMap<Hook>>,
}

impl<'a> HooksAPI<'a> {
    /// The network's hooks, as plain values.
    pub open spec fn network_view(&self) -> Option<Seq<(String, Hook)>> {
        match self.network_hooks {
            Some(n) => Some(n@),
            None => None,
        }
    }

    /// The script file of the hook named `entry` on OS family `family` (`"windows"` or
    /// `"unix"`).
    pub fn resolve_filename(&self, entry: &str, family: &str) -> (r: String)
        requires
            find_hook(self.server_hooks@, self.network_view(), entry@) is Some,
        ensures
            r@ == hook_file(
                find_hook(self.server_hooks@, self.network_view(), entry@)->0,
                family@,
                entry@,
            ),
    {
        resolve_hook_file(self.server_hooks, self.network_hooks, entry, family)
    }

    /// The names of the hooks that run at `event`: the server's first, then the network's.
    pub fn hooks_for(&self, event: HookEvent) -> (r: Vec<String>)
        ensures
            r.deep_view() == names_at(self.server_hooks@, event) + match self.network_hooks {
                Some(n) => names_at(n@, event),
                None => Seq::<Seq<char>>::empty(),
            },
    {
        hooks_for_event(self.server_hooks, self.network_hooks, event)
    }
}

fn resolve_hook_file(
    server_hooks: &StrMap<Hook>,
    network_hooks: Option<&StrMap<Hook>>,
    entry: &str,
    family: &str,
) -> (r: String)
    requires
        find_hook(
            server_hooks@,
            match network_hooks {
                Some(n) => Some(n@),
                None => None,
            },
            entry@,
        ) is Some,
    ensures
        r@ == hook_file(
            find_hook(
                server_hooks@,
                match network_hooks {
                    Some(n) => Some(n@),
                    None => None,
                },
                entry@,
            )->0,
            family@,
            entry@,
        ),
{
    let hook = match server_hooks.get(entry) {
        Some(h) => h,
        None => match network_hooks {
            Some(n) => match n.get(entry) {
                Some(h) => h,
                None => {
                    proof {
                        assert(false);
                    }
                    return entry.to_owned();
                },
            },
            None => {
                proof {
                    assert(false);
                }
                return entry.to_owned();
            },
        },
    };
    let named = if str_eq(family, "windows") {
        match &hook.windows {
            Some(f) => Some(f.clone()),
            None => None,
        }
    } else if str_eq(family, "unix") {
        match &hook.linux {
            Some(f) => Some(f.clone()),
            None => None,
        }
    } else {
        None
    };
    match named {
        Some(f) => f,
        None => entry.to_owned(),
    }
}

/// Whether a hook runs at `event`.
pub open spec fn runs_at(h: Hook, event: HookEvent) -> bool {
    !h.disabled && h.when == event
}

/// The names of the hooks of `hooks` that run at `event`, in order.
pub open spec fn names_at(hooks: Seq<(String, Hook)>, event: HookEvent) -> Seq<Seq<char>> {
    hooks.filter(|e: (String, Hook)| runs_at(e.1, event)).map_values(|e: (String, Hook)| e.0@)
}

fn push_names_at(out: &mut Vec<String>, hooks: &StrMap<Hook>, event: HookEvent)
    ensures
        final(out).deep_view() == old(out).deep_view() + names_at(hooks@, event),
{
    let ghost start = out.deep_view();
    let ghost hs = hooks@;
    let ghost pred = |e: (String, Hook)| runs_at(e.1, event);
    let mut i: usize = 0;
    assert(hs.take(0).filter(pred) =~= Seq::<(String, Hook)>::empty()) by {
        reveal(Seq::filter);
    }
    while i < hooks.len()
        invariant
            hs == hooks@,
            pred == (|e: (String, Hook)| runs_at(e.1, event)),
            i <= hs.len(),
            out.deep_view() =~= start + hs.take(i as int).filter(pred).map_values(
                |e: (String, Hook)| e.0@,
            ),
        decreases hs.len() - i,
    {
        let (name, hook) = hooks.entry_at(i);
        proof {
            crate::strs::lemma_filter_push(hs.take(i as int), pred, hs[i as int]);
            assert(hs.take(i + 1) =~= hs.take(i as int).push(hs[i as int]));
        }
        if !hook.disabled && hook.when == event {
            let ghost before = out.deep_view();
            out.push(name.clone());
            proof {
                let f = hs.take(i as int).filter(pred);
                assert(f.push(hs[i as int]).map_values(|e: (String, Hook)| e.0@) =~= f.map_values(
                    |e: (String, Hook)| e.0@,
                ).push(hs[i as int].0@));
                assert(out.deep_view() =~= before.push(name@));
            }
        }
        i = i + 1;
    }
    assert(hs.take(hs.len() as int) =~= hs);
}

fn hooks_for_event(
    server_hooks: &StrMap<Hook>,
    network_hooks: Option<&StrMap<Hook>>,
    event: HookEvent,
) -> (r: Vec<String>)
    ensures
        r.deep_view() == names_at(server_hooks@, event) + match network_hooks {
            Some(n) => names_at(n@, event),
            None => Seq::<Seq<char>>::empty(),
        },
{
    let mut out: Vec<String> = Vec::new();
    push_names_at(&mut out, server_hooks, event);
    match network_hooks {
        Some(n) => {
            push_names_at(&mut out, n, event);
        },
        None => {},
    }
    assert(out.deep_view() =~= names_at(server_hooks@, event) + match network_hooks {
        Some(n) => names_at(n@, event),
        None => Seq::<Seq<char>>::empty(),
    });
    out
}

/// What happens after a hook's script has exited.
#[derive(Debug, PartialEq, Eq, Structural, Clone, Copy)]
pub enum HookOutcome {
    /// It succeeded.
    Succeeded,
    /// It failed and that is ignored.
    Ignored,
    /// It failed and a warning is shown; the operation goes on.
    Warned,
    /// It failed and the operation fails.
    Failed,
}

/// The outcome of a hook whose script exited successfully or not.
pub open spec fn outcome_of(success: bool, onfail: HookFailBehavior) -> HookOutcome {
    if success {
        HookOutcome::Succeeded
    } else {
        match onfail {
            HookFailBehavior::Ignore => HookOutcome::Ignored,
            HookFailBehavior::Warn => HookOutcome::Warned,
            HookFailBehavior::Error => HookOutcome::Failed,
        }
    }
}

/// The outcome of a hook whose script exited successfully or not.
pub fn hook_outcome(success: bool, onfail: HookFailBehavior) -> (r: HookOutcome)
    ensures
        r == outcome_of(success, onfail),
{
    if success {
        HookOutcome::Succeeded
    } else {
        match onfail {
            HookFailBehavior::Ignore => HookOutcome::Ignored,
            HookFailBehavior::Warn => HookOutcome::Warned,
            HookFailBehavior::Error => HookOutcome::Failed,
        }
    }
}

/// A step of running the hooks of an event: a hook whose script is missing is skipped with
/// a warning; one that ran has an outcome.
#[derive(Debug, PartialEq, Eq, Structural, Clone, Copy)]
pub enum HookStep {
    NotFound,
    Ran(HookOutcome),
}

/// The step for a hook, given whether its script exists and, if it ran, whether it exited
/// successfully.
pub open spec fn step_of(script_exists: bool, success: bool, onfail: HookFailBehavior) -> HookStep {
    if script_exists {
        HookStep::Ran(outcome_of(success, onfail))
    } else {
        HookStep::NotFound
    }
}

/// The step for a hook, given whether its script exists and, if it ran, whether it exited
/// successfully (`success` is not read for a missing script).
pub fn hook_step(script_exists: bool, success: bool, onfail: HookFailBehavior) -> (r: HookStep)
    ensures
        r == step_of(script_exists, success, onfail),
{
    if script_exists {
        HookStep::Ran(hook_outcome(success, onfail))
    } else {
        HookStep::NotFound
    }
}

/// Whether the event stops at this step, failing: only a hook that failed with
/// `Error` as its failure behaviour stops it; the other hooks of the event run after any
/// other step.
pub fn stops_event(step: HookStep) -> (r: bool)
    ensures
        r == (step == HookStep::Ran(HookOutcome::Failed)),
{
    match step {
        HookStep::Ran(HookOutcome::Failed) => true,
        _ => false,
    }
}

impl<'a> HooksAPI<'a> {
    /// The script of the hook named `entry` on OS family `family`: the file that
    /// `resolve_filename` gives, in the `hooks` directory of the server at `server_path`.
    pub fn hook_path(&self, server_path: &str, entry: &str, family: &str) -> (r: String)
        requires
            find_hook(self.server_hooks@, self.network_view(), entry@) is Some,
        ensures
            r@ == joined_path(
                joined_path(server_path@, "hooks"@),
                hook_file(find_hook(self.server_hooks@, self.network_view(), entry@)->0, family@, entry@),
            ),
    {
        let dir = join_path(server_path, "hooks");
        let file = self.resolve_filename(entry, family);
        join_path(dir.as_str(), file.as_str())
    }
}

} // verus!
