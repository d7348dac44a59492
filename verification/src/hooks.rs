//! Hook configuration and event dispatch.
//!
//! A [`HooksConfig`] holds one optional shell command per recognized
//! lifecycle event. Dispatch resolves an incoming event to an ordered plan
//! of configured commands — for paired timer cycles the generic family hook
//! first, then the cycle-specific hook — and a [`Dispatch`] value drives the
//! fail-fast execution of that plan: a spawn failure aborts the remaining
//! commands, while a non-zero exit status is only a warning.

use vstd::prelude::*;

verus! {

/// A named phase within the repeating work/break pattern.
#[derive(Clone, Copy, Debug, PartialEq, Eq, Structural)]
pub enum TimerCycle {
    FirstWork,
    SecondWork,
    FirstShortBreak,
    SecondShortBreak,
    LongBreak,
}

/// A state transition of the external timer engine, carrying the active
/// cycle where relevant.
#[derive(Clone, Copy, Debug, PartialEq, Eq, Structural)]
pub enum TimerEvent {
    Started,
    Stopped,
    Began(TimerCycle),
    Running(TimerCycle),
    Paused(TimerCycle),
    Resumed(TimerCycle),
    Ended(TimerCycle),
}

/// A lifecycle transition of the hosting server process.
#[derive(Clone, Copy, Debug, PartialEq, Eq, Structural)]
pub enum ServerEvent {
    Started,
    Stopping,
    Stopped,
}

/// One optional shell command per meaningful (event kind, cycle scope)
/// pair. Every field is independently optional; absence means "no action".
#[derive(Clone, Debug)]
pub struct HooksConfig {
    pub server_started_hook: Option<String>,
    pub server_stopping_hook: Option<String>,
    pub server_stopped_hook: Option<String>,

    pub timer_started_hook: Option<String>,
    pub timer_stopped_hook: Option<String>,

    pub work_began_hook: Option<String>,
    pub work_running_hook: Option<String>,
    pub work_paused_hook: Option<String>,
    pub work_resumed_hook: Option<String>,
    pub work_ended_hook: Option<String>,

    pub first_work_began_hook: Option<String>,
    pub first_work_running_hook: Option<String>,
    pub first_work_paused_hook: Option<String>,
    pub first_work_resumed_hook: Option<String>,
    pub first_work_ended_hook: Option<String>,

    pub second_work_began_hook: Option<String>,
    pub second_work_running_hook: Option<String>,
    pub second_work_paused_hook: Option<String>,
    pub second_work_resumed_hook: Option<String>,
    pub second_work_ended_hook: Option<String>,

    pub short_break_began_hook: Option<String>,
    pub short_break_running_hook: Option<String>,
    pub short_break_paused_hook: Option<String>,
    pub short_break_resumed_hook: Option<String>,
    pub short_break_ended_hook: Option<String>,

    pub first_short_break_began_hook: Option<String>,
    pub first_short_break_running_hook: Option<String>,
    pub first_short_break_paused_hook: Option<String>,
    pub first_short_break_resumed_hook: Option<String>,
    pub first_short_break_ended_hook: Option<String>,

    pub second_short_break_began_hook: Option<String>,
    pub second_short_break_running_hook: Option<String>,
    pub second_short_break_paused_hook: Option<String>,
    pub second_short_break_resumed_hook: Option<String>,
    pub second_short_break_ended_hook: Option<String>,

    pub long_break_began_hook: Option<String>,
    pub long_break_running_hook: Option<String>,
    pub long_break_paused_hook: Option<String>,
    pub long_break_resumed_hook: Option<String>,
    pub long_break_ended_hook: Option<String>,
}

/// The command views contributed by one optional hook slot: one command if
/// the slot is configured, none otherwise.
pub open spec fn opt_cmds(slot: Option<String>) -> Seq<Seq<char>> {
    match slot {
        Option::Some(cmd) => seq![cmd@],
        Option::None => seq![],
    }
}

/// The generic (family-level) hook slot of a cycle event: shared by both
/// paired variants of a work or short-break phase. `LongBreak` has no
/// generic/specific split, so its single hook stands here. Non-cycle
/// events have no generic slot.
pub open spec fn generic_hook(c: HooksConfig, e: TimerEvent) -> Option<String> {
    match e {
        TimerEvent::Began(cycle) => match cycle {
            TimerCycle::FirstWork | TimerCycle::SecondWork => c.work_began_hook,
            TimerCycle::FirstShortBreak | TimerCycle::SecondShortBreak => c.short_break_began_hook,
            TimerCycle::LongBreak => c.long_break_began_hook,
        },
        TimerEvent::Running(cycle) => match cycle {
            TimerCycle::FirstWork | TimerCycle::SecondWork => c.work_running_hook,
            TimerCycle::FirstShortBreak | TimerCycle::SecondShortBreak => c.short_break_running_hook,
            TimerCycle::LongBreak => c.long_break_running_hook,
        },
        TimerEvent::Paused(cycle) => match cycle {
            TimerCycle::FirstWork | TimerCycle::SecondWork => c.work_paused_hook,
            TimerCycle::FirstShortBreak | TimerCycle::SecondShortBreak => c.short_break_paused_hook,
            TimerCycle::LongBreak => c.long_break_paused_hook,
        },
        TimerEvent::Resumed(cycle) => match cycle {
            TimerCycle::FirstWork | TimerCycle::SecondWork => c.work_resumed_hook,
            TimerCycle::FirstShortBreak | TimerCycle::SecondShortBreak => c.short_break_resumed_hook,
            TimerCycle::LongBreak => c.long_break_resumed_hook,
        },
        TimerEvent::Ended(cycle) => match cycle {
            TimerCycle::FirstWork | TimerCycle::SecondWork => c.work_ended_hook,
            TimerCycle::FirstShortBreak | TimerCycle::SecondShortBreak => c.short_break_ended_hook,
            TimerCycle::LongBreak => c.long_break_ended_hook,
        },
        _ => Option::None,
    }
}

/// The specific hook slot of a cycle event: unique to exactly one paired
/// variant. `LongBreak` and non-cycle events have none.
pub open spec fn specific_hook(c: HooksConfig, e: TimerEvent) -> Option<String> {
    match e {
        TimerEvent::Began(cycle) => match cycle {
            TimerCycle::FirstWork => c.first_work_began_hook,
            TimerCycle::SecondWork => c.second_work_began_hook,
            TimerCycle::FirstShortBreak => c.first_short_break_began_hook,
            TimerCycle::SecondShortBreak => c.second_short_break_began_hook,
            TimerCycle::LongBreak => Option::None,
        },
        TimerEvent::Running(cycle) => match cycle {
            TimerCycle::FirstWork => c.first_work_running_hook,
            TimerCycle::SecondWork => c.second_work_running_hook,
            TimerCycle::FirstShortBreak => c.first_short_break_running_hook,
            TimerCycle::SecondShortBreak => c.second_short_break_running_hook,
            TimerCycle::LongBreak => Option::None,
        },
        TimerEvent::Paused(cycle) => match cycle {
            TimerCycle::FirstWork => c.first_work_paused_hook,
            TimerCycle::SecondWork => c.second_work_paused_hook,
            TimerCycle::FirstShortBreak => c.first_short_break_paused_hook,
            TimerCycle::SecondShortBreak => c.second_short_break_paused_hook,
            TimerCycle::LongBreak => Option::None,
        },
        TimerEvent::Resumed(cycle) => match cycle {
            TimerCycle::FirstWork => c.first_work_resumed_hook,
            TimerCycle::SecondWork => c.second_work_resumed_hook,
            TimerCycle::FirstShortBreak => c.first_short_break_resumed_hook,
            TimerCycle::SecondShortBreak => c.second_short_break_resumed_hook,
            TimerCycle::LongBreak => Option::None,
        },
        TimerEvent::Ended(cycle) => match cycle {
            TimerCycle::FirstWork => c.first_work_ended_hook,
            TimerCycle::SecondWork => c.second_work_ended_hook,
            TimerCycle::FirstShortBreak => c.first_short_break_ended_hook,
            TimerCycle::SecondShortBreak => c.second_short_break_ended_hook,
            TimerCycle::LongBreak => Option::None,
        },
        _ => Option::None,
    }
}

/// The ordered command plan of a timer event: the whole-timer hook for
/// `Started`/`Stopped`, otherwise the generic hook followed by the
/// specific one, skipping absent slots.
pub open spec fn spec_timer_plan(c: HooksConfig, e: TimerEvent) -> Seq<Seq<char>> {
    match e {
        TimerEvent::Started => opt_cmds(c.timer_started_hook),
        TimerEvent::Stopped => opt_cmds(c.timer_stopped_hook),
        _ => opt_cmds(generic_hook(c, e)) + opt_cmds(specific_hook(c, e)),
    }
}

/// The ordered command plan of a server event: exactly one hook slot.
pub open spec fn spec_server_plan(c: HooksConfig, e: ServerEvent) -> Seq<Seq<char>> {
    match e {
        ServerEvent::Started => opt_cmds(c.server_started_hook),
        ServerEvent::Stopping => opt_cmds(c.server_stopping_hook),
        ServerEvent::Stopped => opt_cmds(c.server_stopped_hook),
    }
}

/// The views of a list of commands.
pub open spec fn cmd_views(cmds: Seq<String>) -> Seq<Seq<char>> {
    cmds.map_values(|cmd: String| cmd@)
}

/// The cycle a timer event carries, if any.
pub open spec fn cycle_of(e: TimerEvent) -> Option<TimerCycle> {
    match e {
        TimerEvent::Began(cycle) => Option::Some(cycle),
        TimerEvent::Running(cycle) => Option::Some(cycle),
        TimerEvent::Paused(cycle) => Option::Some(cycle),
        TimerEvent::Resumed(cycle) => Option::Some(cycle),
        TimerEvent::Ended(cycle) => Option::Some(cycle),
        _ => Option::None,
    }
}

/// The plan contributed by a single hook slot.
fn single_plan(slot: &Option<String>) -> (plan: Vec<String>)
    ensures
        cmd_views(plan@) == opt_cmds(*slot),
{
    let mut plan: Vec<String> = Vec::new();
    if let Option::Some(cmd) = slot {
        plan.push(cmd.clone());
    }
    assert(cmd_views(plan@) =~= opt_cmds(*slot));
    plan
}

/// The plan of a paired-cycle event: the generic slot's command first,
/// then the specific slot's, skipping absent slots.
fn pair_plan(generic: &Option<String>, specific: &Option<String>) -> (plan: Vec<String>)
    ensures
        cmd_views(plan@) == opt_cmds(*generic) + opt_cmds(*specific),
{
    let mut plan: Vec<String> = Vec::new();
    if let Option::Some(cmd) = generic {
        plan.push(cmd.clone());
    }
    if let Option::Some(cmd) = specific {
        plan.push(cmd.clone());
    }
    assert(cmd_views(plan@) =~= opt_cmds(*generic) + opt_cmds(*specific));
    plan
}

impl HooksConfig {
    /// The ordered commands to run for a timer event: for `Started` and
    /// `Stopped` the single whole-timer hook, for a cycle event the generic
    /// family hook then the cycle-specific one.
    pub fn timer_plan(&self, event: &TimerEvent) -> (plan: Vec<String>)
        ensures
            cmd_views(plan@) == spec_timer_plan(*self, *event),
    {
        match event {
            TimerEvent::Started => single_plan(&self.timer_started_hook),
            TimerEvent::Stopped => single_plan(&self.timer_stopped_hook),
            TimerEvent::Began(cycle) => match cycle {
                TimerCycle::FirstWork => pair_plan(&self.work_began_hook, &self.first_work_began_hook),
                TimerCycle::SecondWork => pair_plan(&self.work_began_hook, &self.second_work_began_hook),
                TimerCycle::FirstShortBreak => pair_plan(
                    &self.short_break_began_hook,
                    &self.first_short_break_began_hook,
                ),
                TimerCycle::SecondShortBreak => pair_plan(
                    &self.short_break_began_hook,
                    &self.second_short_break_began_hook,
                ),
                TimerCycle::LongBreak => pair_plan(&self.long_break_began_hook, &Option::None),
            },
            TimerEvent::Running(cycle) => match cycle {
                TimerCycle::FirstWork => pair_plan(&self.work_running_hook, &self.first_work_running_hook),
                TimerCycle::SecondWork => pair_plan(&self.work_running_hook, &self.second_work_running_hook),
                TimerCycle::FirstShortBreak => pair_plan(
                    &self.short_break_running_hook,
                    &self.first_short_break_running_hook,
                ),
                TimerCycle::SecondShortBreak => pair_plan(
                    &self.short_break_running_hook,
                    &self.second_short_break_running_hook,
                ),
                TimerCycle::LongBreak => pair_plan(&self.long_break_running_hook, &Option::None),
            },
            TimerEvent::Paused(cycle) => match cycle {
                TimerCycle::FirstWork => pair_plan(&self.work_paused_hook, &self.first_work_paused_hook),
                TimerCycle::SecondWork => pair_plan(&self.work_paused_hook, &self.second_work_paused_hook),
                TimerCycle::FirstShortBreak => pair_plan(
                    &self.short_break_paused_hook,
                    &self.first_short_break_paused_hook,
                ),
                TimerCycle::SecondShortBreak => pair_plan(
                    &self.short_break_paused_hook,
                    &self.second_short_break_paused_hook,
                ),
                TimerCycle::LongBreak => pair_plan(&self.long_break_paused_hook, &Option::None),
            },
            TimerEvent::Resumed(cycle) => match cycle {
                TimerCycle::FirstWork => pair_plan(&self.work_resumed_hook, &self.first_work_resumed_hook),
                TimerCycle::SecondWork => pair_plan(&self.work_resumed_hook, &self.second_work_resumed_hook),
                TimerCycle::FirstShortBreak => pair_plan(
                    &self.short_break_resumed_hook,
                    &self.first_short_break_resumed_hook,
                ),
                TimerCycle::SecondShortBreak => pair_plan(
                    &self.short_break_resumed_hook,
                    &self.second_short_break_resumed_hook,
                ),
                TimerCycle::LongBreak => pair_plan(&self.long_break_resumed_hook, &Option::None),
            },
            TimerEvent::Ended(cycle) => match cycle {
                TimerCycle::FirstWork => pair_plan(&self.work_ended_hook, &self.first_work_ended_hook),
                TimerCycle::SecondWork => pair_plan(&self.work_ended_hook, &self.second_work_ended_hook),
                TimerCycle::FirstShortBreak => pair_plan(
                    &self.short_break_ended_hook,
                    &self.first_short_break_ended_hook,
                ),
                TimerCycle::SecondShortBreak => pair_plan(
                    &self.short_break_ended_hook,
                    &self.second_short_break_ended_hook,
                ),
                TimerCycle::LongBreak => pair_plan(&self.long_break_ended_hook, &Option::None),
            },
        }
    }

    /// The ordered commands to run for a server event: exactly its one
    /// hook slot.
    pub fn server_plan(&self, event: &ServerEvent) -> (plan: Vec<String>)
        ensures
            cmd_views(plan@) == spec_server_plan(*self, *event),
    {
        match event {
            ServerEvent::Started => single_plan(&self.server_started_hook),
            ServerEvent::Stopping => single_plan(&self.server_stopping_hook),
            ServerEvent::Stopped => single_plan(&self.server_stopped_hook),
        }
    }
}

/// Holds when no hook at all is configured.
pub open spec fn no_hooks(c: HooksConfig) -> bool {
    &&& c.server_started_hook is None
    &&& c.server_stopping_hook is None
    &&& c.server_stopped_hook is None
    &&& c.timer_started_hook is None
    &&& c.timer_stopped_hook is None
    &&& c.work_began_hook is None
    &&& c.work_running_hook is None
    &&& c.work_paused_hook is None
    &&& c.work_resumed_hook is None
    &&& c.work_ended_hook is None
    &&& c.first_work_began_hook is None
    &&& c.first_work_running_hook is None
    &&& c.first_work_paused_hook is None
    &&& c.first_work_resumed_hook is None
    &&& c.first_work_ended_hook is None
    &&& c.second_work_began_hook is None
    &&& c.second_work_running_hook is None
    &&& c.second_work_paused_hook is None
    &&& c.second_work_resumed_hook is None
    &&& c.second_work_ended_hook is None
    &&& c.short_break_began_hook is None
    &&& c.short_break_running_hook is None
    &&& c.short_break_paused_hook is None
    &&& c.short_break_resumed_hook is None
    &&& c.short_break_ended_hook is None
    &&& c.first_short_break_began_hook is None
    &&& c.first_short_break_running_hook is None
    &&& c.first_short_break_paused_hook is None
    &&& c.first_short_break_resumed_hook is None
    &&& c.first_short_break_ended_hook is None
    &&& c.second_short_break_began_hook is None
    &&& c.second_short_break_running_hook is None
    &&& c.second_short_break_paused_hook is None
    &&& c.second_short_break_resumed_hook is None
    &&& c.second_short_break_ended_hook is None
    &&& c.long_break_began_hook is None
    &&& c.long_break_running_hook is None
    &&& c.long_break_paused_hook is None
    &&& c.long_break_resumed_hook is None
    &&& c.long_break_ended_hook is None
}

/// With no hook configured at all, every event resolves to the empty
/// command plan: dispatching it spawns no process and succeeds at once.
pub proof fn lemma_no_hooks_empty_plans(c: HooksConfig, te: TimerEvent, se: ServerEvent)
    requires
        no_hooks(c),
    ensures
        spec_timer_plan(c, te).len() == 0,
        spec_server_plan(c, se).len() == 0,
{
}

/// Dispatch is bounded: a timer event runs at most two commands, a server
/// event at most one.
pub proof fn lemma_plan_sizes(c: HooksConfig, te: TimerEvent, se: ServerEvent)
    ensures
        spec_timer_plan(c, te).len() <= 2,
        spec_server_plan(c, se).len() <= 1,
{
}

/// For a paired-cycle event with both its generic and its specific hook
/// configured, the plan is exactly the generic command followed by the
/// specific one, in that order.
pub proof fn lemma_generic_before_specific(c: HooksConfig, e: TimerEvent)
    requires
        cycle_of(e) is Some,
        cycle_of(e) != Option::Some(TimerCycle::LongBreak),
        generic_hook(c, e) is Some,
        specific_hook(c, e) is Some,
    ensures
        spec_timer_plan(c, e) == seq![generic_hook(c, e).unwrap()@, specific_hook(c, e).unwrap()@],
{
    assert(spec_timer_plan(c, e) =~= seq![
        generic_hook(c, e).unwrap()@,
        specific_hook(c, e).unwrap()@,
    ]);
}

/// A long-break event has no generic/specific split: its plan is exactly
/// its single hook slot.
pub proof fn lemma_long_break_single_hook(c: HooksConfig, e: TimerEvent)
    requires
        cycle_of(e) == Option::Some(TimerCycle::LongBreak),
    ensures
        specific_hook(c, e) is None,
        spec_timer_plan(c, e) == opt_cmds(generic_hook(c, e)),
{
    assert(spec_timer_plan(c, e) =~= opt_cmds(generic_hook(c, e)));
}

/// What a single hook command execution reported back.
#[derive(Clone, Copy, Debug, PartialEq, Eq)]
pub enum HookOutcome {
    /// The command interpreter could not be spawned or waited on.
    SpawnFailed,
    /// The command ran to completion with the given exit code; a process
    /// killed by a signal reports no code.
    Exited(Option<i32>),
}

/// Whether an outcome is the propagated, dispatch-aborting error: only a
/// spawn or wait failure is.
pub open spec fn spec_fatal(o: HookOutcome) -> bool {
    o is SpawnFailed
}

/// Whether an outcome deserves a logged warning: exactly a present,
/// non-zero exit code.
pub open spec fn spec_warns(o: HookOutcome) -> bool {
    match o {
        HookOutcome::Exited(Option::Some(code)) => code != 0,
        _ => false,
    }
}

impl HookOutcome {
    /// A spawn or wait failure aborts dispatch; any exit code, or the lack
    /// of one, does not.
    pub fn is_fatal(&self) -> (b: bool)
        ensures
            b == spec_fatal(*self),
    {
        match self {
            HookOutcome::SpawnFailed => true,
            HookOutcome::Exited(_) => false,
        }
    }

    /// A present, non-zero exit code is logged as a warning; exit code
    /// zero and a missing code (killed by a signal) stay silent.
    pub fn should_warn(&self) -> (b: bool)
        ensures
            b == spec_warns(*self),
    {
        match self {
            HookOutcome::Exited(Option::Some(code)) => *code != 0,
            _ => false,
        }
    }
}

/// Fail-fast execution state over one event's command plan.
///
/// The caller repeatedly asks for `next_command`, runs it, and reports the
/// outcome back through `advance`: a fatal outcome cancels every remaining
/// command, while any exit code merely moves past the command that produced
/// it.
pub struct Dispatch {
    plan: Vec<String>,
    next: usize,
    aborted: bool,
}

impl Dispatch {
    /// The cursor sits within the plan.
    pub closed spec fn wf(self) -> bool {
        self.next <= self.plan.len()
    }

    /// The commands still to run, in order; empty once aborted or done.
    pub closed spec fn pending(self) -> Seq<Seq<char>> {
        if self.aborted {
            Seq::empty()
        } else {
            cmd_views(self.plan@).skip(self.next as int)
        }
    }

    /// Whether a fatal outcome has aborted this dispatch.
    pub closed spec fn failed(self) -> bool {
        self.aborted
    }

    /// Start dispatching a timer event: everything the event's plan holds
    /// is pending, and nothing has failed.
    pub fn for_timer(config: &HooksConfig, event: &TimerEvent) -> (d: Dispatch)
        ensures
            d.wf(),
            !d.failed(),
            d.pending() == spec_timer_plan(*config, *event),
    {
        let plan = config.timer_plan(event);
        let d = Dispatch { plan, next: 0, aborted: false };
        assert(d.pending() =~= spec_timer_plan(*config, *event));
        d
    }

    /// Start dispatching a server event.
    pub fn for_server(config: &HooksConfig, event: &ServerEvent) -> (d: Dispatch)
        ensures
            d.wf(),
            !d.failed(),
            d.pending() == spec_server_plan(*config, *event),
    {
        let plan = config.server_plan(event);
        let d = Dispatch { plan, next: 0, aborted: false };
        assert(d.pending() =~= spec_server_plan(*config, *event));
        d
    }

    /// The next command to run, if any remains.
    pub fn next_command(&self) -> (r: Option<String>)
        requires
            self.wf(),
        ensures
            r is Some <==> self.pending().len() > 0,
            (r matches Some(cmd) ==> cmd@ == self.pending()[0]),
    {
        if self.aborted || self.next >= self.plan.len() {
            Option::None
        } else {
            Option::Some(self.plan[self.next].clone())
        }
    }

    /// Whether a fatal outcome has aborted this dispatch: the error the
    /// caller propagates to the engine.
    pub fn has_failed(&self) -> (b: bool)
        ensures
            b == self.failed(),
    {
        self.aborted
    }

    /// Record the outcome of the command just run. A fatal outcome cancels
    /// every remaining command and marks the dispatch failed; any other
    /// outcome moves past exactly one pending command.
    pub fn advance(&mut self, outcome: &HookOutcome)
        requires
            old(self).wf(),
        ensures
            final(self).wf(),
            spec_fatal(*outcome) ==> final(self).pending().len() == 0 && final(self).failed(),
            !spec_fatal(*outcome) ==> final(self).failed() == old(self).failed(),
            !spec_fatal(*outcome) && old(self).pending().len() == 0 ==> final(self).pending()
                == old(self).pending(),
            !spec_fatal(*outcome) && old(self).pending().len() > 0 ==> final(self).pending()
                == old(self).pending().skip(1),
    {
        if outcome.is_fatal() {
            self.aborted = true;
        } else if !self.aborted && self.next < self.plan.len() {
            let ghost before = self.pending();
            self.next = self.next + 1;
            assert(self.pending() =~= before.skip(1));
        }
    }
}

/// Whether the hook runner must use the native Windows command interpreter
/// (`cmd /C`) rather than a POSIX shell (`sh -c`): only on a Windows host
/// that is not running under a POSIX-compatible environment, detected by an
/// environment variable whose value begins with `MINGW`.
pub open spec fn spec_native_shell(on_windows: bool, msystem: Option<String>) -> bool {
    on_windows && !match msystem {
        Option::Some(env) => env@.len() >= 5 && env@.subrange(0, 5) == "MINGW"@,
        Option::None => false,
    }
}

/// Decide which command interpreter runs a hook, from the host kind and
/// the POSIX-environment variable (absent when unset or unreadable).
pub fn use_native_shell(on_windows: bool, msystem: &Option<String>) -> (b: bool)
    ensures
        b == spec_native_shell(on_windows, *msystem),
{
    if !on_windows {
        return false;
    }
    match msystem {
        Option::None => true,
        Option::Some(env) => {
            let n = env.as_str().unicode_len();
            if n < 5 {
                return true;
            }
            let mingw = env.as_str().get_char(0) == 'M' && env.as_str().get_char(1) == 'I'
                && env.as_str().get_char(2) == 'N' && env.as_str().get_char(3) == 'G'
                && env.as_str().get_char(4) == 'W';
            proof {
                reveal_strlit("MINGW");
                let prefix = env@.subrange(0, 5);
                assert(prefix[0] == env@[0] && prefix[1] == env@[1] && prefix[2] == env@[2]
                    && prefix[3] == env@[3] && prefix[4] == env@[4]);
                if mingw {
                    assert(prefix =~= "MINGW"@);
                }
            }
            !mingw
        },
    }
}

/// The interpreter program and its "run string as command" flag: the
/// native Windows interpreter takes `/C`, a POSIX shell takes `-c`.
pub fn shell_invocation(native_shell: bool) -> (r: (String, String))
    ensures
        r.0@ == if native_shell { "cmd"@ } else { "sh"@ },
        r.1@ == if native_shell { "/C"@ } else { "-c"@ },
{
    if native_shell {
        (String::from_str("cmd"), String::from_str("/C"))
    } else {
        (String::from_str("sh"), String::from_str("-c"))
    }
}

impl Default for HooksConfig {
    /// A configuration with every hook absent: dispatching any event
    /// through it runs no command.
    fn default() -> (c: HooksConfig)
        ensures
            no_hooks(c),
    {
        HooksConfig {
            server_started_hook: Option::None,
            server_stopping_hook: Option::None,
            server_stopped_hook: Option::None,
            timer_started_hook: Option::None,
            timer_stopped_hook: Option::None,
            work_began_hook: Option::None,
            work_running_hook: Option::None,
            work_paused_hook: Option::None,
            work_resumed_hook: Option::None,
            work_ended_hook: Option::None,
            first_work_began_hook: Option::None,
            first_work_running_hook: Option::None,
            first_work_paused_hook: Option::None,
            first_work_resumed_hook: Option::None,
            first_work_ended_hook: Option::None,
            second_work_began_hook: Option::None,
            second_work_running_hook: Option::None,
            second_work_paused_hook: Option::None,
            second_work_resumed_hook: Option::None,
            second_work_ended_hook: Option::None,
            short_break_began_hook: Option::None,
            short_break_running_hook: Option::None,
            short_break_paused_hook: Option::None,
            short_break_resumed_hook: Option::None,
            short_break_ended_hook: Option::None,
            first_short_break_began_hook: Option::None,
            first_short_break_running_hook: Option::None,
            first_short_break_paused_hook: Option::None,
            first_short_break_resumed_hook: Option::None,
            first_short_break_ended_hook: Option::None,
            second_short_break_began_hook: Option::None,
            second_short_break_running_hook: Option::None,
            second_short_break_paused_hook: Option::None,
            second_short_break_resumed_hook: Option::None,
            second_short_break_ended_hook: Option::None,
            long_break_began_hook: Option::None,
            long_break_running_hook: Option::None,
            long_break_paused_hook: Option::None,
            long_break_resumed_hook: Option::None,
            long_break_ended_hook: Option::None,
        }
    }
}

} // verus!
