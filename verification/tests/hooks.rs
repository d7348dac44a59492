use comodoro::hooks::{
    Dispatch, HookOutcome, HooksConfig, ServerEvent, TimerCycle, TimerEvent, shell_invocation,
    use_native_shell,
};

fn cmd(text: &str) -> Option<String> {
    Some(String::from(text))
}

/// Dispatching any event through an empty configuration yields no command
/// and no failure.
#[test]
fn no_hooks_dispatch_is_a_no_op() {
    let config = HooksConfig::default();
    let events = vec![
        TimerEvent::Started,
        TimerEvent::Stopped,
        TimerEvent::Began(TimerCycle::FirstWork),
        TimerEvent::Running(TimerCycle::SecondWork),
        TimerEvent::Paused(TimerCycle::FirstShortBreak),
        TimerEvent::Resumed(TimerCycle::SecondShortBreak),
        TimerEvent::Ended(TimerCycle::LongBreak),
    ];
    for event in events {
        let d = Dispatch::for_timer(&config, &event);
        assert_eq!(d.next_command(), None);
        assert!(!d.has_failed());
    }
    for event in [ServerEvent::Started, ServerEvent::Stopping, ServerEvent::Stopped] {
        let d = Dispatch::for_server(&config, &event);
        assert_eq!(d.next_command(), None);
        assert!(!d.has_failed());
    }
}

/// With both the generic and the specific hook configured, the plan runs
/// the generic command first, then the specific one.
#[test]
fn generic_hook_runs_before_specific() {
    let mut config = HooksConfig::default();
    config.work_began_hook = cmd("generic work");
    config.first_work_began_hook = cmd("first work");
    config.second_work_began_hook = cmd("second work");
    config.short_break_began_hook = cmd("generic break");
    config.first_short_break_began_hook = cmd("first break");
    config.second_short_break_began_hook = cmd("second break");

    let plan = config.timer_plan(&TimerEvent::Began(TimerCycle::FirstWork));
    assert_eq!(plan, vec!["generic work".to_string(), "first work".to_string()]);

    let plan = config.timer_plan(&TimerEvent::Began(TimerCycle::SecondWork));
    assert_eq!(plan, vec!["generic work".to_string(), "second work".to_string()]);

    let plan = config.timer_plan(&TimerEvent::Began(TimerCycle::FirstShortBreak));
    assert_eq!(plan, vec!["generic break".to_string(), "first break".to_string()]);

    let plan = config.timer_plan(&TimerEvent::Began(TimerCycle::SecondShortBreak));
    assert_eq!(plan, vec!["generic break".to_string(), "second break".to_string()]);
}

/// The same generic-then-specific order holds for every cycle event kind.
#[test]
fn every_event_kind_orders_generic_then_specific() {
    let mut config = HooksConfig::default();
    config.work_running_hook = cmd("g running");
    config.first_work_running_hook = cmd("s running");
    config.work_paused_hook = cmd("g paused");
    config.first_work_paused_hook = cmd("s paused");
    config.work_resumed_hook = cmd("g resumed");
    config.first_work_resumed_hook = cmd("s resumed");
    config.work_ended_hook = cmd("g ended");
    config.first_work_ended_hook = cmd("s ended");

    let cycle = TimerCycle::FirstWork;
    assert_eq!(
        config.timer_plan(&TimerEvent::Running(cycle)),
        vec!["g running".to_string(), "s running".to_string()]
    );
    assert_eq!(
        config.timer_plan(&TimerEvent::Paused(cycle)),
        vec!["g paused".to_string(), "s paused".to_string()]
    );
    assert_eq!(
        config.timer_plan(&TimerEvent::Resumed(cycle)),
        vec!["g resumed".to_string(), "s resumed".to_string()]
    );
    assert_eq!(
        config.timer_plan(&TimerEvent::Ended(cycle)),
        vec!["g ended".to_string(), "s ended".to_string()]
    );
}

/// A long break has no generic/specific split: exactly its single hook runs.
#[test]
fn long_break_runs_exactly_one_hook() {
    let mut config = HooksConfig::default();
    config.long_break_began_hook = cmd("long break");
    config.work_began_hook = cmd("generic work");
    config.short_break_began_hook = cmd("generic break");

    let plan = config.timer_plan(&TimerEvent::Began(TimerCycle::LongBreak));
    assert_eq!(plan, vec!["long break".to_string()]);
}

/// Whole-timer and server events resolve to exactly their one hook.
#[test]
fn single_slot_events() {
    let mut config = HooksConfig::default();
    config.timer_started_hook = cmd("timer up");
    config.timer_stopped_hook = cmd("timer down");
    config.server_started_hook = cmd("server up");
    config.server_stopping_hook = cmd("server stopping");
    config.server_stopped_hook = cmd("server down");

    assert_eq!(config.timer_plan(&TimerEvent::Started), vec!["timer up".to_string()]);
    assert_eq!(config.timer_plan(&TimerEvent::Stopped), vec!["timer down".to_string()]);
    assert_eq!(config.server_plan(&ServerEvent::Started), vec!["server up".to_string()]);
    assert_eq!(config.server_plan(&ServerEvent::Stopping), vec!["server stopping".to_string()]);
    assert_eq!(config.server_plan(&ServerEvent::Stopped), vec!["server down".to_string()]);
}

/// A configured hook missing its partner still runs alone.
#[test]
fn lone_hooks_still_run() {
    let mut config = HooksConfig::default();
    config.first_work_began_hook = cmd("specific only");
    assert_eq!(
        config.timer_plan(&TimerEvent::Began(TimerCycle::FirstWork)),
        vec!["specific only".to_string()]
    );

    let mut config = HooksConfig::default();
    config.work_began_hook = cmd("generic only");
    assert_eq!(
        config.timer_plan(&TimerEvent::Began(TimerCycle::FirstWork)),
        vec!["generic only".to_string()]
    );
}

/// If the generic hook's command fails to spawn, the specific hook is never
/// handed out, and the dispatch reports the failure.
#[test]
fn spawn_failure_cancels_remaining_hooks() {
    let mut config = HooksConfig::default();
    config.work_began_hook = cmd("generic work");
    config.first_work_began_hook = cmd("first work");

    let mut d = Dispatch::for_timer(&config, &TimerEvent::Began(TimerCycle::FirstWork));
    assert_eq!(d.next_command(), Some("generic work".to_string()));
    d.advance(&HookOutcome::SpawnFailed);
    assert_eq!(d.next_command(), None);
    assert!(d.has_failed());
}

/// A hook exiting with status 7 is only a warning: the next hook still
/// runs and no error is propagated.
#[test]
fn nonzero_exit_does_not_stop_dispatch() {
    let mut config = HooksConfig::default();
    config.work_began_hook = cmd("generic work");
    config.first_work_began_hook = cmd("first work");

    let mut d = Dispatch::for_timer(&config, &TimerEvent::Began(TimerCycle::FirstWork));
    assert_eq!(d.next_command(), Some("generic work".to_string()));

    let outcome = HookOutcome::Exited(Some(7));
    assert!(!outcome.is_fatal());
    assert!(outcome.should_warn());
    d.advance(&outcome);

    assert!(!d.has_failed());
    assert_eq!(d.next_command(), Some("first work".to_string()));
    d.advance(&HookOutcome::Exited(Some(0)));
    assert_eq!(d.next_command(), None);
    assert!(!d.has_failed());
}

/// Exit code zero and a missing exit code (killed by a signal) are silent:
/// no warning, no error.
#[test]
fn quiet_outcomes() {
    let ok = HookOutcome::Exited(Some(0));
    assert!(!ok.is_fatal());
    assert!(!ok.should_warn());

    let killed = HookOutcome::Exited(None);
    assert!(!killed.is_fatal());
    assert!(!killed.should_warn());

    let failed = HookOutcome::SpawnFailed;
    assert!(failed.is_fatal());
    assert!(!failed.should_warn());
}

/// The native interpreter is chosen only on a Windows host outside a
/// POSIX-compatible environment.
#[test]
fn interpreter_selection() {
    assert!(!use_native_shell(false, &None));
    assert!(!use_native_shell(false, &Some("MINGW64".to_string())));
    assert!(use_native_shell(true, &None));
    assert!(!use_native_shell(true, &Some("MINGW64".to_string())));
    assert!(!use_native_shell(true, &Some("MINGW32".to_string())));
    assert!(use_native_shell(true, &Some("MSYS".to_string())));
    assert!(use_native_shell(true, &Some("MING".to_string())));
    assert!(use_native_shell(true, &Some("".to_string())));

    let (program, flag) = shell_invocation(true);
    assert_eq!(program, "cmd".to_string());
    assert_eq!(flag, "/C".to_string());
    let (program, flag) = shell_invocation(false);
    assert_eq!(program, "sh".to_string());
    assert_eq!(flag, "-c".to_string());
}
