use entitan::sequence::{
    failed_message, finished_message, is_finished_message, launched_message, pending_action,
    relaunch_failed_message, relaunched_message, role, step, waiting_game_message,
    waiting_relaunch_message, RunAction, RunEvent, RunState, Step, Target,
    GAME_TO_RELAUNCH_SECS, LAUNCHER_TO_GAME_SECS,
};

/// How the third start of a run ends.
#[derive(Clone, Copy)]
enum Outcome {
    Works,
    Fails,
}

/// Drives the machine as a runner would: performs what is asked, with the given
/// outcome for each start in turn, and collects what is said.
fn run(outcomes: &[Outcome]) -> (RunState, Vec<String>, usize, usize) {
    let mut said = Vec::new();
    let mut spawns = 0;
    let mut sleeps = 0;
    let mut current = step(RunState::Idle, RunEvent::Start);
    loop {
        said.extend(current.messages.iter().cloned());
        let event = match current.action {
            RunAction::Done => return (current.state, said, spawns, sleeps),
            RunAction::Sleep => {
                sleeps += 1;
                RunEvent::Tick
            }
            RunAction::Spawn(_) => {
                let outcome = outcomes[spawns];
                spawns += 1;
                match outcome {
                    Outcome::Works => RunEvent::Spawned,
                    Outcome::Fails => RunEvent::SpawnFailed("No such file (os error 2)".to_string()),
                }
            }
        };
        current = step(current.state, event);
    }
}

#[test]
fn a_full_run_says_74_things_in_order() {
    let (state, said, spawns, sleeps) = run(&[Outcome::Works, Outcome::Works, Outcome::Works]);
    assert_eq!(state, RunState::Finished);
    assert_eq!(spawns, 3);
    assert_eq!(sleeps, 70);
    let mut want = vec!["Launched Battle.net".to_string()];
    for n in (1..=10).rev() {
        want.push(format!("Waiting to launch WoW: {}s", n));
    }
    want.push("Launched WoW".to_string());
    for n in (1..=60).rev() {
        want.push(format!("Waiting before re-launching Battle.net: {}s", n));
    }
    want.push("Launched Battle.net (second)".to_string());
    want.push("FINISHED".to_string());
    assert_eq!(want.len(), 74);
    assert_eq!(said, want);
}

#[test]
fn a_failed_first_start_says_two_things() {
    let (state, said, spawns, sleeps) = run(&[Outcome::Fails]);
    assert_eq!(state, RunState::Failed);
    assert_eq!(spawns, 1);
    assert_eq!(sleeps, 0);
    assert_eq!(
        said,
        vec![
            "Failed to launch Battle.net: No such file (os error 2)".to_string(),
            "FINISHED".to_string()
        ]
    );
}

#[test]
fn a_failed_game_start_ends_the_run() {
    let (state, said, spawns, sleeps) = run(&[Outcome::Works, Outcome::Fails]);
    assert_eq!(state, RunState::Failed);
    assert_eq!(spawns, 2);
    assert_eq!(sleeps, 10);
    assert_eq!(said.len(), 13);
    assert_eq!(said[0], "Launched Battle.net");
    assert_eq!(said[1], "Waiting to launch WoW: 10s");
    assert_eq!(said[10], "Waiting to launch WoW: 1s");
    assert_eq!(said[11], "Failed to launch WoW: No such file (os error 2)");
    assert_eq!(said[12], "FINISHED");
}

#[test]
fn a_failed_second_start_still_finishes() {
    let (state, said, spawns, sleeps) = run(&[Outcome::Works, Outcome::Works, Outcome::Fails]);
    assert_eq!(state, RunState::Finished);
    assert_eq!(spawns, 3);
    assert_eq!(sleeps, 70);
    assert_eq!(said.len(), 74);
    assert_eq!(said[72], "Failed to launch Battle.net (second): No such file (os error 2)");
    assert_eq!(said[73], "FINISHED");
}

#[test]
fn the_sentinel_comes_once_and_last() {
    let all = [
        vec![Outcome::Fails],
        vec![Outcome::Works, Outcome::Fails],
        vec![Outcome::Works, Outcome::Works, Outcome::Fails],
        vec![Outcome::Works, Outcome::Works, Outcome::Works],
    ];
    for outcomes in all {
        let (_, said, _, _) = run(&outcomes);
        assert_eq!(said.iter().filter(|m| is_finished_message(m)).count(), 1);
        assert!(is_finished_message(said.last().unwrap()));
    }
}

#[test]
fn each_step_is_as_stated() {
    assert_eq!(
        step(RunState::Idle, RunEvent::Start),
        Step {
            state: RunState::LaunchingA,
            messages: vec![],
            action: RunAction::Spawn(Target::Launcher)
        }
    );
    assert_eq!(
        step(RunState::LaunchingA, RunEvent::Spawned),
        Step {
            state: RunState::CountdownAB(10),
            messages: vec![
                "Launched Battle.net".to_string(),
                "Waiting to launch WoW: 10s".to_string()
            ],
            action: RunAction::Sleep
        }
    );
    assert_eq!(
        step(RunState::CountdownAB(10), RunEvent::Tick),
        Step {
            state: RunState::CountdownAB(9),
            messages: vec!["Waiting to launch WoW: 9s".to_string()],
            action: RunAction::Sleep
        }
    );
    assert_eq!(
        step(RunState::CountdownAB(1), RunEvent::Tick),
        Step {
            state: RunState::LaunchingB,
            messages: vec![],
            action: RunAction::Spawn(Target::Game)
        }
    );
    assert_eq!(
        step(RunState::LaunchingB, RunEvent::Spawned),
        Step {
            state: RunState::CountdownBA(60),
            messages: vec![
                "Launched WoW".to_string(),
                "Waiting before re-launching Battle.net: 60s".to_string()
            ],
            action: RunAction::Sleep
        }
    );
    assert_eq!(
        step(RunState::CountdownBA(2), RunEvent::Tick),
        Step {
            state: RunState::CountdownBA(1),
            messages: vec!["Waiting before re-launching Battle.net: 1s".to_string()],
            action: RunAction::Sleep
        }
    );
    assert_eq!(
        step(RunState::CountdownBA(1), RunEvent::Tick),
        Step {
            state: RunState::RelaunchingA,
            messages: vec![],
            action: RunAction::Spawn(Target::Launcher)
        }
    );
    assert_eq!(
        step(RunState::RelaunchingA, RunEvent::Spawned),
        Step {
            state: RunState::Finished,
            messages: vec!["Launched Battle.net (second)".to_string(), "FINISHED".to_string()],
            action: RunAction::Done
        }
    );
}

#[test]
fn an_event_that_is_not_waited_for_changes_nothing() {
    let states = [
        RunState::Idle,
        RunState::LaunchingA,
        RunState::CountdownAB(5),
        RunState::LaunchingB,
        RunState::CountdownBA(30),
        RunState::RelaunchingA,
        RunState::Finished,
        RunState::Failed,
    ];
    for state in states {
        let events = [
            RunEvent::Start,
            RunEvent::Spawned,
            RunEvent::SpawnFailed("x".to_string()),
            RunEvent::Tick,
        ];
        for event in events {
            let waited_for = match (state, &event) {
                (RunState::Idle, RunEvent::Start) => true,
                (RunState::LaunchingA, RunEvent::Spawned) => true,
                (RunState::LaunchingA, RunEvent::SpawnFailed(_)) => true,
                (RunState::LaunchingB, RunEvent::Spawned) => true,
                (RunState::LaunchingB, RunEvent::SpawnFailed(_)) => true,
                (RunState::RelaunchingA, RunEvent::Spawned) => true,
                (RunState::RelaunchingA, RunEvent::SpawnFailed(_)) => true,
                (RunState::CountdownAB(_), RunEvent::Tick) => true,
                (RunState::CountdownBA(_), RunEvent::Tick) => true,
                _ => false,
            };
            if !waited_for {
                assert_eq!(
                    step(state, event),
                    Step { state, messages: vec![], action: pending_action(state) }
                );
            }
        }
    }
}

#[test]
fn a_run_that_is_over_stays_over() {
    for state in [RunState::Finished, RunState::Failed] {
        assert!(state.is_terminal());
        assert!(!state.is_active());
        assert_eq!(pending_action(state), RunAction::Done);
        let after = step(state, RunEvent::Start);
        assert_eq!(after.state, state);
        assert!(after.messages.is_empty());
    }
    assert!(!RunState::Idle.is_terminal());
    assert!(!RunState::Idle.is_active());
    assert!(RunState::LaunchingA.is_active());
    assert!(RunState::CountdownBA(3).is_active());
}

#[test]
fn the_message_texts() {
    assert_eq!(LAUNCHER_TO_GAME_SECS, 10);
    assert_eq!(GAME_TO_RELAUNCH_SECS, 60);
    assert_eq!(role(Target::Launcher), "Battle.net");
    assert_eq!(role(Target::Game), "WoW");
    assert_eq!(finished_message(), "FINISHED");
    assert_eq!(launched_message(Target::Launcher), "Launched Battle.net");
    assert_eq!(launched_message(Target::Game), "Launched WoW");
    assert_eq!(failed_message(Target::Game, "denied"), "Failed to launch WoW: denied");
    assert_eq!(relaunched_message(), "Launched Battle.net (second)");
    assert_eq!(relaunch_failed_message("denied"), "Failed to launch Battle.net (second): denied");
    assert_eq!(waiting_game_message(10), "Waiting to launch WoW: 10s");
    assert_eq!(waiting_relaunch_message(7), "Waiting before re-launching Battle.net: 7s");
    assert!(is_finished_message("FINISHED"));
    assert!(!is_finished_message("finished"));
    assert!(!is_finished_message("FINISHED "));
}

#[test]
fn a_countdown_outside_its_range_still_ends() {
    let after = step(RunState::CountdownAB(0), RunEvent::Tick);
    assert_eq!(after.state, RunState::LaunchingB);
    let after = step(RunState::CountdownBA(200), RunEvent::Tick);
    assert_eq!(after.state, RunState::CountdownBA(199));
    assert_eq!(after.messages, vec!["Waiting before re-launching Battle.net: 199s".to_string()]);
}
