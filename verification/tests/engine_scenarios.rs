//! Driving the dispatch engine through whole batches.

use bulk_runner::bot::{Bot, BotStatus, BotStatusReady};
use bulk_runner::engine::DispatchEngine;
use bulk_runner::error::Error;
use bulk_runner::packets::Packet;

fn idle_bot(name: &str) -> Bot {
    Bot {
        name: name.to_string(),
        status: BotStatus::Ready(BotStatusReady::Idle),
    }
}

fn batch(names: &[&str]) -> Vec<Packet> {
    names
        .iter()
        .map(|n| Packet::new(idle_bot(n), "JobA".to_string()))
        .collect()
}

/// Runs the whole batch in admission waves: each wave admits every queued job
/// the budget allows, runs those processes to completion (with the given
/// per-job exit results), and reports them.  Returns the number of waves.
fn run_in_waves(engine: &mut DispatchEngine, exits: &[bool], peak: &mut usize) -> usize {
    let n = exits.len();
    let mut waves = 0;
    while !engine.is_complete() {
        waves += 1;
        let mut admitted = Vec::new();
        for i in 0..n {
            if engine.try_admit(i) {
                admitted.push(i);
            }
        }
        assert!(!admitted.is_empty(), "engine incomplete but nothing admitted");
        for &i in &admitted {
            engine.mark_spawned(i);
            let running = engine.running();
            if running > *peak {
                *peak = running;
            }
        }
        for &i in &admitted {
            engine.mark_exited(i, exits[i]);
            engine.report(i, format!("job {}", i).into_bytes());
        }
    }
    waves
}

#[test]
fn empty_batch_completes_immediately() {
    let engine = DispatchEngine::new(Vec::new(), 2);
    assert!(engine.is_complete());
    assert_eq!(engine.successes(), 0);
    assert_eq!(engine.failures(), 0);
    assert!(engine.diagnostics().is_empty());
    assert_eq!(engine.permits_in_use(), 0);
}

#[test]
fn missing_executable_refuses_whole_batch() {
    let jobs = batch(&["A", "B"]);
    let refused = DispatchEngine::start_batch(false, jobs, 2);
    assert!(matches!(refused, Err(Error::AutomateCNotFound)));

    let jobs = batch(&["A", "B"]);
    let started = DispatchEngine::start_batch(true, jobs, 2).unwrap();
    assert_eq!(started.permits_in_use(), 0);
    assert_eq!(started.outcomes.len(), 0);
}

#[test]
fn five_jobs_budget_two_take_three_waves() {
    let jobs = batch(&["A", "B", "C", "D", "E"]);
    let mut engine = DispatchEngine::new(jobs, 2);
    let mut peak = 0;
    let waves = run_in_waves(&mut engine, &[true, true, true, true, true], &mut peak);
    assert_eq!(waves, 3);
    assert_eq!(engine.successes(), 5);
    assert_eq!(engine.failures(), 0);
    assert!(peak <= 2);
}

#[test]
fn five_sleeping_jobs_with_budget_two_need_three_waves_of_wall_time() {
    let rt = tokio::runtime::Builder::new_multi_thread()
        .worker_threads(4)
        .enable_time()
        .build()
        .unwrap();
    let jobs = batch(&["A", "B", "C", "D", "E"]);
    let engine = std::sync::Arc::new(std::sync::Mutex::new(DispatchEngine::new(jobs, 2)));
    let start = std::time::Instant::now();
    rt.block_on(async {
        let mut handles = Vec::new();
        for i in 0..5 {
            let engine = engine.clone();
            handles.push(tokio::spawn(async move {
                loop {
                    let admitted = { engine.lock().unwrap().try_admit(i) };
                    if admitted {
                        break;
                    }
                    tokio::time::sleep(std::time::Duration::from_millis(1)).await;
                }
                {
                    engine.lock().unwrap().mark_spawned(i);
                }
                // The fake runner: each job sleeps ten milliseconds and
                // exits cleanly.
                tokio::time::sleep(std::time::Duration::from_millis(10)).await;
                {
                    engine.lock().unwrap().mark_exited(i, true);
                }
                engine.lock().unwrap().report(i, Vec::new());
            }));
        }
        for h in handles {
            h.await.unwrap();
        }
    });
    let elapsed = start.elapsed();
    let engine = std::sync::Arc::try_unwrap(engine).unwrap().into_inner().unwrap();
    assert!(engine.is_complete());
    assert_eq!(engine.successes(), 5);
    assert_eq!(engine.failures(), 0);
    // Two permits force three sequential admission waves: one of the two
    // permit holders must run three of the five ten-millisecond jobs.
    assert!(elapsed >= std::time::Duration::from_millis(30));
}

#[test]
fn budget_is_never_exceeded() {
    let jobs = batch(&["A", "B", "C", "D", "E", "F", "G"]);
    let mut engine = DispatchEngine::new(jobs, 3);
    let mut peak = 0;
    run_in_waves(&mut engine, &[true; 7], &mut peak);
    assert!(peak <= 3);
    assert_eq!(engine.successes(), 7);
}

#[test]
fn one_outcome_per_job_without_duplicates() {
    let jobs = batch(&["A", "B", "C", "D"]);
    let mut engine = DispatchEngine::new(jobs, 2);
    let mut peak = 0;
    run_in_waves(&mut engine, &[true, false, true, false], &mut peak);
    assert!(engine.is_complete());
    assert_eq!(engine.outcomes.len(), 4);
    let mut seen = vec![false; 4];
    for (job, _) in &engine.outcomes {
        assert!(!seen[*job], "job {} reported twice", job);
        seen[*job] = true;
    }
    assert!(seen.iter().all(|s| *s));
}

#[test]
fn failure_is_isolated_to_its_own_job() {
    let jobs = batch(&["A", "B", "C"]);
    let mut engine = DispatchEngine::new(jobs, 3);
    for i in 0..3 {
        assert!(engine.try_admit(i));
        engine.mark_spawned(i);
    }
    // Job 1 exits non-zero while its siblings are still running.
    engine.mark_exited(1, false);
    engine.report(1, b"exit status 1".to_vec());
    engine.mark_exited(0, true);
    engine.report(0, b"done".to_vec());
    engine.mark_exited(2, true);
    engine.report(2, b"done".to_vec());

    assert!(engine.is_complete());
    assert_eq!(engine.successes(), 2);
    assert_eq!(engine.failures(), 1);
    for (job, outcome) in &engine.outcomes {
        if *job == 1 {
            assert!(!outcome.success);
            assert_eq!(outcome.worker_name, "B");
            assert_eq!(outcome.diagnostic, b"exit status 1".to_vec());
        } else {
            assert!(outcome.success);
        }
    }
}

#[test]
fn spawn_failure_releases_permit_and_reports() {
    let jobs = batch(&["A", "B"]);
    let mut engine = DispatchEngine::new(jobs, 1);
    assert!(engine.try_admit(0));
    // The budget of one is exhausted while job 0 holds its permit.
    assert!(!engine.try_admit(1));
    engine.record_spawn_failure(0, b"no such file".to_vec());
    assert_eq!(engine.permits_in_use(), 0);
    // The released permit lets the second job in.
    assert!(engine.try_admit(1));
    engine.mark_spawned(1);
    engine.mark_exited(1, true);
    engine.report(1, Vec::new());

    assert!(engine.is_complete());
    assert_eq!(engine.failures(), 1);
    assert_eq!(engine.successes(), 1);
    assert_eq!(engine.outcomes[0].1.worker_name, "A");
    assert!(!engine.outcomes[0].1.success);
}

#[test]
fn diagnostics_concatenate_in_arrival_order() {
    let jobs = batch(&["A", "B"]);
    let mut engine = DispatchEngine::new(jobs, 2);
    assert!(engine.try_admit(0));
    assert!(engine.try_admit(1));
    engine.mark_spawned(0);
    engine.mark_spawned(1);
    engine.mark_exited(1, true);
    engine.report(1, b"second".to_vec());
    engine.mark_exited(0, true);
    engine.report(0, b"first".to_vec());
    assert_eq!(engine.diagnostics(), b"secondfirst".to_vec());
}

#[test]
fn admission_respects_job_state() {
    let jobs = batch(&["A"]);
    let mut engine = DispatchEngine::new(jobs, 2);
    assert!(engine.try_admit(0));
    // A job that already holds a permit cannot be admitted again.
    assert!(!engine.try_admit(0));
    engine.mark_spawned(0);
    assert_eq!(engine.running(), 1);
    engine.mark_exited(0, true);
    assert_eq!(engine.running(), 0);
    assert_eq!(engine.permits_in_use(), 1);
    engine.report(0, Vec::new());
    assert!(engine.is_complete());
}
