use std::collections::VecDeque;

use taskqueue::codec::{encode, Message};
use taskqueue::worker::{Readiness, WakeAction, Worker, WorkerState};

/// What one worker's two inlets hold when it runs.
struct Inlets {
    work: VecDeque<String>,
    shutdowns: usize,
}

/// The outcome of running a worker's loop over its inlets.
struct Outcome {
    delivered: Vec<Message>,
    malformed: usize,
    state: WorkerState,
}

fn item(p: &str) -> String {
    encode(&Message::WorkItem(p.to_string()))
}

/// Runs the worker loop until it leaves, or until a wait would block forever.
fn run_worker(w: &mut Worker, inlets: &mut Inlets) -> Outcome {
    let mut delivered = Vec::new();
    let mut malformed = 0;
    loop {
        let ready = Readiness { work: !inlets.work.is_empty(), control: inlets.shutdowns > 0 };
        if !ready.work && !ready.control {
            break;
        }
        match w.on_wake(ready) {
            WakeAction::DrainShutdown => {
                inlets.shutdowns -= 1;
                break;
            }
            WakeAction::ReceiveWork => {
                let text = inlets.work.pop_front().unwrap();
                match w.on_work(&text) {
                    Some(m) => delivered.push(m),
                    None => malformed += 1,
                }
            }
            WakeAction::WaitAgain => {}
            WakeAction::Exit => break,
        }
    }
    Outcome { delivered, malformed, state: w.state() }
}

/// Spawns a worker and runs its loop.
fn run(inlets: &mut Inlets) -> Outcome {
    let mut w = Worker::new();
    w.start();
    run_worker(&mut w, inlets)
}

/// Deals `texts` to `n` inlets in turn, as the work channel's round robin does.
fn deal(texts: Vec<String>, n: usize) -> Vec<Inlets> {
    let mut inlets: Vec<Inlets> =
        (0..n).map(|_| Inlets { work: VecDeque::new(), shutdowns: 0 }).collect();
    for (k, t) in texts.into_iter().enumerate() {
        inlets[k % n].work.push_back(t);
    }
    inlets
}

fn payloads(ms: &[Message]) -> Vec<String> {
    ms.iter()
        .map(|m| match m {
            Message::WorkItem(p) => p.clone(),
            Message::Terminator => "<end>".to_string(),
        })
        .collect()
}

#[test]
fn single_worker_three_items() {
    let mut inlets = deal(vec![item("a"), item("b"), item("c")], 1);
    let mut w = Worker::new();
    w.start();
    let first = run_worker(&mut w, &mut inlets[0]);
    assert_eq!(payloads(&first.delivered), vec!["a", "b", "c"]);
    assert_eq!(first.state, WorkerState::Running);
    inlets[0].shutdowns += 1;
    let second = run_worker(&mut w, &mut inlets[0]);
    assert!(second.delivered.is_empty());
    assert_eq!(second.state, WorkerState::Stopped);
    assert_eq!(inlets[0].shutdowns, 0);
}

#[test]
fn two_workers_even_split() {
    let texts = vec![item("0"), item("1"), item("2"), item("3")];
    let mut inlets = deal(texts, 2);
    let mut all = Vec::new();
    for i in inlets.iter_mut() {
        let out = run(i);
        assert_eq!(out.delivered.len(), 2);
        all.extend(payloads(&out.delivered));
    }
    all.sort();
    assert_eq!(all, vec!["0", "1", "2", "3"]);
}

#[test]
fn shutdown_before_any_work() {
    let mut inlets = deal(vec![], 3);
    for i in inlets.iter_mut() {
        i.shutdowns = 1;
        let out = run(i);
        assert!(out.delivered.is_empty());
        assert_eq!(out.state, WorkerState::Stopped);
        assert_eq!(i.shutdowns, 0);
    }
}

#[test]
fn malformed_message_is_skipped() {
    let mut inlets = deal(vec![item("x"), "not a message".to_string(), item("y")], 1);
    let out = run(&mut inlets[0]);
    assert_eq!(payloads(&out.delivered), vec!["x", "y"]);
    assert_eq!(out.malformed, 1);
    assert_eq!(out.state, WorkerState::Running);
}

#[test]
fn shutdown_wins_tie() {
    let mut inlets = deal(vec![item("w")], 1);
    inlets[0].shutdowns = 1;
    let out = run(&mut inlets[0]);
    assert!(out.delivered.is_empty());
    assert_eq!(out.state, WorkerState::Stopped);
    assert_eq!(inlets[0].work.len(), 1);
}

#[test]
fn large_fan_out() {
    let texts: Vec<String> = (0..40).map(|k| item(&k.to_string())).collect();
    let mut inlets = deal(texts, 8);
    let mut total = 0;
    for i in inlets.iter_mut() {
        let out = run(i);
        assert_eq!(out.delivered.len(), 5);
        total += out.delivered.len();
    }
    assert_eq!(total, 40);
}

#[test]
fn per_worker_order_is_kept() {
    let texts: Vec<String> = (0..9).map(|k| item(&k.to_string())).collect();
    let mut inlets = deal(texts, 3);
    let out = run(&mut inlets[1]);
    assert_eq!(payloads(&out.delivered), vec!["1", "4", "7"]);
}

#[test]
fn wake_decisions() {
    let mut w = Worker::new();
    assert_eq!(w.state(), WorkerState::Idle);
    assert_eq!(w.on_wake(Readiness { work: true, control: false }), WakeAction::Exit);
    w.start();
    assert_eq!(w.state(), WorkerState::Running);
    assert_eq!(w.on_wake(Readiness { work: false, control: false }), WakeAction::WaitAgain);
    assert_eq!(w.on_wake(Readiness { work: true, control: false }), WakeAction::ReceiveWork);
    assert_eq!(w.on_wake(Readiness { work: true, control: true }), WakeAction::DrainShutdown);
    assert_eq!(w.state(), WorkerState::Stopped);
    assert_eq!(w.on_wake(Readiness { work: true, control: true }), WakeAction::Exit);
    w.start();
    assert_eq!(w.state(), WorkerState::Stopped);
}

#[test]
fn stopped_worker_takes_no_work() {
    let mut w = Worker::new();
    assert_eq!(w.on_work(&item("early")), None);
    w.start();
    assert_eq!(w.on_work(&item("a")), Some(Message::WorkItem("a".to_string())));
    assert_eq!(w.on_work("\"EndMessage\""), Some(Message::Terminator));
    w.on_transport_failure();
    assert_eq!(w.state(), WorkerState::Stopped);
    assert_eq!(w.on_work(&item("late")), None);
}
