use vstd::prelude::*;

use crate::codec::{decode, encoding, is_encoding, Message, MessageModel};

verus! {

/// The life of a worker.
#[derive(Clone, Copy, Debug, PartialEq, Eq, Structural)]
pub enum WorkerState {
    /// Created, not yet spawned.
    Idle,
    /// Waiting on its work inlet and its control inlet.
    Running,
    /// Told to shut down, or its transport failed; it receives nothing more.
    Stopped,
}

/// Which inlets a multiplexed wait reported readable.
#[derive(Clone, Copy, Debug, PartialEq, Eq, Structural)]
pub struct Readiness {
    /// The work inlet has a message.
    pub work: bool,
    /// The control inlet has a message.
    pub control: bool,
}

/// What the worker's loop does after a wake.
#[derive(Clone, Copy, Debug, PartialEq, Eq, Structural)]
pub enum WakeAction {
    /// Take one shutdown message from the control inlet and leave the loop.
    DrainShutdown,
    /// Take one message from the work inlet and hand it to the worker.
    ReceiveWork,
    /// Nothing is readable: wait again.
    WaitAgain,
    /// The worker is not running: leave the loop without receiving.
    Exit,
}

/// The state after a wake, and the action the loop takes. Shutdown takes
/// precedence over work readable in the same wake.
pub open spec fn wake_step(s: WorkerState, ready: Readiness) -> (WorkerState, WakeAction) {
    match s {
        WorkerState::Running => if ready.control {
            (WorkerState::Stopped, WakeAction::DrainShutdown)
        } else if ready.work {
            (WorkerState::Running, WakeAction::ReceiveWork)
        } else {
            (WorkerState::Running, WakeAction::WaitAgain)
        },
        _ => (s, WakeAction::Exit),
    }
}

/// The state and the actions after each wake of `rs` in turn, from state `s`.
pub open spec fn wake_trace(s: WorkerState, rs: Seq<Readiness>) -> (WorkerState, Seq<WakeAction>)
    decreases rs.len(),
{
    if rs.len() == 0 {
        (s, Seq::empty())
    } else {
        let (before, acts) = wake_trace(s, rs.drop_last());
        let (after, act) = wake_step(before, rs.last());
        (after, acts.push(act))
    }
}

/// Shutdown takes precedence: a running worker woken with its control inlet
/// readable stops and takes no work, whatever its work inlet holds.
pub proof fn lemma_shutdown_wins(ready: Readiness)
    requires
        ready.control,
    ensures
        wake_step(WorkerState::Running, ready) == (WorkerState::Stopped, WakeAction::DrainShutdown),
{
}

/// Shutdown is final and prompt: over any run of wakes of a running worker
/// whose first wake finds the control inlet readable, the worker drains the
/// shutdown at that first wake, ends stopped, and never again receives.
pub proof fn lemma_shutdown_liveness(rs: Seq<Readiness>)
    requires
        rs.len() > 0,
        rs[0].control,
    ensures
        wake_trace(WorkerState::Running, rs).0 == WorkerState::Stopped,
        wake_trace(WorkerState::Running, rs).1[0] == WakeAction::DrainShutdown,
        forall|i: int|
            1 <= i < rs.len() ==> #[trigger] wake_trace(WorkerState::Running, rs).1[i]
                == WakeAction::Exit,
    decreases rs.len(),
{
    if rs.len() == 1 {
        assert(rs.drop_last() =~= Seq::<Readiness>::empty());
    } else {
        let init = rs.drop_last();
        assert(init[0] == rs[0]);
        lemma_shutdown_liveness(init);
        let (before, acts) = wake_trace(WorkerState::Running, init);
        assert(acts.len() == init.len()) by {
            lemma_trace_len(WorkerState::Running, init);
        }
        let full = wake_trace(WorkerState::Running, rs).1;
        assert forall|i: int| 1 <= i < rs.len() implies #[trigger] full[i] == WakeAction::Exit by {
            if i < init.len() {
                assert(full[i] == acts[i]);
            }
        }
    }
}

/// One action per wake.
pub proof fn lemma_trace_len(s: WorkerState, rs: Seq<Readiness>)
    ensures
        wake_trace(s, rs).1.len() == rs.len(),
    decreases rs.len(),
{
    if rs.len() > 0 {
        lemma_trace_len(s, rs.drop_last());
    }
}

/// What a worker delivers for the texts `ts` it received: in order of
/// receipt, one message for each text that is the wire form of a message,
/// with that text as its wire form; a malformed text gives nothing.
pub open spec fn delivers(ts: Seq<Seq<char>>, ms: Seq<MessageModel>) -> bool
    decreases ts.len(),
{
    if ts.len() == 0 {
        ms.len() == 0
    } else if is_encoding(ts.last()) {
        &&& ms.len() > 0
        &&& encoding(ms.last()) == ts.last()
        &&& delivers(ts.drop_last(), ms.drop_last())
    } else {
        delivers(ts.drop_last(), ms)
    }
}

/// A worker that receives the wire forms of `ms`, in this order, delivers
/// one message for each, in the same order, each with the wire form of the
/// one sent: nothing is lost, duplicated or reordered on its way through.
pub proof fn lemma_delivers_in_order(ms: Seq<MessageModel>, ds: Seq<MessageModel>)
    requires
        delivers(ms.map_values(|m: MessageModel| encoding(m)), ds),
    ensures
        ds.len() == ms.len(),
        forall|i: int| 0 <= i < ms.len() ==> encoding(#[trigger] ds[i]) == encoding(ms[i]),
    decreases ms.len(),
{
    let ts = ms.map_values(|m: MessageModel| encoding(m));
    if ms.len() > 0 {
        let init = ms.drop_last();
        assert(ts.drop_last() =~= init.map_values(|m: MessageModel| encoding(m)));
        assert(encoding(ms.last()) == ts.last());
        assert(is_encoding(ts.last()));
        lemma_delivers_in_order(init, ds.drop_last());
        assert forall|i: int| 0 <= i < ms.len() implies encoding(#[trigger] ds[i]) == encoding(
            ms[i],
        ) by {
            if i < ms.len() - 1 {
                assert(ds[i] == ds.drop_last()[i]);
                assert(ms[i] == init[i]);
            }
        }
    }
}

/// The decisions of one worker: it owns one work inlet and one control inlet,
/// and the loop that waits on both asks it what to do next.
pub struct Worker {
    state: WorkerState,
    /// The texts taken from the work inlet while running, in order.
    received: Ghost<Seq<Seq<char>>>,
    /// The messages handed out for the sink, in order.
    delivered: Ghost<Seq<MessageModel>>,
}

impl Worker {
    /// The state of the worker.
    pub closed spec fn spec_state(&self) -> WorkerState {
        self.state
    }

    /// The texts the worker took from its work inlet, in order of receipt.
    pub closed spec fn spec_received(&self) -> Seq<Seq<char>> {
        self.received@
    }

    /// What the worker delivered is what it owes for what it received.
    pub closed spec fn wf(&self) -> bool {
        delivers(self.received@, self.delivered@)
    }

    /// The messages the worker handed out for its sink, in order of receipt.
    pub closed spec fn spec_delivered(&self) -> Seq<MessageModel> {
        self.delivered@
    }

    /// A worker that has not started.
    pub fn new() -> (r: Worker)
        ensures
            r.wf(),
            r.spec_state() == WorkerState::Idle,
            r.spec_received() == Seq::<Seq<char>>::empty(),
            r.spec_delivered() == Seq::<MessageModel>::empty(),
    {
        Worker { state: WorkerState::Idle, received: Ghost(Seq::empty()), delivered: Ghost(Seq::empty()) }
    }

    /// The state of the worker.
    pub fn state(&self) -> (r: WorkerState)
        ensures
            r == self.spec_state(),
    {
        self.state
    }

    /// Spawning: an idle worker starts running; any other is left as it is.
    pub fn start(&mut self)
        requires
            old(self).wf(),
        ensures
            final(self).wf(),
            final(self).spec_state() == (if old(self).spec_state() == WorkerState::Idle {
                WorkerState::Running
            } else {
                old(self).spec_state()
            }),
            final(self).spec_received() == old(self).spec_received(),
            final(self).spec_delivered() == old(self).spec_delivered(),
    {
        if self.state == WorkerState::Idle {
            self.state = WorkerState::Running;
        }
    }

    /// Decides what to do after a wait reported `ready`.
    pub fn on_wake(&mut self, ready: Readiness) -> (r: WakeAction)
        requires
            old(self).wf(),
        ensures
            final(self).wf(),
            (final(self).spec_state(), r) == wake_step(old(self).spec_state(), ready),
            final(self).spec_received() == old(self).spec_received(),
            final(self).spec_delivered() == old(self).spec_delivered(),
    {
        match self.state {
            WorkerState::Running => {
                if ready.control {
                    self.state = WorkerState::Stopped;
                    WakeAction::DrainShutdown
                } else if ready.work {
                    WakeAction::ReceiveWork
                } else {
                    WakeAction::WaitAgain
                }
            },
            _ => WakeAction::Exit,
        }
    }

    /// Handles a text taken from the work inlet: a running worker decodes it
    /// and returns the message to hand to the sink, or `None` where the text
    /// is malformed (the worker goes on running). A worker that is not
    /// running takes nothing.
    pub fn on_work(&mut self, text: &str) -> (r: Option<Message>)
        requires
            old(self).wf(),
        ensures
            final(self).wf(),
            final(self).spec_state() == old(self).spec_state(),
            old(self).spec_state() == WorkerState::Running ==> {
                &&& final(self).spec_received() == old(self).spec_received().push(text@)
                &&& (r is Some <==> is_encoding(text@))
                &&& r is Some ==> encoding(r->Some_0@) == text@
                &&& forall|m: MessageModel| #[trigger] encoding(m) == text@ ==> (r is Some && r->Some_0@ == m)
                &&& final(self).spec_delivered() == match r {
                    Some(m) => old(self).spec_delivered().push(m@),
                    None => old(self).spec_delivered(),
                }
            },
            old(self).spec_state() != WorkerState::Running ==> {
                &&& final(self).spec_received() == old(self).spec_received()
                &&& final(self).spec_delivered() == old(self).spec_delivered()
                &&& r is None
            },
    {
        if self.state != WorkerState::Running {
            return None;
        }
        self.received = Ghost(self.received@.push(text@));
        match decode(text) {
            Ok(m) => {
                let ghost before = self.delivered@;
                self.delivered = Ghost(self.delivered@.push(m@));
                assert(self.received@.drop_last() =~= old(self).received@);
                assert(self.delivered@.drop_last() =~= before);
                Some(m)
            },
            Err(_) => {
                assert(self.received@.drop_last() =~= old(self).received@);
                None
            },
        }
    }

    /// A receive failed on the transport: a running worker stops, as on shutdown.
    pub fn on_transport_failure(&mut self)
        requires
            old(self).wf(),
        ensures
            final(self).wf(),
            final(self).spec_state() == (if old(self).spec_state() == WorkerState::Running {
                WorkerState::Stopped
            } else {
                old(self).spec_state()
            }),
            final(self).spec_received() == old(self).spec_received(),
            final(self).spec_delivered() == old(self).spec_delivered(),
    {
        if self.state == WorkerState::Running {
            self.state = WorkerState::Stopped;
        }
    }
}

} // verus!
