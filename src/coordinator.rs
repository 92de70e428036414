use vstd::prelude::*;
use vstd::string::StrSliceExecFns;
use vstd::string::StringExecFns;

verus! {

/// One step of a coordinator's run.
#[derive(Clone, Copy, Debug, PartialEq, Eq, Structural)]
pub enum Step {
    /// Open worker `i`'s two inlets and spawn it.
    SpawnWorker(usize),
    /// Encode work item `j` and send it on the work channel.
    SendItem(usize),
    /// Publish the shutdown message on the control channel.
    PublishShutdown,
    /// Join worker `i`, ignoring a failed join.
    JoinWorker(usize),
    /// The run is over: release the endpoints, then the context.
    Finished,
}

/// The number of steps in a run with `workers` workers and `items` work items.
pub open spec fn plan_len(workers: nat, items: nat) -> nat {
    2 * workers + items + 1
}

/// The step at position `k` of a run: every spawn, then every send, then the
/// one publish, then every join in order of spawn.
pub open spec fn plan_step(workers: nat, items: nat, k: nat) -> Step {
    if k < workers {
        Step::SpawnWorker(k as usize)
    } else if k < workers + items {
        Step::SendItem((k - workers) as usize)
    } else if k == workers + items {
        Step::PublishShutdown
    } else if k < plan_len(workers, items) {
        Step::JoinWorker((k - workers - items - 1) as usize)
    } else {
        Step::Finished
    }
}

/// The shutdown is published after every send: the one position that holds
/// the publish comes after each position that holds a send, and no send
/// follows it.
pub proof fn lemma_publish_after_sends(workers: nat, items: nat, j: nat, k: nat)
    requires
        workers + items + 1 <= usize::MAX,
        j < items,
    ensures
        plan_step(workers, items, workers + j) == Step::SendItem(j as usize),
        plan_step(workers, items, workers + items) == Step::PublishShutdown,
        workers + j < workers + items,
        k > workers + items ==> plan_step(workers, items, k) != Step::SendItem(j as usize),
{
}

/// Every worker that is spawned is joined, exactly once, after the publish.
pub proof fn lemma_each_worker_joined(workers: nat, items: nat, i: nat, k: nat)
    requires
        plan_len(workers, items) <= usize::MAX,
        i < workers,
    ensures
        plan_step(workers, items, i) == Step::SpawnWorker(i as usize),
        plan_step(workers, items, workers + items + 1 + i) == Step::JoinWorker(i as usize),
        plan_step(workers, items, k) == Step::JoinWorker(i as usize) ==> k == workers + items + 1
            + i,
{
}

/// Every work item is sent exactly once.
pub proof fn lemma_each_item_sent_once(workers: nat, items: nat, j: nat, k: nat)
    requires
        plan_len(workers, items) <= usize::MAX,
        j < items,
    ensures
        plan_step(workers, items, workers + j) == Step::SendItem(j as usize),
        plan_step(workers, items, k) == Step::SendItem(j as usize) ==> k == workers + j,
{
}

/// The coordinator's decisions over one run: which step comes next.
pub struct Coordinator {
    workers: usize,
    items: usize,
    taken: usize,
}

impl Coordinator {
    pub closed spec fn spec_workers(&self) -> nat {
        self.workers as nat
    }

    pub closed spec fn spec_items(&self) -> nat {
        self.items as nat
    }

    /// How many steps of the run have been handed out.
    pub closed spec fn spec_taken(&self) -> nat {
        self.taken as nat
    }

    pub closed spec fn wf(&self) -> bool {
        &&& plan_len(self.workers as nat, self.items as nat) <= usize::MAX
        &&& self.taken as nat <= plan_len(self.workers as nat, self.items as nat)
    }

    /// A run of `workers` workers and `items` work items; `None` where the
    /// number of its steps does not fit in a `usize`.
    pub fn new(workers: usize, items: usize) -> (r: Option<Coordinator>)
        ensures
            r is None <==> plan_len(workers as nat, items as nat) > usize::MAX,
            r matches Some(c) ==> {
                &&& c.wf()
                &&& c.spec_workers() == workers
                &&& c.spec_items() == items
                &&& c.spec_taken() == 0
            },
    {
        if workers > (usize::MAX - 1) / 2 {
            return None;
        }
        if items > usize::MAX - 1 - 2 * workers {
            return None;
        }
        Some(Coordinator { workers, items, taken: 0 })
    }

    pub fn workers(&self) -> (r: usize)
        ensures
            r == self.spec_workers(),
    {
        self.workers
    }

    pub fn items(&self) -> (r: usize)
        ensures
            r == self.spec_items(),
    {
        self.items
    }

    /// The next step of the run; [`Step::Finished`] once every step was taken.
    pub fn next_step(&mut self) -> (r: Step)
        requires
            old(self).wf(),
        ensures
            final(self).wf(),
            final(self).spec_workers() == old(self).spec_workers(),
            final(self).spec_items() == old(self).spec_items(),
            r == plan_step(old(self).spec_workers(), old(self).spec_items(), old(self).spec_taken()),
            final(self).spec_taken() == if old(self).spec_taken() < plan_len(
                old(self).spec_workers(),
                old(self).spec_items(),
            ) {
                old(self).spec_taken() + 1
            } else {
                old(self).spec_taken()
            },
    {
        let k = self.taken;
        let n = self.workers;
        let m = self.items;
        let r = if k < n {
            Step::SpawnWorker(k)
        } else if k < n + m {
            Step::SendItem(k - n)
        } else if k == n + m {
            Step::PublishShutdown
        } else if k < 2 * n + m + 1 {
            Step::JoinWorker(k - n - m - 1)
        } else {
            Step::Finished
        };
        if k < 2 * n + m + 1 {
            self.taken = k + 1;
        }
        r
    }
}

/// The in-process address of the work channel.
pub const WORK_ADDRESS: &'static str = "inproc://taskqueue";

/// The in-process address of the control channel.
pub const CONTROL_ADDRESS: &'static str = "inproc://killqueue";

/// Why a pair of bus addresses was refused.
#[derive(Clone, Copy, Debug, PartialEq, Eq, Structural)]
pub enum AddressError {
    /// The work and control channels were given one address.
    SameAddress,
}

/// The two addresses of a bus: one for the work channel, one for the control channel.
pub struct BusAddresses {
    work: String,
    control: String,
}

impl BusAddresses {
    pub closed spec fn spec_work(&self) -> Seq<char> {
        self.work@
    }

    pub closed spec fn spec_control(&self) -> Seq<char> {
        self.control@
    }

    /// The pair of addresses; refused where they are the same.
    pub fn new(work: &str, control: &str) -> (r: Result<BusAddresses, AddressError>)
        ensures
            r is Err <==> work@ == control@,
            r matches Ok(a) ==> a.spec_work() == work@ && a.spec_control() == control@,
    {
        let wn = work.unicode_len();
        let cn = control.unicode_len();
        let mut same = wn == cn;
        let mut i: usize = 0;
        while same && i < wn
            invariant
                wn == work@.len(),
                cn == control@.len(),
                i <= wn,
                same ==> wn == cn,
                same ==> forall|k: int| 0 <= k < i ==> work@[k] == control@[k],
                !same ==> work@ != control@,
            decreases wn - i,
        {
            if work.get_char(i) != control.get_char(i) {
                same = false;
            }
            i = i + 1;
        }
        if same {
            assert(work@ =~= control@);
            return Err(AddressError::SameAddress);
        }
        Ok(BusAddresses { work: String::from_str(work), control: String::from_str(control) })
    }

    /// The addresses of the work and control channels used by default.
    pub fn standard() -> (r: BusAddresses)
        ensures
            r.spec_work() == WORK_ADDRESS@,
            r.spec_control() == CONTROL_ADDRESS@,
    {
        BusAddresses { work: String::from_str(WORK_ADDRESS), control: String::from_str(CONTROL_ADDRESS) }
    }

    pub fn work(&self) -> (r: &str)
        ensures
            r@ == self.spec_work(),
    {
        self.work.as_str()
    }

    pub fn control(&self) -> (r: &str)
        ensures
            r@ == self.spec_control(),
    {
        self.control.as_str()
    }
}

/// The size of a run on a machine with `cpus` processors: two workers for
/// each processor, five work items for each worker. `None` where a count
/// does not fit in a `usize`.
pub fn pool_for_cpus(cpus: usize) -> (r: Option<(usize, usize)>)
    ensures
        r is None <==> 10 * cpus > usize::MAX,
        r matches Some((w, m)) ==> w == 2 * cpus && m == 5 * w,
{
    if cpus > usize::MAX / 10 {
        return None;
    }
    let w = cpus * 2;
    Some((w, w * 5))
}

} // verus!
