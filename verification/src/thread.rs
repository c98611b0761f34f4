//! Kernel threads and the round-robin scheduler.
//!
//! The scheduler decides; switching stacks and jumping is done by the
//! exception code around it, which performs the [`SwitchTo`] it is handed.
use crate::mmu::{Addr, VirtAddr};
use crate::vm::PAGE_SIZE;
use std::collections::VecDeque;
use vstd::multiset::Multiset;
use vstd::prelude::*;

verus! {

/// Registers saved on exception entry.
#[derive(Debug, Default, Clone, Copy)]
pub struct Context {
    /// General-purpose registers (R0..R30).
    pub r: [u64; 31],
    /// User stack pointer (SP_EL0).
    pub usp: u64,
    /// Exception link register (ELR_EL1).
    pub elr: u64,
    /// Saved process status register (SPSR_EL1).
    pub spsr: u64,
}

/// Where a thread that has never run starts.
#[derive(Clone, Copy, PartialEq, Eq, Structural, Debug)]
pub struct InitContext {
    pub pc: VirtAddr,
}

impl InitContext {
    pub fn new(pc: VirtAddr) -> (r: Self)
        ensures
            r.pc == pc,
    {
        Self { pc }
    }
}

/// How a thread is resumed: from its entry point, or from the registers saved
/// when it was last preempted.
#[derive(Clone, Copy)]
pub enum ContextOpt {
    Init(InitContext),
    Normal(&'static Context),
}

/// A kernel thread: its stack page and how to resume it.
pub struct Thread {
    stack_start: VirtAddr,
    context: ContextOpt,
}

/// What the exception code does to run the thread the scheduler picked.
pub enum SwitchTo {
    /// First run: set the stack pointer to `sp` and jump to `pc`.
    Start { sp: VirtAddr, pc: VirtAddr },
    /// Return from the exception through the registers saved in the context.
    Resume(&'static Context),
}

impl Thread {
    /// The lowest address of the thread's stack page.
    pub closed spec fn stack(&self) -> VirtAddr {
        self.stack_start
    }

    /// How the thread is to be resumed.
    pub closed spec fn resume(&self) -> ContextOpt {
        self.context
    }

    /// The same thread, resumed from `context` from now on.
    pub closed spec fn with_resume(self, context: ContextOpt) -> Thread {
        Thread { context, ..self }
    }

    /// A thread that will start at `pc` on the stack page at `stack_start`.
    pub fn new(pc: VirtAddr, stack_start: VirtAddr) -> (r: Self)
        ensures
            r.stack() == stack_start,
            r.resume() == ContextOpt::Init(InitContext { pc }),
    {
        Self { stack_start, context: ContextOpt::Init(InitContext::new(pc)) }
    }

    /// The lowest address of the thread's stack page.
    pub fn stack_start(&self) -> (r: VirtAddr)
        ensures
            r == self.stack(),
    {
        self.stack_start
    }
}

/// The run queue after the running thread `current`, preempted with its
/// registers saved in `saved`, went to its back.
pub open spec fn requeue(queue: Seq<Thread>, current: Option<Thread>, saved: &'static Context) -> Seq<
    Thread,
> {
    match current {
        Some(t) => queue.push(t.with_resume(ContextOpt::Normal(saved))),
        None => queue,
    }
}

/// `action` runs thread `t`: a fresh thread starts at its entry point with the
/// stack pointer at the top of its stack page; a preempted one resumes from its
/// saved registers.
pub open spec fn runs(action: SwitchTo, t: Thread) -> bool {
    match t.resume() {
        ContextOpt::Init(ic) => action matches SwitchTo::Start { sp, pc } && sp.addr()
            == t.stack().addr() + PAGE_SIZE && pc == ic.pc,
        ContextOpt::Normal(c) => action == SwitchTo::Resume(c),
    }
}

/// The stacks of the threads a scheduler holds, queued or running.
pub open spec fn stacks(queue: Seq<Thread>, current: Option<Thread>) -> Multiset<usize> {
    let queued = queue.map_values(|t: Thread| t.stack().addr()).to_multiset();
    match current {
        Some(t) => queued.insert(t.stack().addr()),
        None => queued,
    }
}

/// A round-robin scheduler: a FIFO run queue and the running thread.
pub struct Scheduler {
    queue: Option<VecDeque<Thread>>,
    current: Option<Thread>,
}

impl Scheduler {
    /// The run queue, front first, or `None` before `init`.
    pub closed spec fn queue(&self) -> Option<Seq<Thread>> {
        match self.queue {
            Some(q) => Some(q@),
            None => None,
        }
    }

    /// The running thread, if any.
    pub closed spec fn current(&self) -> Option<Thread> {
        self.current
    }

    /// Whether `init` has created the run queue.
    pub fn has_queue(&self) -> (r: bool)
        ensures
            r == (self.queue() is Some),
    {
        self.queue.is_some()
    }

    /// Whether a thread is running.
    pub fn has_current(&self) -> (r: bool)
        ensures
            r == (self.current() is Some),
    {
        self.current.is_some()
    }

    /// Whether `schedule` can run with `old_cont`: there is a run queue, a
    /// thread to switch to, and a fresh thread's stack top is addressable.
    pub fn can_schedule(&self, old_cont: &'static Context) -> (r: bool)
        ensures
            r == (self.queue() is Some && {
                let q = requeue(self.queue()->0, self.current(), old_cont);
                &&& q.len() > 0
                &&& q[0].resume() is Init ==> q[0].stack().addr() + PAGE_SIZE <= usize::MAX
            }),
    {
        match &self.queue {
            None => false,
            Some(queue) => {
                let ghost q = requeue(queue@, self.current, old_cont);
                if queue.len() > 0 {
                    assert(q[0] == queue@[0]);
                    let first = &queue[0];
                    match first.context {
                        ContextOpt::Init(_) => first.stack_start.to_usize() <= usize::MAX
                            - PAGE_SIZE,
                        ContextOpt::Normal(_) => true,
                    }
                } else {
                    match &self.current {
                        Some(cur) => {
                            assert(q[0] == cur.with_resume(ContextOpt::Normal(old_cont)));
                            true
                        },
                        None => false,
                    }
                }
            },
        }
    }

    /// A scheduler with no run queue yet and nothing running.
    pub fn empty() -> (r: Self)
        ensures
            r.queue() == None::<Seq<Thread>>,
            r.current() == None::<Thread>,
    {
        Self { queue: None, current: None }
    }

    /// Creates the (empty) run queue.
    pub fn init(&mut self)
        ensures
            final(self).queue() == Some(Seq::<Thread>::empty()),
            final(self).current() == old(self).current(),
    {
        self.queue = Some(VecDeque::new());
    }

    /// Appends `th` to the back of the run queue.
    pub fn insert(&mut self, th: Thread)
        requires
            old(self).queue() is Some,
        ensures
            final(self).queue() == Some(old(self).queue()->0.push(th)),
            final(self).current() == old(self).current(),
    {
        match self.queue.take() {
            Some(mut queue) => {
                queue.push_back(th);
                self.queue = Some(queue);
            },
            None => {
                proof {
                    assert(false);
                }
            },
        }
    }

    /// Drops the running thread; it is never scheduled again.
    pub fn remove_self(&mut self)
        requires
            old(self).current() is Some,
        ensures
            final(self).current() == None::<Thread>,
            final(self).queue() == old(self).queue(),
    {
        let _cur = self.current.take();
    }

    /// Preempts the running thread, whose registers were saved in `old_cont`:
    /// it goes to the back of the run queue, and the thread at the front is
    /// taken off and becomes the running one. Returns how to run it.
    pub fn schedule(&mut self, old_cont: &'static Context) -> (r: SwitchTo)
        requires
            old(self).queue() is Some,
            requeue(old(self).queue()->0, old(self).current(), old_cont).len() > 0,
            ({
                let next = requeue(old(self).queue()->0, old(self).current(), old_cont)[0];
                next.resume() is Init ==> next.stack().addr() + PAGE_SIZE <= usize::MAX
            }),
        ensures
            ({
                let q = requeue(old(self).queue()->0, old(self).current(), old_cont);
                &&& final(self).current() == Some(q[0])
                &&& final(self).queue() == Some(q.drop_first())
                &&& runs(r, q[0])
            }),
            // a thread that was queued runs first, the others keep their order
            old(self).queue()->0.len() > 0 ==> match old(self).queue()->0[0].resume() {
                ContextOpt::Init(ic) => r matches SwitchTo::Start { sp, pc } && sp.addr()
                    == old(self).queue()->0[0].stack().addr() + PAGE_SIZE && pc == ic.pc,
                ContextOpt::Normal(c) => r == SwitchTo::Resume(c),
            },
            old(self).queue()->0.len() > 0 ==> final(self).current() == Some(old(self).queue()->0[0]),
            old(self).queue()->0.len() > 0 ==> final(self).queue()->0.subrange(
                0,
                old(self).queue()->0.len() - 1,
            ) == old(self).queue()->0.drop_first(),
            // the preempted thread goes to the back and resumes from `old_cont`
            old(self).current() is Some && old(self).queue()->0.len() > 0 ==> {
                let back = final(self).queue()->0;
                &&& back.len() == old(self).queue()->0.len()
                &&& back.last().stack() == old(self).current()->0.stack()
                &&& back.last().resume() == ContextOpt::Normal(old_cont)
            },
            // alone, it keeps running, from `old_cont`
            old(self).current() is Some && old(self).queue()->0.len() == 0 ==> {
                &&& final(self).queue()->0.len() == 0
                &&& final(self).current()->0.stack() == old(self).current()->0.stack()
                &&& final(self).current()->0.resume() == ContextOpt::Normal(old_cont)
                &&& r == SwitchTo::Resume(old_cont)
            },
            // with nothing running, the queue just advances
            old(self).current() is None ==> final(self).queue()->0 == old(self).queue()->0.drop_first(),
    {
        let ghost q = requeue(self.queue()->0, self.current(), old_cont);
        let mut queue = match self.queue.take() {
            Some(queue) => queue,
            None => {
                proof {
                    assert(false);
                }
                VecDeque::new()
            },
        };
        match self.current.take() {
            Some(mut cur) => {
                cur.context = ContextOpt::Normal(old_cont);
                queue.push_back(cur);
            },
            None => {},
        }
        assert(queue@ =~= q);
        match queue.pop_front() {
            Some(first) => {
                let action = match first.context {
                    ContextOpt::Init(cont) => SwitchTo::Start {
                        sp: first.stack_start.add_off(PAGE_SIZE),
                        pc: cont.pc,
                    },
                    ContextOpt::Normal(cont) => SwitchTo::Resume(cont),
                };
                self.current = Some(first);
                self.queue = Some(queue);
                assert(queue@ =~= q.drop_first());
                action
            },
            None => {
                proof {
                    assert(false);
                }
                self.queue = Some(queue);
                SwitchTo::Resume(old_cont)
            },
        }
    }
}

/// The run queue and running thread after `schedule` has run once for each
/// saved context in `saved`, in order, with no other scheduler call between.
pub open spec fn run_schedules(
    queue: Seq<Thread>,
    current: Option<Thread>,
    saved: Seq<&'static Context>,
) -> (Seq<Thread>, Option<Thread>)
    decreases saved.len(),
{
    if saved.len() == 0 {
        (queue, current)
    } else {
        let q = requeue(queue, current, saved[0]);
        if q.len() == 0 {
            (queue, current)
        } else {
            run_schedules(q.drop_first(), Some(q[0]), saved.drop_first())
        }
    }
}

/// Round robin: the thread at position `k` of the run queue is the running
/// one after `k + 1` timer ticks, so every queued thread runs within
/// `queue.len() + 1` ticks.
pub proof fn lemma_round_robin(
    queue: Seq<Thread>,
    current: Option<Thread>,
    saved: Seq<&'static Context>,
    k: int,
)
    requires
        0 <= k < queue.len(),
        saved.len() == k + 1,
    ensures
        run_schedules(queue, current, saved).1 == Some(queue[k]),
    decreases k,
{
    let q = requeue(queue, current, saved[0]);
    assert(q.len() >= queue.len());
    assert(q[k] == queue[k]);
    if k > 0 {
        let rest = q.drop_first();
        assert(rest[k - 1] == queue[k]);
        lemma_round_robin(rest, Some(q[0]), saved.drop_first(), k - 1);
    } else {
        assert(saved.drop_first().len() == 0);
    }
}

/// A preempted thread resumes from the registers saved at that preemption:
/// when `schedule` preempts `t` (saving into `saved[0]`) and the timer then
/// ticks once for every other queued thread, `t` runs again, on its own
/// stack, from `saved[0]`, whatever it was resumed from before.
pub proof fn lemma_preempted_thread_resumes_from_its_save(
    queue: Seq<Thread>,
    t: Thread,
    saved: Seq<&'static Context>,
)
    requires
        saved.len() == queue.len() + 1,
    ensures
        ({
            let cur = run_schedules(queue, Some(t), saved).1;
            &&& cur is Some
            &&& cur->0.stack() == t.stack()
            &&& cur->0.resume() == ContextOpt::Normal(saved[0])
            &&& runs(SwitchTo::Resume(saved[0]), cur->0)
        }),
{
    let t2 = t.with_resume(ContextOpt::Normal(saved[0]));
    let q = requeue(queue, Some(t), saved[0]);
    assert(q == queue.push(t2));
    assert(t2.stack() == t.stack() && t2.resume() == ContextOpt::Normal(saved[0]));
    let n = queue.len();
    if n == 0 {
        assert(saved.drop_first().len() == 0);
        assert(run_schedules(queue, Some(t), saved) == run_schedules(
            q.drop_first(),
            Some(q[0]),
            saved.drop_first(),
        ));
        assert(q[0] == t2);
    } else {
        let rest = q.drop_first();
        assert(rest.len() == n);
        assert(rest[n - 1] == t2);
        lemma_round_robin(rest, Some(q[0]), saved.drop_first(), n - 1);
    }
}

/// Scheduling neither loses nor duplicates a thread: the running thread and
/// the queued ones have the same stacks before and after a switch.
pub proof fn lemma_schedule_keeps_threads(
    queue: Seq<Thread>,
    current: Option<Thread>,
    saved: &'static Context,
)
    requires
        requeue(queue, current, saved).len() > 0,
    ensures
        ({
            let q = requeue(queue, current, saved);
            stacks(q.drop_first(), Some(q[0])) == stacks(queue, current)
        }),
{
    broadcast use vstd::seq_lib::group_seq_properties;

    let f = |t: Thread| t.stack().addr();
    let q = requeue(queue, current, saved);
    match current {
        Some(t) => {
            let t2 = t.with_resume(ContextOpt::Normal(saved));
            assert(t2.stack() == t.stack());
            assert(q.map_values(f) =~= queue.map_values(f).push(f(t2)));
        },
        None => {},
    }
    assert(q.map_values(f).to_multiset() == stacks(queue, current));
    assert(q.drop_first().map_values(f) =~= q.map_values(f).remove(0));
    assert(q.map_values(f)[0] == f(q[0]));
    assert(q.map_values(f).remove(0).to_multiset() =~= q.map_values(f).to_multiset().remove(
        f(q[0]),
    ));
    assert(q.map_values(f).to_multiset().count(f(q[0])) > 0);
    assert(stacks(q.drop_first(), Some(q[0])) =~= stacks(queue, current));
}

} // verus!
