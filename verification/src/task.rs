//! Pending work: the tasks and the queue that holds them.

use vstd::prelude::*;
use vstd::multiset::Multiset;
use vstd::seq_lib::lemma_multiset_commutative;
use crate::page::Page;

verus! {

/// A piece of pending work.
#[derive(Debug, PartialEq, Eq)]
pub enum Task {
    /// Make the given page the current one and load it.
    LoadPage(Page),
    /// Redraw everything.
    RenderAll,
    /// Stop the program.
    Quit,
}

impl Clone for Task {
    fn clone(&self) -> (copy: Self)
        ensures
            copy == *self,
    {
        match self {
            Task::LoadPage(page) => Task::LoadPage(page.clone()),
            Task::RenderAll => Task::RenderAll,
            Task::Quit => Task::Quit,
        }
    }
}

/// The queue of pending tasks. Tasks leave in the order in which they came.
#[derive(Debug, PartialEq, Eq)]
pub struct Tasks {
    pub priority: Vec<Task>,
}

impl View for Tasks {
    type V = Seq<Task>;

    open spec fn view(&self) -> Seq<Task> {
        self.priority@
    }
}

impl Clone for Tasks {
    fn clone(&self) -> (copy: Self)
        ensures
            copy@ == self@,
    {
        let mut priority: Vec<Task> = Vec::new();
        let mut done: usize = 0;
        while done < self.priority.len()
            invariant
                done <= self.priority.len(),
                priority@ == self.priority@.subrange(0, done as int),
            decreases self.priority.len() - done,
        {
            priority.push(self.priority[done].clone());
            done += 1;
        }
        Tasks { priority }
    }
}

/// The task queue is kept in the framework's typed store under its own type.
impl typemap::Key for Tasks {
    type Value = Tasks;
}

impl Tasks {
    /// A queue with no task.
    pub fn new() -> (tasks: Tasks)
        ensures
            tasks@ == Seq::<Task>::empty(),
    {
        Tasks { priority: Vec::new() }
    }

    /// Puts `task` at the end of the queue.
    pub fn push(&mut self, task: Task)
        ensures
            final(self)@ == old(self)@.push(task),
    {
        self.priority.push(task);
    }

    /// Takes the oldest task out of the queue, or returns `None` where the
    /// queue is empty.
    pub fn pop(&mut self) -> (task: Option<Task>)
        ensures
            old(self)@.len() == 0 ==> task is None && final(self)@ == old(self)@,
            old(self)@.len() > 0 ==> task == Some(old(self)@[0]) && final(self)@ == old(self)@.drop_first(),
    {
        if self.priority.len() == 0 {
            None
        } else {
            let task = self.priority.remove(0);
            assert(self.priority@ =~= old(self)@.drop_first());
            Some(task)
        }
    }

    /// Whether no task is pending.
    pub fn is_empty(&self) -> (empty: bool)
        ensures
            empty == (self@.len() == 0),
    {
        self.priority.len() == 0
    }

    /// The number of pending tasks.
    pub fn len(&self) -> (count: usize)
        ensures
            count == self@.len(),
    {
        self.priority.len()
    }

    /// Drops every pending task.
    pub fn reset(&mut self)
        ensures
            final(self)@ == Seq::<Task>::empty(),
    {
        self.priority.clear();
    }
}

/// What the driver has to do after a step of the drain.
#[derive(Debug, PartialEq, Eq)]
pub enum Effect {
    /// The given page became the current one: load it.
    Load(Page),
    /// Redraw everything.
    Render,
    /// Stop the program; the tasks that are left are not handled.
    Stop,
    /// No task is pending: go back to waiting for input.
    Idle,
}

/// What happens while the queue is drained: a handler queues a task, or the
/// driver handles the oldest task.
pub enum Event {
    Push(Task),
    Step,
}

/// The effect that handling `task` asks of the driver.
pub open spec fn effect_of(task: Task) -> Effect {
    match task {
        Task::LoadPage(page) => Effect::Load(page),
        Task::RenderAll => Effect::Render,
        Task::Quit => Effect::Stop,
    }
}

/// The queue after its oldest task was handled. A page load starts the queue
/// afresh; every other task leaves the rest of the queue as it is. An empty
/// queue stays empty.
pub open spec fn queue_after_step(queue: Seq<Task>) -> Seq<Task> {
    if queue.len() == 0 {
        queue
    } else if queue[0] is LoadPage {
        Seq::empty()
    } else {
        queue.drop_first()
    }
}

/// The tasks that `events` queue, in order.
pub open spec fn pushed(events: Seq<Event>) -> Seq<Task>
    decreases events.len(),
{
    if events.len() == 0 {
        Seq::empty()
    } else {
        match events.last() {
            Event::Push(task) => pushed(events.drop_last()).push(task),
            Event::Step => pushed(events.drop_last()),
        }
    }
}

/// The queue after `events` happened to `queue`.
pub open spec fn queue_after(queue: Seq<Task>, events: Seq<Event>) -> Seq<Task>
    decreases events.len(),
{
    if events.len() == 0 {
        queue
    } else {
        let before = queue_after(queue, events.drop_last());
        match events.last() {
            Event::Push(task) => before.push(task),
            Event::Step => queue_after_step(before),
        }
    }
}

/// The tasks that were handled while `events` happened to `queue`, in the
/// order in which they were handled.
pub open spec fn handled(queue: Seq<Task>, events: Seq<Event>) -> Seq<Task>
    decreases events.len(),
{
    if events.len() == 0 {
        Seq::empty()
    } else {
        let before = queue_after(queue, events.drop_last());
        let so_far = handled(queue, events.drop_last());
        match events.last() {
            Event::Push(_) => so_far,
            Event::Step => if before.len() > 0 {
                so_far.push(before[0])
            } else {
                so_far
            },
        }
    }
}

/// The tasks that page loads dropped while `events` happened to `queue`: a
/// page load starts the queue afresh, so what was queued behind it is never
/// handled.
pub open spec fn dropped(queue: Seq<Task>, events: Seq<Event>) -> Seq<Task>
    decreases events.len(),
{
    if events.len() == 0 {
        Seq::empty()
    } else {
        let before = queue_after(queue, events.drop_last());
        let so_far = dropped(queue, events.drop_last());
        match events.last() {
            Event::Push(_) => so_far,
            Event::Step => if before.len() > 0 && before[0] is LoadPage {
                so_far + before.drop_first()
            } else {
                so_far
            },
        }
    }
}

/// Every task is accounted for exactly once: the tasks that were queued at
/// the start and the tasks that handlers queued since are, taken together,
/// the tasks that were handled, the tasks that are still queued, and the
/// tasks that page loads dropped. So no task is handled twice, and none
/// disappears but behind a page load.
pub proof fn lemma_every_task_is_accounted_for(queue: Seq<Task>, events: Seq<Event>)
    ensures
        handled(queue, events).to_multiset().add(queue_after(queue, events).to_multiset()).add(
            dropped(queue, events).to_multiset(),
        ) == queue.to_multiset().add(pushed(events).to_multiset()),
    decreases events.len(),
{
    broadcast use vstd::multiset::group_multiset_axioms;
    broadcast use vstd::seq_lib::group_to_multiset_ensures;

    let nothing = Seq::<Task>::empty();
    assert(nothing.to_multiset() =~= Multiset::<Task>::empty());
    if events.len() == 0 {
        assert(handled(queue, events).to_multiset().add(
            queue_after(queue, events).to_multiset(),
        ).add(dropped(queue, events).to_multiset()) =~= queue.to_multiset().add(
            pushed(events).to_multiset(),
        ));
    } else {
        let earlier = events.drop_last();
        lemma_every_task_is_accounted_for(queue, earlier);
        let before = queue_after(queue, earlier);
        let so_far = handled(queue, earlier);
        let lost = dropped(queue, earlier);
        match events.last() {
            Event::Push(task) => {
                let accounted = so_far.to_multiset().add(before.to_multiset()).add(
                    lost.to_multiset(),
                );
                let queued = queue.to_multiset().add(pushed(earlier).to_multiset());
                assert(accounted == queued);
                assert(before.push(task).to_multiset() =~= before.to_multiset().insert(task));
                assert(pushed(earlier).push(task).to_multiset() =~= pushed(
                    earlier,
                ).to_multiset().insert(task));
                assert(so_far.to_multiset().add(before.to_multiset().insert(task)).add(
                    lost.to_multiset(),
                ) =~= accounted.insert(task));
                assert(queue.to_multiset().add(pushed(earlier).to_multiset().insert(task))
                    =~= queued.insert(task));
            },
            Event::Step => {
                if before.len() > 0 {
                    let rest = before.drop_first();
                    assert(rest == before.remove(0));
                    assert(before.to_multiset() =~= rest.to_multiset().insert(before[0]));
                    if before[0] is LoadPage {
                        lemma_multiset_commutative(lost, rest);
                        assert(so_far.push(before[0]).to_multiset().add(nothing.to_multiset()).add(
                            (lost + rest).to_multiset(),
                        ) =~= so_far.to_multiset().add(before.to_multiset()).add(
                            lost.to_multiset(),
                        ));
                    } else {
                        assert(so_far.push(before[0]).to_multiset().add(rest.to_multiset()).add(
                            lost.to_multiset(),
                        ) =~= so_far.to_multiset().add(before.to_multiset()).add(
                            lost.to_multiset(),
                        ));
                    }
                }
            },
        }
    }
}

/// While a queue is drained and no page load drops a task, the tasks are
/// handled in the order in which they came: the tasks handled so far,
/// followed by the tasks still queued, are the tasks that were queued at the
/// start followed by the tasks that handlers queued since.
pub proof fn lemma_drain_keeps_the_order(queue: Seq<Task>, events: Seq<Event>)
    requires
        dropped(queue, events).len() == 0,
    ensures
        handled(queue, events) + queue_after(queue, events) == queue + pushed(events),
    decreases events.len(),
{
    if events.len() == 0 {
        assert(handled(queue, events) + queue_after(queue, events) =~= queue + pushed(events));
    } else {
        let earlier = events.drop_last();
        lemma_drain_keeps_the_order(queue, earlier);
        let before = queue_after(queue, earlier);
        let so_far = handled(queue, earlier);
        match events.last() {
            Event::Push(task) => {
                assert(so_far + before.push(task) =~= (so_far + before).push(task));
                assert((queue + pushed(earlier)).push(task) =~= queue + pushed(earlier).push(
                    task,
                ));
            },
            Event::Step => {
                if before.len() > 0 {
                    assert(queue_after_step(before) =~= before.drop_first());
                    assert(so_far.push(before[0]) + before.drop_first() =~= so_far + before);
                }
            },
        }
    }
}

/// Draining to the end handles every task exactly once, oldest first: once
/// the queue is empty, the tasks handled are the tasks that were queued at
/// the start followed by the tasks that handlers queued meanwhile, unless a
/// page load dropped some of them.
pub proof fn lemma_drained_queue_handled_every_task(queue: Seq<Task>, events: Seq<Event>)
    requires
        dropped(queue, events).len() == 0,
        queue_after(queue, events).len() == 0,
    ensures
        handled(queue, events) == queue + pushed(events),
{
    lemma_drain_keeps_the_order(queue, events);
    assert(handled(queue, events) + queue_after(queue, events) =~= handled(queue, events));
}

impl Default for Tasks {
    fn default() -> (tasks: Tasks)
        ensures
            tasks@ == Seq::<Task>::empty(),
    {
        Tasks::new()
    }
}

} // verus!
