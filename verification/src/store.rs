//! The typed state store: one slot for each kind of value, in two
//! partitions. The global partition lives as long as the process; the state
//! partition is built anew for every page.

use vstd::prelude::*;
use crate::item::{Item, Message, WatchHistory};
use crate::key::KeyBindingsConfig;
use crate::page::Page;
use crate::status::Status;
use crate::task::{effect_of, queue_after_step, Effect, Task, Tasks};

verus! {

/// The partition that lives as long as the process. A slot holds a value
/// once one was registered; a lookup in an empty slot is a defect of the
/// caller.
pub struct GlobalData {
    pub status: Option<Status>,
    pub message: Option<Message>,
    pub watch_history: Option<WatchHistory>,
    pub key_bindings: Option<KeyBindingsConfig>,
}

/// The partition that belongs to the current page.
pub struct StateData {
    pub page: Option<Page>,
    pub tasks: Option<Tasks>,
}

/// Both partitions of the store.
pub struct FrameworkData {
    pub global: GlobalData,
    pub state: StateData,
}

impl GlobalData {
    /// A partition in which nothing is registered.
    pub fn new() -> (global: GlobalData)
        ensures
            global.status is None,
            global.message is None,
            global.watch_history is None,
            global.key_bindings is None,
    {
        GlobalData { status: None, message: None, watch_history: None, key_bindings: None }
    }

    /// The partition as it is at the start of the process: the initial
    /// status, no message, an empty watch history, and the given key
    /// bindings.
    pub fn startup(key_bindings: KeyBindingsConfig) -> (global: GlobalData)
        ensures
            global.status == Some(Status::initial()),
            global.message == Some(Message::Empty),
            global.watch_history matches Some(history) && history@ == Seq::<Item>::empty(),
            global.key_bindings == Some(key_bindings),
    {
        GlobalData {
            status: Some(Status::default()),
            message: Some(Message::Empty),
            watch_history: Some(WatchHistory::new()),
            key_bindings: Some(key_bindings),
        }
    }

    /// The registered status.
    pub fn status(&self) -> (status: &Status)
        requires
            self.status is Some,
        ensures
            Some(*status) == self.status,
    {
        self.status.as_ref().unwrap()
    }

    /// The registered message.
    pub fn message(&self) -> (message: &Message)
        requires
            self.message is Some,
        ensures
            Some(*message) == self.message,
    {
        self.message.as_ref().unwrap()
    }

    /// The registered watch history.
    pub fn watch_history(&self) -> (history: &WatchHistory)
        requires
            self.watch_history is Some,
        ensures
            Some(*history) == self.watch_history,
    {
        self.watch_history.as_ref().unwrap()
    }

    /// The registered key bindings.
    pub fn key_bindings(&self) -> (bindings: &KeyBindingsConfig)
        requires
            self.key_bindings is Some,
        ensures
            Some(*bindings) == self.key_bindings,
    {
        self.key_bindings.as_ref().unwrap()
    }
}

impl StateData {
    /// A partition in which nothing is registered.
    pub fn new() -> (state: StateData)
        ensures
            state.page is None,
            state.tasks is None,
    {
        StateData { page: None, tasks: None }
    }

    /// The partition of a page that was just entered: the page itself and an
    /// empty task queue.
    pub fn for_page(page: Page) -> (state: StateData)
        ensures
            state.page == Some(page),
            state.tasks matches Some(tasks) && tasks@ == Seq::<Task>::empty(),
    {
        StateData { page: Some(page), tasks: Some(Tasks::new()) }
    }

    /// The current page.
    pub fn page(&self) -> (page: &Page)
        requires
            self.page is Some,
        ensures
            Some(*page) == self.page,
    {
        self.page.as_ref().unwrap()
    }

    /// The task queue.
    pub fn tasks(&self) -> (tasks: &Tasks)
        requires
            self.tasks is Some,
        ensures
            Some(*tasks) == self.tasks,
    {
        self.tasks.as_ref().unwrap()
    }

    /// Queues `task`.
    pub fn push_task(&mut self, task: Task)
        requires
            old(self).tasks is Some,
        ensures
            final(self).page == old(self).page,
            final(self).tasks matches Some(tasks) && tasks@ == old(self).tasks->0@.push(task),
    {
        match &mut self.tasks {
            Some(tasks) => {
                tasks.push(task);
            },
            None => {},
        }
    }

    /// One step of the drain: handles the oldest task and tells the driver
    /// what to do. A page load makes its page the current one and starts the
    /// queue afresh; a redraw and `Quit` only leave the queue. With no task
    /// pending nothing changes and the driver is sent back to its input.
    pub fn next_effect(&mut self) -> (effect: Effect)
        requires
            old(self).tasks is Some,
        ensures
            final(self).tasks matches Some(tasks) && tasks@ == queue_after_step(
                old(self).tasks->0@,
            ),
            effect is Idle <==> old(self).tasks->0@.len() == 0,
            old(self).tasks->0@.len() > 0 ==> effect == effect_of(old(self).tasks->0@[0]),
            final(self).page == match effect {
                Effect::Load(page) => Some(page),
                _ => old(self).page,
            },
    {
        let next = match &mut self.tasks {
            Some(tasks) => tasks.pop(),
            None => None,
        };
        match next {
            Some(Task::LoadPage(page)) => {
                let target = page.clone();
                *self = StateData::for_page(page);
                Effect::Load(target)
            },
            Some(Task::RenderAll) => Effect::Render,
            Some(Task::Quit) => Effect::Stop,
            None => Effect::Idle,
        }
    }
}

impl FrameworkData {
    /// The store at the start of the process, with `page` on screen.
    pub fn startup(key_bindings: KeyBindingsConfig, page: Page) -> (data: FrameworkData)
        ensures
            data.is_complete(),
            data.state.page == Some(page),
            data.state.tasks->0@ == Seq::<Task>::empty(),
            data.global.status == Some(Status::initial()),
            data.global.message == Some(Message::Empty),
            data.global.watch_history->0@ == Seq::<Item>::empty(),
            data.global.key_bindings == Some(key_bindings),
    {
        FrameworkData { global: GlobalData::startup(key_bindings), state: StateData::for_page(page) }
    }

    /// Whether every kind of value is registered.
    pub open spec fn is_complete(&self) -> bool {
        &&& self.global.status is Some
        &&& self.global.message is Some
        &&& self.global.watch_history is Some
        &&& self.global.key_bindings is Some
        &&& self.state.page is Some
        &&& self.state.tasks is Some
    }

    /// Whether everything that a key handler reads or writes is registered:
    /// the key bindings, the status, the message, the current page and the
    /// task queue.
    pub open spec fn serves_keys(&self) -> bool {
        &&& self.global.status is Some
        &&& self.global.message is Some
        &&& self.global.key_bindings is Some
        &&& self.state.page is Some
        &&& self.state.tasks is Some
    }

    /// Tells whether everything that a key handler reads or writes is
    /// registered.
    pub fn can_serve_keys(&self) -> (served: bool)
        ensures
            served == self.serves_keys(),
    {
        self.global.status.is_some() && self.global.message.is_some()
            && self.global.key_bindings.is_some() && self.state.page.is_some()
            && self.state.tasks.is_some()
    }

    /// Tells whether every kind of value is registered.
    pub fn complete(&self) -> (complete: bool)
        ensures
            complete == self.is_complete(),
    {
        self.global.status.is_some() && self.global.message.is_some()
            && self.global.watch_history.is_some() && self.global.key_bindings.is_some()
            && self.state.page.is_some() && self.state.tasks.is_some()
    }

    /// Enters `next`: the state partition is built anew for it. The global
    /// partition stays as it is.
    pub fn load_page(&mut self, next: Page)
        ensures
            final(self).global == old(self).global,
            final(self).state.page == Some(next),
            final(self).state.tasks matches Some(tasks) && tasks@ == Seq::<Task>::empty(),
    {
        self.state = StateData::for_page(next);
    }
}

} // verus!
