use youtube_tui::{
    Effect, FrameworkData, GlobalData, KeyBindingsConfig, MainMenuPage, Message, Page, Search,
    StateData, Status, Task, Tasks,
};

fn search(query: &str, page: usize) -> Page {
    Page::Search(Search { query: query.to_string(), page })
}

#[test]
fn new_queue_is_empty() {
    let tasks = Tasks::new();
    assert!(tasks.is_empty());
    assert_eq!(tasks.len(), 0);
    assert_eq!(Tasks::default(), tasks);
}

#[test]
fn tasks_leave_in_the_order_they_came() {
    let mut tasks = Tasks::new();
    tasks.push(Task::RenderAll);
    tasks.push(Task::LoadPage(search("x", 1)));
    tasks.push(Task::Quit);
    assert_eq!(tasks.len(), 3);
    assert_eq!(tasks.pop(), Some(Task::RenderAll));
    assert_eq!(tasks.pop(), Some(Task::LoadPage(search("x", 1))));
    assert_eq!(tasks.pop(), Some(Task::Quit));
    assert_eq!(tasks.pop(), None);
    assert!(tasks.is_empty());
}

#[test]
fn pop_of_an_empty_queue_changes_nothing() {
    let mut tasks = Tasks::new();
    assert_eq!(tasks.pop(), None);
    assert_eq!(tasks, Tasks::new());
}

#[test]
fn reset_drops_every_task() {
    let mut tasks = Tasks::new();
    tasks.push(Task::RenderAll);
    tasks.push(Task::Quit);
    tasks.reset();
    assert!(tasks.is_empty());
}

#[test]
fn cloned_queue_holds_the_same_tasks() {
    let mut tasks = Tasks::new();
    tasks.push(Task::LoadPage(search("x", 2)));
    tasks.push(Task::RenderAll);
    assert_eq!(tasks.clone(), tasks);
}

#[test]
fn idle_when_no_task_is_pending() {
    let mut state = StateData::for_page(Page::MainMenu(MainMenuPage::Trending));
    assert_eq!(state.next_effect(), Effect::Idle);
    assert_eq!(state.page, Some(Page::MainMenu(MainMenuPage::Trending)));
    assert_eq!(state.tasks, Some(Tasks::new()));
}

#[test]
fn render_task_asks_for_a_redraw() {
    let mut state = StateData::for_page(Page::MainMenu(MainMenuPage::Trending));
    state.push_task(Task::RenderAll);
    assert_eq!(state.next_effect(), Effect::Render);
    assert_eq!(state.page, Some(Page::MainMenu(MainMenuPage::Trending)));
    assert_eq!(state.next_effect(), Effect::Idle);
}

#[test]
fn quit_task_stops_and_leaves_the_rest() {
    let mut state = StateData::for_page(Page::MainMenu(MainMenuPage::Popular));
    state.push_task(Task::Quit);
    state.push_task(Task::RenderAll);
    assert_eq!(state.next_effect(), Effect::Stop);
    assert_eq!(state.tasks.as_ref().map(|tasks| tasks.len()), Some(1));
    assert_eq!(state.page, Some(Page::MainMenu(MainMenuPage::Popular)));
}

#[test]
fn load_task_replaces_the_page_and_restarts_the_queue() {
    let mut state = StateData::for_page(Page::MainMenu(MainMenuPage::Trending));
    state.push_task(Task::LoadPage(search("x", 3)));
    state.push_task(Task::RenderAll);
    assert_eq!(state.next_effect(), Effect::Load(search("x", 3)));
    assert_eq!(state.page, Some(search("x", 3)));
    assert_eq!(state.tasks, Some(Tasks::new()));
    assert_eq!(state.next_effect(), Effect::Idle);
}

#[test]
fn drain_handles_each_task_once_and_what_handlers_push() {
    let mut state = StateData::for_page(Page::MainMenu(MainMenuPage::Trending));
    state.push_task(Task::RenderAll);
    state.push_task(Task::RenderAll);
    state.push_task(Task::RenderAll);
    let mut effects = Vec::new();
    let mut pushed_once = false;
    loop {
        let effect = state.next_effect();
        if effect == Effect::Idle {
            break;
        }
        effects.push(effect);
        if !pushed_once {
            // a handler queues more work while the queue is drained
            state.push_task(Task::RenderAll);
            pushed_once = true;
        }
    }
    assert_eq!(effects, vec![Effect::Render, Effect::Render, Effect::Render, Effect::Render]);
    assert_eq!(state.tasks, Some(Tasks::new()));
}

#[test]
fn nothing_is_registered_in_a_new_store() {
    let global = GlobalData::new();
    assert!(global.status.is_none());
    assert!(global.message.is_none());
    assert!(global.watch_history.is_none());
    assert!(global.key_bindings.is_none());
    let state = StateData::new();
    assert!(state.page.is_none());
    assert!(state.tasks.is_none());
    let data = FrameworkData { global, state };
    assert!(!data.complete());
}

#[test]
fn store_at_startup_is_complete() {
    let data = FrameworkData::startup(KeyBindingsConfig::new(), Page::MainMenu(MainMenuPage::Trending));
    assert!(data.complete());
    assert_eq!(*data.global.status(), Status::default());
    assert_eq!(*data.global.message(), Message::Empty);
    assert_eq!(data.global.watch_history().0.len(), 0);
    assert_eq!(*data.state.page(), Page::MainMenu(MainMenuPage::Trending));
    assert!(data.state.tasks().is_empty());
    assert!(data.global.key_bindings().resolve(&youtube_tui::KeyEvent {
        code: youtube_tui::KeyCode::Enter,
        modifiers: 0,
    }).is_none());
}

#[test]
fn store_with_one_empty_slot_is_not_complete() {
    let mut data = FrameworkData::startup(KeyBindingsConfig::new(), Page::MainMenu(MainMenuPage::Trending));
    data.global.message = None;
    assert!(!data.complete());
    data.global.message = Some(Message::Empty);
    assert!(data.complete());
    data.state.tasks = None;
    assert!(!data.complete());
}

#[test]
fn entering_a_page_rebuilds_the_state_and_keeps_the_rest() {
    let mut data = FrameworkData::startup(KeyBindingsConfig::new(), Page::MainMenu(MainMenuPage::Trending));
    data.global.status = Some(Status { popup_opened: true, render_image: false });
    data.global.message = Some(Message::Message(String::from("hello")));
    data.state.push_task(Task::RenderAll);
    data.load_page(search("cats", 1));
    assert_eq!(data.state.page, Some(search("cats", 1)));
    assert_eq!(data.state.tasks, Some(Tasks::new()));
    assert_eq!(data.global.status, Some(Status { popup_opened: true, render_image: false }));
    assert_eq!(data.global.message, Some(Message::Message(String::from("hello"))));
}
