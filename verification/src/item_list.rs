//! The item list: the rows of a page, the cursor over them, and the detail
//! view of the row under the cursor.

use vstd::prelude::*;
use tui_additions::widgets::TextList;
use crate::item::{clone_items, labels_of, Item, Message, WatchHistory};
use crate::key::{KeyAction, KeyEvent};
use crate::page::{MainMenuPage, Page, Search};
use crate::status::Status;
use crate::store::FrameworkData;
use crate::task::{Task, Tasks};
use crate::text_list::{
    cursor_of, move_down, move_first, move_last, move_up, new_list, replace_non_ascii, rows_of,
    set_rows, text_list_cursor, text_list_height, text_list_rows, texts_of,
};

verus! {

/// The detail view: it holds the item whose details are on screen.
#[derive(Debug, PartialEq, Eq)]
pub struct ItemInfo {
    pub item: Option<Item>,
}

impl Clone for ItemInfo {
    fn clone(&self) -> (copy: Self)
        ensures
            copy == *self,
    {
        match &self.item {
            Some(item) => ItemInfo { item: Some(item.clone()) },
            None => ItemInfo { item: None },
        }
    }
}

impl Default for ItemInfo {
    fn default() -> (info: ItemInfo)
        ensures
            info.item is None,
    {
        ItemInfo { item: None }
    }
}

/// What has to be fetched from the remote service to fill a page.
#[derive(Debug, PartialEq, Eq)]
pub enum Request {
    Trending,
    Popular,
    Search(Search),
}

/// How a page load goes on after its first half.
#[derive(Debug, PartialEq, Eq)]
pub enum LoadStep {
    /// The list is blank and waits for the result of this request.
    Fetch(Request),
    /// The list is filled; nothing has to be fetched.
    Done,
}

/// A fetch that failed, with the reason as the remote side gave it.
#[derive(Debug, PartialEq, Eq)]
pub struct LoadError {
    pub message: String,
}

impl Clone for LoadError {
    fn clone(&self) -> (copy: Self)
        ensures
            copy == *self,
    {
        LoadError { message: self.message.clone() }
    }
}

impl LoadError {
    /// The message that tells the user of this failure.
    pub fn into_message(self) -> (message: Message)
        ensures
            message == Message::Error(self.message),
    {
        Message::Error(self.message)
    }
}

/// A broken invariant that makes a key press impossible to handle.
#[derive(Clone, Copy, Debug, PartialEq, Eq, Structural)]
pub enum Defect {
    /// A kind of value that the handler needs is not registered in the store.
    Unregistered,
    /// The rows, the cursor and the items of the list do not fit together.
    Inconsistent,
    /// The selected pager marker has no page to lead to: the current page is
    /// no search page, or the page number it would lead to does not exist.
    PagerWithoutTarget,
}

/// The request that fills `page`.
pub open spec fn request_for(page: Page) -> Request {
    match page {
        Page::Search(search) => Request::Search(search),
        Page::MainMenu(MainMenuPage::Popular) => Request::Popular,
        _ => Request::Trending,
    }
}

/// The rows of `page`, given what was fetched for it. Search results get a
/// marker for the next page behind them where there are any, and a marker
/// for the previous page in front of them on every page but the first.
pub open spec fn listing(page: Page, fetched: Seq<Item>) -> Seq<Item> {
    match page {
        Page::Search(search) => {
            let results = if fetched.len() > 0 {
                fetched.push(Item::Page(true))
            } else {
                fetched
            };
            if search.page != 1 {
                seq![Item::Page(false)] + results
            } else {
                results
            }
        },
        _ => fetched,
    }
}

/// Where `action` puts a cursor that stands on row `cursor` of `rows` rows.
/// Moving past either end leaves the cursor where it is.
pub open spec fn cursor_after(action: KeyAction, cursor: int, rows: int) -> int {
    match action {
        KeyAction::MoveUp => if cursor == 0 {
            0
        } else {
            cursor - 1
        },
        KeyAction::MoveDown => if cursor + 1 < rows {
            cursor + 1
        } else {
            cursor
        },
        KeyAction::MoveLeft => 0,
        KeyAction::MoveRight => if rows > 0 {
            rows - 1
        } else {
            cursor
        },
        _ => cursor,
    }
}

/// The tasks that `action` adds to the queue, given the item under the cursor
/// before the action, whether the cursor moved, and the current page.
/// Selecting an item that leads to a page asks for that page; selecting one
/// that leads nowhere asks for a redraw, and so does a cursor that moved.
pub open spec fn tasks_from(
    action: KeyAction,
    hovered: Option<Item>,
    moved: bool,
    page: Page,
) -> Seq<Task> {
    if action == KeyAction::Select {
        match hovered {
            Some(item) => match item.destination(page) {
                Some(target) => seq![Task::LoadPage(target)],
                None => seq![Task::RenderAll],
            },
            None => Seq::empty(),
        }
    } else if moved {
        seq![Task::RenderAll]
    } else {
        Seq::empty()
    }
}

/// A list of items with a cursor. `items` holds the rows, `textlist` holds
/// their texts and the cursor, and `info` shows the item under the cursor.
pub struct ItemList {
    pub info: ItemInfo,
    pub items: Vec<Item>,
    pub textlist: TextList,
}

impl Clone for ItemList {
    fn clone(&self) -> (copy: Self)
        ensures
            copy.info == self.info,
            copy.items@ == self.items@,
            text_list_rows(copy.textlist) == text_list_rows(self.textlist),
            text_list_cursor(copy.textlist) == text_list_cursor(self.textlist),
            text_list_height(copy.textlist) == text_list_height(self.textlist),
    {
        ItemList {
            info: self.info.clone(),
            items: clone_items(&self.items),
            textlist: self.textlist.clone(),
        }
    }
}

impl Default for ItemList {
    /// A blank list: no rows, the cursor on row 0, nothing in the detail view.
    fn default() -> (list: ItemList)
        ensures
            list.is_blank(),
    {
        let list = ItemList {
            info: ItemInfo::default(),
            items: Vec::new(),
            textlist: replace_non_ascii(new_list(), ' '),
        };
        assert(labels_of(list.items@) =~= Seq::<Seq<char>>::empty());
        list
    }
}

impl ItemList {
    /// The index of the row under the cursor.
    pub open spec fn cursor(&self) -> int {
        text_list_cursor(self.textlist) as int
    }

    /// The item under the cursor, if the cursor stands on a row.
    pub open spec fn hovered(&self) -> Option<Item> {
        if self.cursor() < self.items@.len() {
            Some(self.items@[self.cursor()])
        } else {
            None
        }
    }

    /// Whether the detail view shows the item under the cursor, and nothing
    /// where the cursor stands on no row.
    pub open spec fn synced(&self) -> bool {
        self.info.item == self.hovered()
    }

    /// Whether rows, cursor and items fit together: the widget holds the
    /// texts of the items, and the cursor stands on a row, or on row 0 of an
    /// empty list. The list is short enough for the widget's arithmetic.
    pub open spec fn wf(&self) -> bool {
        &&& text_list_rows(self.textlist) == labels_of(self.items@)
        &&& self.items@.len() + 0x1_0000 <= usize::MAX
        &&& if self.items@.len() == 0 {
            self.cursor() == 0
        } else {
            self.cursor() < self.items@.len()
        }
    }

    /// Whether the list is freshly filled with `items`: it holds them and
    /// their texts, the cursor is on row 0, the widget has no height yet, and
    /// the detail view shows the first item.
    pub open spec fn shows(&self, items: Seq<Item>) -> bool {
        &&& self.items@ == items
        &&& text_list_rows(self.textlist) == labels_of(items)
        &&& text_list_cursor(self.textlist) == 0
        &&& text_list_height(self.textlist) is None
        &&& self.info.item == if items.len() > 0 {
            Some(items[0])
        } else {
            None::<Item>
        }
    }

    /// Whether the list is blank.
    pub open spec fn is_blank(&self) -> bool {
        self.shows(Seq::empty())
    }

    /// Whether `action` can be handled while `page` is on screen: the list is
    /// well formed, and a selected pager marker has a page to lead to.
    pub open spec fn accepts(&self, action: KeyAction, page: Page) -> bool {
        &&& self.wf()
        &&& action == KeyAction::Select ==> match self.hovered() {
            Some(item) => item.selectable_on(page),
            None => true,
        }
    }

    /// What handling `action` does: `before` and the three `old_` values are
    /// the state before, `self` and the three `new_` values the state after,
    /// and `moved` is the result.
    pub open spec fn acted(
        &self,
        before: ItemList,
        action: KeyAction,
        page: Page,
        old_status: Status,
        new_status: Status,
        old_message: Message,
        new_message: Message,
        old_tasks: Seq<Task>,
        new_tasks: Seq<Task>,
        moved: bool,
    ) -> bool {
        &&& self.items@ == before.items@
        &&& text_list_rows(self.textlist) == text_list_rows(before.textlist)
        &&& text_list_height(self.textlist) == text_list_height(before.textlist)
        &&& self.cursor() == cursor_after(action, before.cursor(), before.items@.len() as int)
        &&& moved == (self.cursor() != before.cursor())
        &&& self.info.item == if moved {
            self.hovered()
        } else {
            before.info.item
        }
        &&& new_status == if moved {
            Status { popup_opened: old_status.popup_opened, render_image: true }
        } else {
            old_status
        }
        &&& if action == KeyAction::Select && before.hovered() matches Some(Item::Unknown(_)) {
            new_message.says("Unknown item"@)
        } else {
            new_message == old_message
        }
        &&& new_tasks == old_tasks + tasks_from(action, before.hovered(), moved, page)
    }

    /// An item list can always take the focus.
    pub fn selectable(&self) -> (selectable: bool)
        ensures
            selectable,
    {
        true
    }

    /// Makes the detail view show the item under the cursor, or nothing where
    /// the cursor stands on no row.
    pub fn update(&mut self)
        ensures
            final(self).items == old(self).items,
            final(self).textlist == old(self).textlist,
            final(self).synced(),
    {
        let cursor: usize = cursor_of(&self.textlist);
        if cursor < self.items.len() {
            self.info.item = Some(self.items[cursor].clone());
        } else {
            self.info.item = None;
        }
    }

    /// Fills the list with `items`, puts the cursor on row 0 and shows the
    /// first item in the detail view.
    fn show(&mut self, items: Vec<Item>)
        requires
            items@.len() + 0x1_0000 <= usize::MAX,
        ensures
            final(self).shows(items@),
            final(self).wf(),
            final(self).synced(),
    {
        let mut labels: Vec<String> = Vec::new();
        let mut done: usize = 0;
        while done < items.len()
            invariant
                done <= items.len(),
                labels@.len() == done,
                forall|k: int| 0 <= k < done ==> (#[trigger] labels@[k])@ == items@[k].label_text(),
            decreases items.len() - done,
        {
            labels.push(items[done].label());
            done += 1;
        }
        let mut textlist = replace_non_ascii(new_list(), ' ');
        let filled = set_rows(&mut textlist, &labels);
        assert(filled);
        assert(texts_of(labels@) =~= labels_of(items@));
        self.items = items;
        self.textlist = textlist;
        self.update();
    }

    /// Whether a page load can start from `framework`: a page is current and
    /// an item list can show it, and for the history page the watch history
    /// is registered and short enough for the widget's arithmetic.
    pub open spec fn loadable(framework: FrameworkData) -> bool {
        &&& framework.state.page matches Some(page)
        &&& page.is_listing()
        &&& !page.is_remote() ==> (framework.global.watch_history matches Some(history)
            && history@.len() + 0x1_0000 <= usize::MAX)
    }

    /// Whether the fetch for the current page of `framework` can be taken in:
    /// a page is current and its items come from the remote service.
    pub open spec fn awaits_fetch(framework: FrameworkData) -> bool {
        framework.state.page matches Some(page) && page.is_remote()
    }

    /// Tells whether a page load can start from `framework`.
    pub fn can_load(framework: &FrameworkData) -> (possible: bool)
        ensures
            possible == Self::loadable(*framework),
    {
        match &framework.state.page {
            Some(page) => {
                if !page.lists_items() {
                    false
                } else if page.fetches_remotely() {
                    true
                } else {
                    match &framework.global.watch_history {
                        Some(history) => history.0.len() <= usize::MAX - 0x1_0000,
                        None => false,
                    }
                }
            },
            None => false,
        }
    }

    /// Tells whether the fetch for the current page of `framework` can be
    /// taken in.
    pub fn expects_fetch(framework: &FrameworkData) -> (expected: bool)
        ensures
            expected == Self::awaits_fetch(*framework),
    {
        match &framework.state.page {
            Some(page) => page.fetches_remotely(),
            None => false,
        }
    }

    /// The first half of a page load. The list is emptied. For the history
    /// page it is then filled with the watch history, most recent entry
    /// first, and the load is done. For every other page the list stays blank
    /// and the result names what has to be fetched; `finish_load` takes what
    /// came back.
    pub fn load_item(&mut self, framework: &FrameworkData) -> (step: LoadStep)
        requires
            Self::loadable(*framework),
        ensures
            framework.state.page->0.is_remote() ==> step == LoadStep::Fetch(
                request_for(framework.state.page->0),
            ) && final(self).is_blank(),
            !framework.state.page->0.is_remote() ==> step == LoadStep::Done && final(self).shows(
                framework.global.watch_history->0@.reverse(),
            ),
            final(self).wf(),
            final(self).synced(),
    {
        match framework.state.page() {
            Page::MainMenu(MainMenuPage::History) => {
                self.show(framework.global.watch_history().most_recent_first());
                LoadStep::Done
            },
            Page::MainMenu(MainMenuPage::Popular) => {
                self.show(Vec::new());
                LoadStep::Fetch(Request::Popular)
            },
            Page::Search(search) => {
                self.show(Vec::new());
                LoadStep::Fetch(Request::Search(search.clone()))
            },
            _ => {
                self.show(Vec::new());
                LoadStep::Fetch(Request::Trending)
            },
        }
    }

    /// The second half of a page load: takes the outcome of the fetch. On
    /// success the list is filled with the rows of the page and the cursor
    /// stands on the first of them. On failure the list is blank and the
    /// failure is handed on.
    pub fn finish_load(&mut self, framework: &FrameworkData, fetched: Result<
        Vec<Item>,
        LoadError,
    >) -> (outcome: Result<(), LoadError>)
        requires
            Self::awaits_fetch(*framework),
            fetched matches Ok(items) ==> items@.len() + 0x1_0002 <= usize::MAX,
        ensures
            fetched matches Ok(items) ==> outcome is Ok && final(self).shows(
                listing(framework.state.page->0, items@),
            ),
            fetched matches Err(error) ==> outcome == Err::<(), LoadError>(error) && final(
                self
            ).is_blank(),
            final(self).wf(),
            final(self).synced(),
    {
        match fetched {
            Ok(items) => {
                self.show(list_rows(framework.state.page(), items));
                Ok(())
            },
            Err(error) => {
                self.show(Vec::new());
                Err(error)
            },
        }
    }

    /// The items whose thumbnails have to be downloaded: every item of the
    /// list where images are shown, none where they are not.
    pub fn thumbnail_batch(&self, display_images: bool) -> (batch: Vec<Item>)
        ensures
            batch@ == if display_images {
                self.items@
            } else {
                Seq::<Item>::empty()
            },
    {
        if display_images {
            clone_items(&self.items)
        } else {
            Vec::new()
        }
    }

    /// Tells whether rows, cursor and items fit together.
    pub fn is_well_formed(&self) -> (well_formed: bool)
        ensures
            well_formed == self.wf(),
    {
        let count: usize = self.items.len();
        if count > usize::MAX - 0x1_0000 {
            return false;
        }
        let cursor: usize = cursor_of(&self.textlist);
        if (count == 0 && cursor != 0) || (count > 0 && cursor >= count) {
            return false;
        }
        let rows = rows_of(&self.textlist);
        if rows.len() != count {
            assert(texts_of(rows@).len() != labels_of(self.items@).len());
            return false;
        }
        let mut checked: usize = 0;
        while checked < count
            invariant
                count == self.items@.len(),
                rows@.len() == count,
                texts_of(rows@) == text_list_rows(self.textlist),
                checked <= count,
                forall|k: int| 0 <= k < checked ==> (#[trigger] rows@[k])@ == self.items@[k].label_text(),
            decreases count - checked,
        {
            let label = self.items[checked].label();
            let same = rows[checked] == label;
            if !same {
                assert(texts_of(rows@)[checked as int] != labels_of(self.items@)[checked as int]);
                return false;
            }
            checked += 1;
        }
        assert(texts_of(rows@) =~= labels_of(self.items@));
        true
    }

    /// Tells whether `action` can be handled while `page` is on screen.
    pub fn can_act(&self, action: KeyAction, page: &Page) -> (defined: bool)
        ensures
            defined == self.accepts(action, *page),
    {
        if !self.is_well_formed() {
            return false;
        }
        match action {
            KeyAction::Select => {
                let cursor: usize = cursor_of(&self.textlist);
                if cursor < self.items.len() {
                    self.items[cursor].can_select_on(page)
                } else {
                    true
                }
            },
            _ => true,
        }
    }

    /// Handles `action`. The four movements move the cursor, clamped to the
    /// rows of the list. Where the cursor ends on another row, the image of
    /// the new row is marked as owed, the detail view follows the cursor and
    /// a redraw is queued. `Select` moves nothing: it queues the load of the
    /// page that the item under the cursor leads to, or, for an unrecognised
    /// entry, leaves a message and queues a redraw; on an empty list it does
    /// nothing. Every other action is ignored. The result tells whether the
    /// cursor moved.
    pub fn act(
        &mut self,
        action: KeyAction,
        page: &Page,
        status: &mut Status,
        message: &mut Message,
        tasks: &mut Tasks,
    ) -> (moved: bool)
        requires
            old(self).accepts(action, *page),
        ensures
            final(self).acted(
                *old(self),
                action,
                *page,
                *old(status),
                *final(status),
                *old(message),
                *final(message),
                old(tasks)@,
                final(tasks)@,
                moved,
            ),
            final(self).wf(),
            moved ==> final(self).synced(),
            old(self).synced() ==> final(self).synced(),
    {
        let before: usize = cursor_of(&self.textlist);
        match action {
            KeyAction::MoveUp => {
                move_up(&mut self.textlist);
            },
            KeyAction::MoveDown => {
                move_down(&mut self.textlist);
            },
            KeyAction::MoveLeft => {
                move_first(&mut self.textlist);
            },
            KeyAction::MoveRight => {
                if self.items.len() > 0 {
                    move_last(&mut self.textlist);
                }
            },
            KeyAction::Select => {
                if before < self.items.len() {
                    match self.items[before].navigate(page) {
                        Some(target) => {
                            tasks.push(Task::LoadPage(target));
                        },
                        None => {
                            *message = Message::unknown_item();
                            tasks.push(Task::RenderAll);
                        },
                    }
                }
            },
            _ => {},
        }
        let after: usize = cursor_of(&self.textlist);
        let moved = after != before;
        if moved {
            status.render_image = true;
            self.info.item = Some(self.items[after].clone());
            tasks.push(Task::RenderAll);
        }
        proof {
            assert(final(tasks)@ =~= old(tasks)@ + tasks_from(
                action,
                old(self).hovered(),
                moved,
                *page,
            ));
        }
        moved
    }

    /// Handles a key press. Where a kind of value that the handler reads or
    /// writes is not registered, nothing changes and the result says so. A
    /// key that the table binds to nothing is ignored. A bound key is handled
    /// as `act` handles its action, on the current page and on the status,
    /// the message and the task queue of the store; where the action cannot
    /// be handled, nothing changes and the result names the broken
    /// invariant.
    pub fn key_event(&mut self, framework: &mut FrameworkData, key: &KeyEvent) -> (outcome: Result<
        bool,
        Defect,
    >)
        ensures
            final(framework).global.key_bindings == old(framework).global.key_bindings,
            final(framework).global.watch_history == old(framework).global.watch_history,
            final(framework).state.page == old(framework).state.page,
            final(framework).serves_keys() == old(framework).serves_keys(),
            !old(framework).serves_keys() ==> {
                &&& outcome == Err::<bool, Defect>(Defect::Unregistered)
                &&& *final(self) == *old(self)
                &&& *final(framework) == *old(framework)
            },
            old(framework).serves_keys() ==> match old(framework).global.key_bindings->0.action_for(
                key.code,
                key.modifiers,
            ) {
                Some(action) if old(self).accepts(action, old(framework).state.page->0) => {
                    &&& outcome matches Ok(moved)
                    &&& final(self).acted(
                        *old(self),
                        action,
                        old(framework).state.page->0,
                        old(framework).global.status->0,
                        final(framework).global.status->0,
                        old(framework).global.message->0,
                        final(framework).global.message->0,
                        old(framework).state.tasks->0@,
                        final(framework).state.tasks->0@,
                        moved,
                    )
                    &&& final(self).wf()
                },
                Some(action) => {
                    &&& outcome == Err::<bool, Defect>(
                        if old(self).wf() {
                            Defect::PagerWithoutTarget
                        } else {
                            Defect::Inconsistent
                        },
                    )
                    &&& *final(self) == *old(self)
                    &&& *final(framework) == *old(framework)
                },
                None => {
                    &&& outcome == Ok::<bool, Defect>(false)
                    &&& *final(self) == *old(self)
                    &&& *final(framework) == *old(framework)
                },
            },
            old(self).synced() ==> final(self).synced(),
    {
        if !framework.can_serve_keys() {
            return Err(Defect::Unregistered);
        }
        let action = match framework.global.key_bindings().resolve(key) {
            Some(action) => action,
            None => {
                return Ok(false);
            },
        };
        match (
            &framework.state.page,
            &mut framework.global.status,
            &mut framework.global.message,
            &mut framework.state.tasks,
        ) {
            (Some(page), Some(status), Some(message), Some(tasks)) => {
                if self.can_act(action, page) {
                    Ok(self.act(action, page, status, message, tasks))
                } else if self.is_well_formed() {
                    Err(Defect::PagerWithoutTarget)
                } else {
                    Err(Defect::Inconsistent)
                }
            },
            _ => Err(Defect::Unregistered),
        }
    }
}

/// Where a cursor that stands on row `cursor` of `rows` rows is after
/// `actions`, handled one after the other.
pub open spec fn cursor_after_all(actions: Seq<KeyAction>, cursor: int, rows: int) -> int
    decreases actions.len(),
{
    if actions.len() == 0 {
        cursor
    } else {
        cursor_after(actions.last(), cursor_after_all(actions.drop_last(), cursor, rows), rows)
    }
}

/// The cursor never leaves the rows: whatever keys are pressed, and in
/// whatever order, a cursor that stands on a row still stands on a row.
pub proof fn lemma_cursor_stays_on_a_row(actions: Seq<KeyAction>, cursor: int, rows: int)
    requires
        0 <= cursor < rows,
    ensures
        0 <= cursor_after_all(actions, cursor, rows) < rows,
    decreases actions.len(),
{
    if actions.len() > 0 {
        lemma_cursor_stays_on_a_row(actions.drop_last(), cursor, rows);
    }
}

/// Moving up from the first row is no movement, however often it is
/// repeated: the cursor stays on row 0.
pub proof fn lemma_move_up_stops_at_first_row(actions: Seq<KeyAction>, rows: int)
    requires
        forall|i: int| 0 <= i < actions.len() ==> actions[i] == KeyAction::MoveUp,
    ensures
        cursor_after_all(actions, 0, rows) == 0,
    decreases actions.len(),
{
    if actions.len() > 0 {
        lemma_move_up_stops_at_first_row(actions.drop_last(), rows);
    }
}

/// Moving down from the last row is no movement, however often it is
/// repeated: the cursor stays on the last row.
pub proof fn lemma_move_down_stops_at_last_row(actions: Seq<KeyAction>, rows: int)
    requires
        rows > 0,
        forall|i: int| 0 <= i < actions.len() ==> actions[i] == KeyAction::MoveDown,
    ensures
        cursor_after_all(actions, rows - 1, rows) == rows - 1,
    decreases actions.len(),
{
    if actions.len() > 0 {
        lemma_move_down_stops_at_last_row(actions.drop_last(), rows);
    }
}

/// The rows of a search page are the results, with a marker for the previous
/// page in front of them on every page but the first, and a marker for the
/// next page behind them where there are results. So the two markers never
/// stand alone together.
pub proof fn lemma_search_rows(search: Search, fetched: Seq<Item>)
    ensures
        listing(Page::Search(search), fetched) == (if search.page != 1 {
            seq![Item::Page(false)]
        } else {
            Seq::<Item>::empty()
        }) + fetched + (if fetched.len() > 0 {
            seq![Item::Page(true)]
        } else {
            Seq::<Item>::empty()
        }),
        fetched.len() > 0 ==> listing(Page::Search(search), fetched).last() == Item::Page(true),
        search.page != 1 ==> listing(Page::Search(search), fetched)[0] == Item::Page(false),
        search.page == 1 && fetched.len() > 0 ==> listing(Page::Search(search), fetched)[0]
            == fetched[0],
        fetched.len() == 0 ==> listing(Page::Search(search), fetched).len() <= 1,
{
    let front = if search.page != 1 {
        seq![Item::Page(false)]
    } else {
        Seq::<Item>::empty()
    };
    let back = if fetched.len() > 0 {
        seq![Item::Page(true)]
    } else {
        Seq::<Item>::empty()
    };
    assert(listing(Page::Search(search), fetched) =~= front + fetched + back);
}

/// A pager marker only ever comes from a search page: on every other page
/// the rows are what was fetched, so they hold a marker only if the fetched
/// items did.
pub proof fn lemma_markers_come_from_search(page: Page, fetched: Seq<Item>)
    requires
        !(page is Search),
        forall|i: int| 0 <= i < fetched.len() ==> !(#[trigger] fetched[i]).is_pager(),
    ensures
        forall|i: int|
            0 <= i < listing(page, fetched).len() ==> !(#[trigger] listing(
                page,
                fetched,
            )[i]).is_pager(),
{
}

/// Builds the rows of `page` from what was fetched for it.
pub fn list_rows(page: &Page, fetched: Vec<Item>) -> (rows: Vec<Item>)
    ensures
        rows@ == listing(*page, fetched@),
{
    let mut rows = fetched;
    match page {
        Page::Search(search) => {
            if rows.len() > 0 {
                rows.push(Item::Page(true));
            }
            if search.page != 1 {
                rows.insert(0, Item::Page(false));
            }
            assert(rows@ =~= listing(*page, fetched@));
        },
        _ => {},
    }
    rows
}

} // verus!
