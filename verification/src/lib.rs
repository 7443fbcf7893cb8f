//! Navigation and task-scheduling core of a terminal front-end that browses a
//! video catalogue.
//!
//! - [`page`]: the pages a user can be on.
//! - [`item`]: what a list shows, where selecting it leads, the watch
//!   history and the message slot.
//! - [`key`]: from a key press to the action it is bound to.
//! - [`task`]: the queue of pending work, and what draining it guarantees.
//! - [`store`]: the typed state store and the step of the drain.
//! - [`item_list`]: the list component: loading a page, moving the cursor,
//!   selecting an item.
//! - [`appearance`]: the colours a list is drawn in.
//! - [`status`]: the status flags.
//! - [`text_list`]: the list widget of `tui_additions`, which holds the rows
//!   and the cursor of an item list. Its contracts are stated, not proved;
//!   everything else in this crate is proved against them.

pub mod appearance;
pub mod item;
pub mod item_list;
pub mod key;
pub mod page;
pub mod status;
pub mod store;
pub mod task;
pub mod text_list;

pub use appearance::{ListAppearance, PaletteColor};
pub use item::{
    FullChannelItem, FullPlaylistItem, FullVideoItem, Item, Message, MiniChannelItem,
    MiniPlaylistItem, MiniVideoItem, WatchHistory,
};
pub use item_list::{Defect, ItemInfo, ItemList, LoadError, LoadStep, Request};
pub use key::{KeyAction, KeyBindingsConfig, KeyCode, KeyEvent};
pub use page::{ChannelDisplayPage, ChannelDisplayPageType, MainMenuPage, Page, Search, SingleItemPage};
pub use status::Status;
pub use store::{FrameworkData, GlobalData, StateData};
pub use task::{Effect, Event, Task, Tasks};
