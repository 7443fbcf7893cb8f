//! The content shown in lists: videos, playlists, channels, pager markers and
//! entries of an unrecognised shape, together with the watch history and the
//! message slot.

use vstd::prelude::*;
use crate::page::{ChannelDisplayPage, ChannelDisplayPageType, Page, Search, SingleItemPage};

verus! {

/// A video as a listing describes it.
#[derive(Debug, PartialEq, Eq)]
pub struct MiniVideoItem {
    pub id: String,
    pub title: String,
    pub channel: String,
}

/// A video as its own page describes it.
#[derive(Debug, PartialEq, Eq)]
pub struct FullVideoItem {
    pub id: String,
    pub title: String,
    pub channel: String,
    pub description: String,
}

/// A playlist as a listing describes it.
#[derive(Debug, PartialEq, Eq)]
pub struct MiniPlaylistItem {
    pub id: String,
    pub title: String,
    pub author: String,
}

/// A playlist as its own page describes it.
#[derive(Debug, PartialEq, Eq)]
pub struct FullPlaylistItem {
    pub id: String,
    pub title: String,
    pub author: String,
    pub description: String,
}

/// A channel as a listing describes it.
#[derive(Debug, PartialEq, Eq)]
pub struct MiniChannelItem {
    pub id: String,
    pub name: String,
}

/// A channel as its own page describes it.
#[derive(Debug, PartialEq, Eq)]
pub struct FullChannelItem {
    pub id: String,
    pub name: String,
    pub description: String,
}

/// One row of a list. `Page(true)` and `Page(false)` are the pager markers
/// that lead to the next and to the previous page of search results;
/// `Unknown` holds a description of an entry that was not recognised.
#[derive(Debug, PartialEq, Eq)]
pub enum Item {
    MiniVideo(MiniVideoItem),
    FullVideo(FullVideoItem),
    MiniPlaylist(MiniPlaylistItem),
    FullPlaylist(FullPlaylistItem),
    MiniChannel(MiniChannelItem),
    FullChannel(FullChannelItem),
    Page(bool),
    Unknown(String),
}

impl Clone for MiniVideoItem {
    fn clone(&self) -> (copy: Self)
        ensures
            copy == *self,
    {
        MiniVideoItem {
            id: self.id.clone(),
            title: self.title.clone(),
            channel: self.channel.clone(),
        }
    }
}

impl Clone for FullVideoItem {
    fn clone(&self) -> (copy: Self)
        ensures
            copy == *self,
    {
        FullVideoItem {
            id: self.id.clone(),
            title: self.title.clone(),
            channel: self.channel.clone(),
            description: self.description.clone(),
        }
    }
}

impl Clone for MiniPlaylistItem {
    fn clone(&self) -> (copy: Self)
        ensures
            copy == *self,
    {
        MiniPlaylistItem {
            id: self.id.clone(),
            title: self.title.clone(),
            author: self.author.clone(),
        }
    }
}

impl Clone for FullPlaylistItem {
    fn clone(&self) -> (copy: Self)
        ensures
            copy == *self,
    {
        FullPlaylistItem {
            id: self.id.clone(),
            title: self.title.clone(),
            author: self.author.clone(),
            description: self.description.clone(),
        }
    }
}

impl Clone for MiniChannelItem {
    fn clone(&self) -> (copy: Self)
        ensures
            copy == *self,
    {
        MiniChannelItem { id: self.id.clone(), name: self.name.clone() }
    }
}

impl Clone for FullChannelItem {
    fn clone(&self) -> (copy: Self)
        ensures
            copy == *self,
    {
        FullChannelItem {
            id: self.id.clone(),
            name: self.name.clone(),
            description: self.description.clone(),
        }
    }
}

impl Clone for Item {
    fn clone(&self) -> (copy: Self)
        ensures
            copy == *self,
    {
        match self {
            Item::MiniVideo(video) => Item::MiniVideo(video.clone()),
            Item::FullVideo(video) => Item::FullVideo(video.clone()),
            Item::MiniPlaylist(playlist) => Item::MiniPlaylist(playlist.clone()),
            Item::FullPlaylist(playlist) => Item::FullPlaylist(playlist.clone()),
            Item::MiniChannel(channel) => Item::MiniChannel(channel.clone()),
            Item::FullChannel(channel) => Item::FullChannel(channel.clone()),
            Item::Page(next) => Item::Page(*next),
            Item::Unknown(description) => Item::Unknown(description.clone()),
        }
    }
}

impl Item {
    /// The text of the row that shows this item.
    pub open spec fn label_text(self) -> Seq<char> {
        match self {
            Item::MiniVideo(video) => video.title@,
            Item::FullVideo(video) => video.title@,
            Item::MiniPlaylist(playlist) => playlist.title@,
            Item::FullPlaylist(playlist) => playlist.title@,
            Item::MiniChannel(channel) => channel.name@,
            Item::FullChannel(channel) => channel.name@,
            Item::Page(next) => if next {
                "Next page"@
            } else {
                "Previous page"@
            },
            Item::Unknown(description) => description@,
        }
    }

    /// Whether this item is a pager marker.
    pub open spec fn is_pager(self) -> bool {
        self is Page
    }

    /// Whether selecting this item is defined while `current` is on screen.
    /// A pager marker can only be selected on a search page, and only where
    /// the neighbouring page number exists.
    pub open spec fn selectable_on(self, current: Page) -> bool {
        match self {
            Item::Page(next) => current matches Page::Search(search) && if next {
                search.page < usize::MAX
            } else {
                search.page > 0
            },
            _ => true,
        }
    }

    /// The page that selecting this item leads to, if it leads anywhere:
    /// a video or a playlist opens its own page, a channel opens its main
    /// channel page, a pager marker repeats the current search one page
    /// further on or back, and an unrecognised entry leads nowhere.
    pub open spec fn destination(self, current: Page) -> Option<Page> {
        match self {
            Item::MiniVideo(video) => Some(Page::SingleItem(SingleItemPage::Video(video.id))),
            Item::FullVideo(video) => Some(Page::SingleItem(SingleItemPage::Video(video.id))),
            Item::MiniPlaylist(playlist) => Some(
                Page::SingleItem(SingleItemPage::Playlist(playlist.id)),
            ),
            Item::FullPlaylist(playlist) => Some(
                Page::SingleItem(SingleItemPage::Playlist(playlist.id)),
            ),
            Item::MiniChannel(channel) => Some(
                Page::ChannelDisplay(
                    ChannelDisplayPage { id: channel.id, kind: ChannelDisplayPageType::Main },
                ),
            ),
            Item::FullChannel(channel) => Some(
                Page::ChannelDisplay(
                    ChannelDisplayPage { id: channel.id, kind: ChannelDisplayPageType::Main },
                ),
            ),
            Item::Page(next) => match current {
                Page::Search(search) => Some(
                    Page::Search(
                        if next {
                            search.following()
                        } else {
                            search.preceding()
                        },
                    ),
                ),
                _ => None,
            },
            Item::Unknown(_) => None,
        }
    }

    /// Returns the text of the row that shows this item.
    pub fn label(&self) -> (text: String)
        ensures
            text@ == self.label_text(),
    {
        match self {
            Item::MiniVideo(video) => video.title.clone(),
            Item::FullVideo(video) => video.title.clone(),
            Item::MiniPlaylist(playlist) => playlist.title.clone(),
            Item::FullPlaylist(playlist) => playlist.title.clone(),
            Item::MiniChannel(channel) => channel.name.clone(),
            Item::FullChannel(channel) => channel.name.clone(),
            Item::Page(next) => if *next {
                "Next page".to_owned()
            } else {
                "Previous page".to_owned()
            },
            Item::Unknown(description) => description.clone(),
        }
    }

    /// Tells whether selecting this item is defined while `current` is on
    /// screen.
    pub fn can_select_on(&self, current: &Page) -> (defined: bool)
        ensures
            defined == self.selectable_on(*current),
    {
        match self {
            Item::Page(next) => match current {
                Page::Search(search) => if *next {
                    search.page < usize::MAX
                } else {
                    search.page > 0
                },
                _ => false,
            },
            _ => true,
        }
    }

    /// Returns the page that selecting this item leads to, or `None` for an
    /// unrecognised entry.
    pub fn navigate(&self, current: &Page) -> (target: Option<Page>)
        requires
            self.selectable_on(*current),
        ensures
            target == self.destination(*current),
            target is None <==> *self is Unknown,
    {
        match self {
            Item::MiniVideo(video) => Some(Page::SingleItem(SingleItemPage::Video(video.id.clone()))),
            Item::FullVideo(video) => Some(Page::SingleItem(SingleItemPage::Video(video.id.clone()))),
            Item::MiniPlaylist(playlist) => Some(
                Page::SingleItem(SingleItemPage::Playlist(playlist.id.clone())),
            ),
            Item::FullPlaylist(playlist) => Some(
                Page::SingleItem(SingleItemPage::Playlist(playlist.id.clone())),
            ),
            Item::MiniChannel(channel) => Some(
                Page::ChannelDisplay(
                    ChannelDisplayPage { id: channel.id.clone(), kind: ChannelDisplayPageType::Main },
                ),
            ),
            Item::FullChannel(channel) => Some(
                Page::ChannelDisplay(
                    ChannelDisplayPage { id: channel.id.clone(), kind: ChannelDisplayPageType::Main },
                ),
            ),
            Item::Page(next) => match current {
                Page::Search(search) => if *next {
                    Some(Page::Search(search.next_page()))
                } else {
                    Some(Page::Search(search.previous_page()))
                },
                _ => None,
            },
            Item::Unknown(_) => None,
        }
    }
}

/// The texts of the rows that show `items`, in order.
pub open spec fn labels_of(items: Seq<Item>) -> Seq<Seq<char>> {
    Seq::new(items.len(), |i: int| items[i].label_text())
}

/// The last message for the user.
#[derive(Debug, PartialEq, Eq)]
pub enum Message {
    Empty,
    Message(String),
    Error(String),
}

impl Clone for Message {
    fn clone(&self) -> (copy: Self)
        ensures
            copy == *self,
    {
        match self {
            Message::Empty => Message::Empty,
            Message::Message(text) => Message::Message(text.clone()),
            Message::Error(text) => Message::Error(text.clone()),
        }
    }
}

/// The message is kept in the framework's typed store under its own type.
impl typemap::Key for Message {
    type Value = Message;
}

impl Message {
    /// Whether this is a plain message with the given text.
    pub open spec fn says(self, text: Seq<char>) -> bool {
        self matches Message::Message(held) && held@ == text
    }

    /// The message shown when an unrecognised entry is selected.
    pub fn unknown_item() -> (message: Message)
        ensures
            message.says("Unknown item"@),
    {
        Message::Message("Unknown item".to_owned())
    }
}

/// The items that were played, oldest first. Entries are only ever appended.
#[derive(Debug, PartialEq, Eq)]
pub struct WatchHistory(pub Vec<Item>);

impl View for WatchHistory {
    type V = Seq<Item>;

    open spec fn view(&self) -> Seq<Item> {
        self.0@
    }
}

impl Clone for WatchHistory {
    fn clone(&self) -> (copy: Self)
        ensures
            copy@ == self@,
    {
        WatchHistory(clone_items(&self.0))
    }
}

/// The watch history is kept in the framework's typed store under its own
/// type.
impl typemap::Key for WatchHistory {
    type Value = WatchHistory;
}

impl WatchHistory {
    /// A history with no entry.
    pub fn new() -> (history: WatchHistory)
        ensures
            history@ == Seq::<Item>::empty(),
    {
        WatchHistory(Vec::new())
    }

    /// Records `item` as the most recent entry.
    pub fn push(&mut self, item: Item)
        ensures
            final(self)@ == old(self)@.push(item),
    {
        self.0.push(item);
    }

    /// The entries, most recent first.
    pub fn most_recent_first(&self) -> (items: Vec<Item>)
        ensures
            items@ == self@.reverse(),
    {
        let mut items: Vec<Item> = Vec::new();
        let total = self.0.len();
        let mut taken: usize = 0;
        while taken < total
            invariant
                total == self.0.len(),
                taken <= total,
                items@.len() == taken,
                forall|k: int| 0 <= k < taken ==> items@[k] == self.0@[total - 1 - k],
            decreases total - taken,
        {
            items.push(self.0[total - 1 - taken].clone());
            taken += 1;
        }
        assert(items@ =~= self@.reverse());
        items
    }
}

/// A copy of `items`, entry by entry.
pub fn clone_items(items: &Vec<Item>) -> (copy: Vec<Item>)
    ensures
        copy@ == items@,
{
    let mut copy: Vec<Item> = Vec::new();
    let mut done: usize = 0;
    while done < items.len()
        invariant
            done <= items.len(),
            copy@ == items@.subrange(0, done as int),
        decreases items.len() - done,
    {
        copy.push(items[done].clone());
        done += 1;
    }
    copy
}

} // verus!
