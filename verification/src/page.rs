//! The pages a user can navigate to.

use vstd::prelude::*;

verus! {

/// The categories of the main menu.
#[derive(Clone, Copy, Debug, PartialEq, Eq, Structural)]
pub enum MainMenuPage {
    Trending,
    Popular,
    History,
}

/// A page that shows one video or one playlist, named by its id.
#[derive(Debug, PartialEq, Eq)]
pub enum SingleItemPage {
    Video(String),
    Playlist(String),
}

/// Which part of a channel a channel page shows.
#[derive(Clone, Copy, Debug, PartialEq, Eq, Structural)]
pub enum ChannelDisplayPageType {
    Main,
    Videos,
    Playlists,
}

/// A page that shows a channel.
#[derive(Debug, PartialEq, Eq)]
pub struct ChannelDisplayPage {
    pub id: String,
    pub kind: ChannelDisplayPageType,
}

/// A search query together with the number of the result page it asks for.
/// Result pages are counted from 1.
#[derive(Debug, PartialEq, Eq)]
pub struct Search {
    pub query: String,
    pub page: usize,
}

/// What is on screen. Exactly one page is current at any time; a transition
/// replaces it as a whole.
#[derive(Debug, PartialEq, Eq)]
pub enum Page {
    MainMenu(MainMenuPage),
    Search(Search),
    SingleItem(SingleItemPage),
    ChannelDisplay(ChannelDisplayPage),
}

impl Clone for SingleItemPage {
    fn clone(&self) -> (copy: Self)
        ensures
            copy == *self,
    {
        match self {
            SingleItemPage::Video(id) => SingleItemPage::Video(id.clone()),
            SingleItemPage::Playlist(id) => SingleItemPage::Playlist(id.clone()),
        }
    }
}

impl Clone for ChannelDisplayPage {
    fn clone(&self) -> (copy: Self)
        ensures
            copy == *self,
    {
        ChannelDisplayPage { id: self.id.clone(), kind: self.kind }
    }
}

impl Clone for Search {
    fn clone(&self) -> (copy: Self)
        ensures
            copy == *self,
    {
        Search { query: self.query.clone(), page: self.page }
    }
}

impl Clone for Page {
    fn clone(&self) -> (copy: Self)
        ensures
            copy == *self,
    {
        match self {
            Page::MainMenu(menu) => Page::MainMenu(*menu),
            Page::Search(search) => Page::Search(search.clone()),
            Page::SingleItem(single) => Page::SingleItem(single.clone()),
            Page::ChannelDisplay(channel) => Page::ChannelDisplay(channel.clone()),
        }
    }
}

/// The current page is kept in the framework's typed store under its own
/// type.
impl typemap::Key for Page {
    type Value = Page;
}

impl Search {
    /// The same query, one result page further on.
    pub open spec fn following(self) -> Search {
        Search { query: self.query, page: (self.page + 1) as usize }
    }

    /// The same query, one result page back.
    pub open spec fn preceding(self) -> Search {
        Search { query: self.query, page: (self.page - 1) as usize }
    }

    /// The search for the next result page of the same query.
    pub fn next_page(&self) -> (next: Search)
        requires
            self.page < usize::MAX,
        ensures
            next == self.following(),
    {
        Search { query: self.query.clone(), page: self.page + 1 }
    }

    /// The search for the previous result page of the same query.
    pub fn previous_page(&self) -> (previous: Search)
        requires
            self.page > 0,
        ensures
            previous == self.preceding(),
    {
        Search { query: self.query.clone(), page: self.page - 1 }
    }
}

impl Page {
    /// Whether an item list can show this page: the three main-menu
    /// categories and search results.
    pub open spec fn is_listing(self) -> bool {
        self is MainMenu || self is Search
    }

    /// Whether the items of this page come from the remote service. The
    /// history page is built from the local watch history instead.
    pub open spec fn is_remote(self) -> bool {
        self.is_listing() && self != Page::MainMenu(MainMenuPage::History)
    }

    /// Tells whether the items of this page come from the remote service.
    pub fn fetches_remotely(&self) -> (remote: bool)
        ensures
            remote == self.is_remote(),
    {
        match self {
            Page::MainMenu(MainMenuPage::History) => false,
            Page::MainMenu(_) => true,
            Page::Search(_) => true,
            _ => false,
        }
    }

    /// Tells whether an item list can show this page.
    pub fn lists_items(&self) -> (listing: bool)
        ensures
            listing == self.is_listing(),
    {
        match self {
            Page::MainMenu(_) => true,
            Page::Search(_) => true,
            _ => false,
        }
    }
}

} // verus!
