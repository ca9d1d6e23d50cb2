//! The externally observable session: status, favorites, search results,
//! pagination, the request sequencer, and the bounded log.
//!
//! Every mutation of the session goes through the methods here; the
//! asynchronous flows around them are in the orchestration module.

use vstd::prelude::*;
use std::collections::VecDeque;
use crate::page_cache::PageCache;
use crate::search::SearchResult;
use crate::text::u64_digits;
use vstd::arithmetic::div_mod::{lemma_add_mod_noop, lemma_mod_bound, lemma_mod_self_0, lemma_small_mod};

verus! {

/// How many log lines are kept.
pub const LOG_CAPACITY: usize = 50;

/// The player's externally observable state.
#[derive(Debug)]
pub enum PlayerStatus {
    Waiting,
    Searching,
    SearchResults,
    Playing,
    Paused,
    Error(String),
}

/// The abstract value of a `PlayerStatus`.
pub enum StatusView {
    Waiting,
    Searching,
    SearchResults,
    Playing,
    Paused,
    Error(Seq<char>),
}

impl View for PlayerStatus {
    type V = StatusView;

    open spec fn view(&self) -> StatusView {
        match self {
            PlayerStatus::Waiting => StatusView::Waiting,
            PlayerStatus::Searching => StatusView::Searching,
            PlayerStatus::SearchResults => StatusView::SearchResults,
            PlayerStatus::Playing => StatusView::Playing,
            PlayerStatus::Paused => StatusView::Paused,
            PlayerStatus::Error(m) => StatusView::Error(m@),
        }
    }
}

/// The policy governing which track plays next when the current one ends.
#[derive(Clone, Copy, Debug, PartialEq, Eq, Structural)]
pub enum PlayMode {
    Single,
    ListLoop,
    Sequential,
    Shuffle,
}

/// One favorite: a title and the source it came from.
#[derive(Clone, Debug, PartialEq, Eq)]
pub struct FavoriteItem {
    pub title: String,
    pub source: String,
}

/// The abstract value of a favorite.
pub struct FavoriteView {
    pub title: Seq<char>,
    pub source: Seq<char>,
}

impl View for FavoriteItem {
    type V = FavoriteView;

    open spec fn view(&self) -> FavoriteView {
        FavoriteView { title: self.title@, source: self.source@ }
    }
}

/// The favorites as abstract values.
pub open spec fn fav_views(favs: Seq<FavoriteItem>) -> Seq<FavoriteView> {
    favs.map_values(|f: FavoriteItem| f@)
}

/// Some favorite carries this title.
pub open spec fn has_title(favs: Seq<FavoriteItem>, title: Seq<char>) -> bool {
    exists|i: int| 0 <= i < favs.len() && #[trigger] favs[i].title@ == title
}

/// `i` is the first index whose favorite carries `title`.
pub open spec fn is_first_title(favs: Seq<FavoriteItem>, title: Seq<char>, i: int) -> bool {
    &&& 0 <= i < favs.len()
    &&& favs[i].title@ == title
    &&& forall|j: int| 0 <= j < i ==> #[trigger] favs[j].title@ != title
}

/// First index whose favorite carries `title` (meaningful only when
/// `has_title`).
pub open spec fn first_title_index(favs: Seq<FavoriteItem>, title: Seq<char>) -> int {
    choose|i: int| is_first_title(favs, title, i)
}

/// The log as abstract lines.
pub open spec fn log_views(logs: Seq<String>) -> Seq<Seq<char>> {
    logs.map_values(|l: String| l@)
}

/// What appending one message does to the log: a repeat of the last line
/// is dropped, and only the most recent lines are kept.
pub open spec fn spec_add_log(logs: Seq<Seq<char>>, msg: Seq<char>) -> Seq<Seq<char>> {
    if logs.len() > 0 && logs.last() == msg {
        logs
    } else {
        let p = logs.push(msg);
        if p.len() > LOG_CAPACITY {
            p.drop_first()
        } else {
            p
        }
    }
}

/// The whole session state.
pub struct App {
    pub running: bool,
    pub status: PlayerStatus,
    /// Title of the song being played, empty when none.
    pub current_song: String,
    /// Playback position in permille: 0 ..= 1000.
    pub progress: u32,
    /// Mirrored volume: 0 ..= 130.
    pub volume: u8,
    pub logs: VecDeque<String>,
    pub input_mode: bool,
    pub input_buffer: String,
    pub favorites: Vec<FavoriteItem>,
    pub selected_favorite: usize,
    pub play_mode: PlayMode,
    pub search_results: Vec<SearchResult>,
    pub selected_search_result: usize,
    /// Status to return to when a search is dismissed.
    pub saved_status: Option<PlayerStatus>,
    pub current_source: String,
    pub last_search_keyword: String,
    /// Page shown, 1-based.
    pub current_page: usize,
    /// Highest page believed to exist; `usize::MAX` while unknown.
    pub total_pages: usize,
    pub page_cache: PageCache,
    pub is_loading_page: bool,
    /// Requests issued so far.
    pub request_seq: u64,
    /// The one id whose result may still be applied.
    pub active_request_id: u64,
}

impl App {
    /// Session invariant: bounded mirror values and log, sane pagination,
    /// a well-formed page cache, and no active id beyond the counter.
    pub open spec fn wf(self) -> bool {
        &&& self.progress <= 1000
        &&& self.volume <= 130
        &&& self.logs@.len() <= LOG_CAPACITY
        &&& self.current_page >= 1
        &&& self.total_pages >= 1
        &&& self.page_cache.wf()
        &&& self.active_request_id <= self.request_seq
    }

    /// A fresh session holding the given favorites: waiting, shuffle mode,
    /// nothing searched or playing, and a log that records the start.
    pub fn new(favorites: Vec<FavoriteItem>) -> (r: App)
        ensures
            r.wf(),
            r.running,
            r.status@ is Waiting,
            r.current_song@.len() == 0,
            r.progress == 0,
            r.volume == 100,
            log_views(r.logs@) == (if favorites@.len() > 0 {
                seq!["application started"@, "loaded "@ + u64_digits(favorites@.len() as nat)
                    + " favorites"@]
            } else {
                seq!["application started"@]
            }),
            !r.input_mode,
            r.input_buffer@.len() == 0,
            r.favorites == favorites,
            r.selected_favorite == 0,
            r.play_mode == PlayMode::Shuffle,
            r.search_results@.len() == 0,
            r.selected_search_result == 0,
            r.saved_status is None,
            r.current_source@ == "yt"@,
            r.last_search_keyword@.len() == 0,
            r.current_page == 1,
            r.total_pages == 1,
            r.page_cache.entries@.len() == 0,
            !r.is_loading_page,
            r.request_seq == 0,
            r.active_request_id == 0,
    {
        let mut logs: VecDeque<String> = VecDeque::new();
        logs.push_back(String::from_str("application started"));
        if favorites.len() > 0 {
            let mut m = String::from_str("loaded ");
            m.append(crate::text::u64_to_string(favorites.len() as u64).as_str());
            m.append(" favorites");
            logs.push_back(m);
        }
        proof {
            if favorites@.len() > 0 {
                assert(log_views(logs@) =~= seq![
                    "application started"@,
                    "loaded "@ + u64_digits(favorites@.len() as nat) + " favorites"@,
                ]);
            } else {
                assert(log_views(logs@) =~= seq!["application started"@]);
            }
        }
        App {
            running: true,
            status: PlayerStatus::Waiting,
            current_song: String::new(),
            progress: 0,
            volume: 100,
            logs,
            input_mode: false,
            input_buffer: String::new(),
            favorites,
            selected_favorite: 0,
            play_mode: PlayMode::Shuffle,
            search_results: Vec::new(),
            selected_search_result: 0,
            saved_status: None,
            current_source: String::from_str("yt"),
            last_search_keyword: String::new(),
            current_page: 1,
            total_pages: 1,
            page_cache: PageCache::new(),
            is_loading_page: false,
            request_seq: 0,
            active_request_id: 0,
        }
    }

    /// Append one line to the log, dropping a repeat of the last line and
    /// keeping only the most recent lines.
    pub fn add_log(&mut self, message: String)
        requires
            old(self).wf(),
        ensures
            final(self).wf(),
            log_views(final(self).logs@) == spec_add_log(log_views(old(self).logs@), message@),
            (*final(self) == App { logs: final(self).logs, ..*old(self) }),
    {
        let n = self.logs.len();
        if n > 0 && self.logs[n - 1] == message {
            proof {
                assert(log_views(self.logs@).last() == self.logs@[n - 1]@);
            }
            return ;
        }
        let ghost pre = self.logs@;
        self.logs.push_back(message);
        proof {
            assert(log_views(self.logs@) =~= log_views(pre).push(message@));
        }
        if self.logs.len() > LOG_CAPACITY {
            let ghost mid = self.logs@;
            self.logs.pop_front();
            proof {
                assert(log_views(self.logs@) =~= log_views(mid).drop_first());
            }
        }
    }

    /// The current song is among the favorites.
    pub fn is_favorite(&self) -> (r: bool)
        ensures
            r == has_title(self.favorites@, self.current_song@),
    {
        match position_of_title(&self.favorites, &self.current_song) {
            Some(_) => true,
            None => false,
        }
    }

    /// Add `title` to the favorites, or remove it if already there, and
    /// log which of the two happened.
    fn toggle_title(&mut self, title: &String)
        requires
            old(self).wf(),
        ensures
            final(self).wf(),
            fav_views(final(self).favorites@) == spec_toggle_favs(
                old(self).favorites@,
                title@,
                old(self).current_source@,
            ),
            log_views(final(self).logs@) == spec_toggle_log(
                log_views(old(self).logs@),
                old(self).favorites@,
                title@,
                old(self).current_source@,
            ),
            (*final(self) == App {
                favorites: final(self).favorites,
                logs: final(self).logs,
                ..*old(self)
            }),
    {
        match position_of_title(&self.favorites, title) {
            Some(i) => {
                proof {
                    lemma_first_title_unique(self.favorites@, title@, i as int);
                    self.favorites@.remove_ensures(i as int);
                    fav_views(self.favorites@).remove_ensures(i as int);
                }
                let ghost pre = self.favorites@;
                self.favorites.remove(i);
                proof {
                    assert(fav_views(self.favorites@) =~= fav_views(pre).remove(i as int));
                }
                let mut m = String::from_str("removed favorite: ");
                m.append(title.as_str());
                self.add_log(m);
            },
            None => {
                let ghost pre = self.favorites@;
                let item = FavoriteItem { title: title.clone(), source: self.current_source.clone() };
                self.favorites.push(item);
                proof {
                    assert(fav_views(self.favorites@) =~= fav_views(pre).push(
                        FavoriteView { title: title@, source: old(self).current_source@ },
                    ));
                }
                let mut m = String::from_str("added favorite: ");
                m.append(title.as_str());
                m.append(" (");
                m.append(self.current_source.as_str());
                m.append(")");
                self.add_log(m);
            },
        }
    }

    /// Toggle the currently playing song in the favorites: log the song,
    /// then add it, or remove it if already there. Nothing happens while
    /// no song plays.
    pub fn toggle_favorite(&mut self)
        requires
            old(self).wf(),
        ensures
            final(self).wf(),
            old(self).current_song@.len() == 0 ==> *final(self) == *old(self),
            old(self).current_song@.len() > 0 ==> ({
                let song = old(self).current_song@;
                let source = old(self).current_source@;
                let logs1 = spec_add_log(
                    log_views(old(self).logs@),
                    "current song: '"@ + song + "'"@,
                );
                &&& fav_views(final(self).favorites@) == spec_toggle_favs(
                    old(self).favorites@,
                    song,
                    source,
                )
                &&& log_views(final(self).logs@) == spec_toggle_log(
                    logs1,
                    old(self).favorites@,
                    song,
                    source,
                )
                &&& (*final(self) == App {
                    favorites: final(self).favorites,
                    logs: final(self).logs,
                    ..*old(self)
                })
            }),
    {
        if self.current_song.as_str().unicode_len() == 0 {
            return ;
        }
        let mut m = String::from_str("current song: '");
        m.append(self.current_song.as_str());
        m.append("'");
        self.add_log(m);
        let title = self.current_song.clone();
        self.toggle_title(&title);
    }

    /// Toggle the selected search result in the favorites. Nothing happens
    /// while no result is selected.
    pub fn toggle_favorite_from_search_result(&mut self)
        requires
            old(self).wf(),
        ensures
            final(self).wf(),
            old(self).selected_search_result >= old(self).search_results@.len() ==> *final(self)
                == *old(self),
            old(self).selected_search_result < old(self).search_results@.len() ==> ({
                let title =
                    old(self).search_results@[old(self).selected_search_result as int].title@;
                let source = old(self).current_source@;
                &&& fav_views(final(self).favorites@) == spec_toggle_favs(
                    old(self).favorites@,
                    title,
                    source,
                )
                &&& log_views(final(self).logs@) == spec_toggle_log(
                    log_views(old(self).logs@),
                    old(self).favorites@,
                    title,
                    source,
                )
                &&& (*final(self) == App {
                    favorites: final(self).favorites,
                    logs: final(self).logs,
                    ..*old(self)
                })
            }),
    {
        if self.selected_search_result >= self.search_results.len() {
            return ;
        }
        let title = self.search_results[self.selected_search_result].title.clone();
        self.toggle_title(&title);
    }

    /// Move the favorites selection forward, cyclically.
    pub fn select_next_favorite(&mut self)
        ensures
            old(self).favorites@.len() == 0 ==> *final(self) == *old(self),
            old(self).favorites@.len() > 0 ==> final(self).selected_favorite == (old(
                self,
            ).selected_favorite + 1) % (old(self).favorites@.len() as int),
            (*final(self) == App {
                selected_favorite: final(self).selected_favorite,
                ..*old(self)
            }),
    {
        let n = self.favorites.len();
        if n > 0 {
            let cur = self.selected_favorite % n;
            let next = if cur + 1 == n {
                0
            } else {
                cur + 1
            };
            proof {
                let s = old(self).selected_favorite as int;
                let m = n as int;
                lemma_add_mod_noop(s, 1, m);
                lemma_mod_bound(s, m);
                if m == 1 {
                    lemma_mod_self_0(1);
                } else {
                    lemma_small_mod(1, m as nat);
                    if cur + 1 == n {
                        lemma_mod_self_0(m);
                    } else {
                        lemma_small_mod((cur + 1) as nat, m as nat);
                    }
                }
            }
            self.selected_favorite = next;
        }
    }

    /// Move the favorites selection backward, cyclically.
    pub fn select_prev_favorite(&mut self)
        ensures
            old(self).favorites@.len() == 0 ==> *final(self) == *old(self),
            old(self).favorites@.len() > 0 ==> final(self).selected_favorite == (if old(
                self,
            ).selected_favorite == 0 {
                old(self).favorites@.len() - 1
            } else {
                old(self).selected_favorite - 1
            }),
            (*final(self) == App {
                selected_favorite: final(self).selected_favorite,
                ..*old(self)
            }),
    {
        let n = self.favorites.len();
        if n > 0 {
            if self.selected_favorite == 0 {
                self.selected_favorite = n - 1;
            } else {
                self.selected_favorite = self.selected_favorite - 1;
            }
        }
    }

    /// The selected favorite, if the selection is in range.
    pub fn get_selected_favorite(&self) -> (r: Option<&FavoriteItem>)
        ensures
            match r {
                Some(f) => self.selected_favorite < self.favorites@.len() && *f
                    == self.favorites@[self.selected_favorite as int],
                None => self.selected_favorite >= self.favorites@.len(),
            },
    {
        if self.selected_favorite < self.favorites.len() {
            Some(&self.favorites[self.selected_favorite])
        } else {
            None
        }
    }

    /// Point the favorites selection at the current song, logging whether
    /// it was found.
    pub fn sync_selected_favorite(&mut self)
        requires
            old(self).wf(),
        ensures
            final(self).wf(),
            ({
                let song = old(self).current_song@;
                let logs0 = log_views(old(self).logs@);
                &&& (if has_title(old(self).favorites@, song) {
                    let idx = first_title_index(old(self).favorites@, song);
                    &&& final(self).selected_favorite == idx
                    &&& log_views(final(self).logs@) == spec_add_log(
                        logs0,
                        "favorite index synced to "@ + u64_digits(idx as nat),
                    )
                } else {
                    &&& final(self).selected_favorite == old(self).selected_favorite
                    &&& log_views(final(self).logs@) == spec_add_log(
                        logs0,
                        "current song '"@ + song + "' is not in favorites"@,
                    )
                })
                &&& (*final(self) == App {
                    selected_favorite: final(self).selected_favorite,
                    logs: final(self).logs,
                    ..*old(self)
                })
            }),
    {
        match position_of_title(&self.favorites, &self.current_song) {
            Some(i) => {
                proof {
                    lemma_first_title_unique(self.favorites@, self.current_song@, i as int);
                }
                self.selected_favorite = i;
                let mut m = String::from_str("favorite index synced to ");
                m.append(crate::text::u64_to_string(i as u64).as_str());
                self.add_log(m);
            },
            None => {
                let mut m = String::from_str("current song '");
                m.append(self.current_song.as_str());
                m.append("' is not in favorites");
                self.add_log(m);
            },
        }
    }

    /// Move the search-result selection forward, cyclically.
    pub fn select_next_search_result(&mut self)
        ensures
            old(self).search_results@.len() == 0 ==> *final(self) == *old(self),
            old(self).search_results@.len() > 0 ==> final(self).selected_search_result == (old(
                self,
            ).selected_search_result + 1) % (old(self).search_results@.len() as int),
            (*final(self) == App {
                selected_search_result: final(self).selected_search_result,
                ..*old(self)
            }),
    {
        let n = self.search_results.len();
        if n > 0 {
            let cur = self.selected_search_result % n;
            let next = if cur + 1 == n {
                0
            } else {
                cur + 1
            };
            proof {
                let s = old(self).selected_search_result as int;
                let m = n as int;
                lemma_add_mod_noop(s, 1, m);
                lemma_mod_bound(s, m);
                if m == 1 {
                    lemma_mod_self_0(1);
                } else {
                    lemma_small_mod(1, m as nat);
                    if cur + 1 == n {
                        lemma_mod_self_0(m);
                    } else {
                        lemma_small_mod((cur + 1) as nat, m as nat);
                    }
                }
            }
            self.selected_search_result = next;
        }
    }

    /// Move the search-result selection backward, cyclically.
    pub fn select_prev_search_result(&mut self)
        ensures
            old(self).search_results@.len() == 0 ==> *final(self) == *old(self),
            old(self).search_results@.len() > 0 ==> final(self).selected_search_result == (if old(
                self,
            ).selected_search_result == 0 {
                old(self).search_results@.len() - 1
            } else {
                old(self).selected_search_result - 1
            }),
            (*final(self) == App {
                selected_search_result: final(self).selected_search_result,
                ..*old(self)
            }),
    {
        let n = self.search_results.len();
        if n > 0 {
            if self.selected_search_result == 0 {
                self.selected_search_result = n - 1;
            } else {
                self.selected_search_result = self.selected_search_result - 1;
            }
        }
    }

    /// The selected search result, if the selection is in range.
    pub fn get_selected_search_result(&self) -> (r: Option<&SearchResult>)
        ensures
            match r {
                Some(sr) => self.selected_search_result < self.search_results@.len() && *sr
                    == self.search_results@[self.selected_search_result as int],
                None => self.selected_search_result >= self.search_results@.len(),
            },
    {
        if self.selected_search_result < self.search_results.len() {
            Some(&self.search_results[self.selected_search_result])
        } else {
            None
        }
    }

    /// Show a batch of search results for `keyword`; a non-empty batch
    /// puts the session into the results view.
    pub fn set_search_results(&mut self, results: Vec<SearchResult>, keyword: String)
        ensures
            final(self).search_results == results,
            final(self).selected_search_result == 0,
            final(self).last_search_keyword == keyword,
            final(self).status@ == (if results@.len() > 0 {
                StatusView::SearchResults
            } else {
                old(self).status@
            }),
            (*final(self) == App {
                search_results: final(self).search_results,
                selected_search_result: final(self).selected_search_result,
                last_search_keyword: final(self).last_search_keyword,
                status: final(self).status,
                ..*old(self)
            }),
    {
        self.search_results = results;
        self.selected_search_result = 0;
        self.last_search_keyword = keyword;
        if self.search_results.len() > 0 {
            self.status = PlayerStatus::SearchResults;
        }
    }

    /// Drop the search results, the keyword, and the cached pages (the
    /// active keyword is gone).
    pub fn clear_search_results(&mut self)
        requires
            old(self).wf(),
        ensures
            final(self).wf(),
            final(self).search_results@.len() == 0,
            final(self).selected_search_result == 0,
            final(self).last_search_keyword@.len() == 0,
            final(self).page_cache.entries@.len() == 0,
            !final(self).is_loading_page,
            (*final(self) == App {
                search_results: final(self).search_results,
                selected_search_result: final(self).selected_search_result,
                last_search_keyword: final(self).last_search_keyword,
                page_cache: final(self).page_cache,
                is_loading_page: final(self).is_loading_page,
                ..*old(self)
            }),
    {
        self.search_results = Vec::new();
        self.selected_search_result = 0;
        self.last_search_keyword = String::new();
        self.page_cache.clear();
        self.is_loading_page = false;
    }

    /// Stamp a new request: the counter moves forward (saturating) and the
    /// new id becomes the only active one, superseding every earlier id.
    pub fn begin_async_request(&mut self) -> (id: u64)
        requires
            old(self).wf(),
        ensures
            final(self).wf(),
            id == final(self).active_request_id,
            final(self).active_request_id == final(self).request_seq,
            old(self).request_seq < u64::MAX ==> final(self).request_seq == old(self).request_seq
                + 1,
            old(self).request_seq == u64::MAX ==> final(self).request_seq == u64::MAX,
            !final(self).is_loading_page,
            (*final(self) == App {
                request_seq: final(self).request_seq,
                active_request_id: final(self).active_request_id,
                is_loading_page: final(self).is_loading_page,
                ..*old(self)
            }),
    {
        if self.request_seq < u64::MAX {
            self.request_seq = self.request_seq + 1;
        }
        self.active_request_id = self.request_seq;
        self.is_loading_page = false;
        self.active_request_id
    }

    /// Whether `request_id` is still the one whose result may be applied.
    pub fn is_active_request(&self, request_id: u64) -> (r: bool)
        ensures
            r == (request_id == self.active_request_id),
    {
        self.active_request_id == request_id
    }

    /// The cached results of `page`, if present.
    pub fn get_cached_page(&self, page: usize) -> (r: Option<&Vec<SearchResult>>)
        requires
            self.wf(),
        ensures
            match r {
                Some(v) => self.page_cache.contains_page(page as int) && v@
                    == self.page_cache.results_of(page as int),
                None => !self.page_cache.contains_page(page as int),
            },
    {
        self.page_cache.get(page)
    }

    /// Cache the results of `page`.
    pub fn cache_page(&mut self, page: usize, results: Vec<SearchResult>)
        requires
            old(self).wf(),
        ensures
            final(self).wf(),
            final(self).page_cache.entries@ == crate::page_cache::spec_insert_entries(
                old(self).page_cache,
                page,
                results,
            ),
            (*final(self) == App { page_cache: final(self).page_cache, ..*old(self) }),
    {
        self.page_cache.insert(page, results);
    }

    /// A copy of the current status, for saving it aside.
    fn snapshot_status(&self) -> (r: PlayerStatus)
        ensures
            r@ == self.status@,
    {
        match &self.status {
            PlayerStatus::Waiting => PlayerStatus::Waiting,
            PlayerStatus::Searching => PlayerStatus::Searching,
            PlayerStatus::SearchResults => PlayerStatus::SearchResults,
            PlayerStatus::Playing => PlayerStatus::Playing,
            PlayerStatus::Paused => PlayerStatus::Paused,
            PlayerStatus::Error(m) => PlayerStatus::Error(m.clone()),
        }
    }

    /// Remember the status a search interrupts, so that dismissing the
    /// search can return to it; a search-related status is not remembered.
    pub fn save_status_before_search(&mut self)
        ensures
            (old(self).status@ is Searching || old(self).status@ is SearchResults) ==> *final(self)
                == *old(self),
            !(old(self).status@ is Searching || old(self).status@ is SearchResults) ==> ({
                &&& final(self).saved_status is Some
                &&& final(self).saved_status.unwrap()@ == old(self).status@
                &&& (*final(self) == App { saved_status: final(self).saved_status, ..*old(self) })
            }),
    {
        match &self.status {
            PlayerStatus::Searching => {},
            PlayerStatus::SearchResults => {},
            _ => {
                self.saved_status = Some(self.snapshot_status());
            },
        }
    }

    /// Return to the remembered status, or to waiting when none was saved;
    /// the remembered status is consumed.
    pub fn restore_status_after_search(&mut self)
        ensures
            final(self).status@ == (match old(self).saved_status {
                Some(s) => s@,
                None => StatusView::Waiting,
            }),
            final(self).saved_status is None,
            (*final(self) == App {
                status: final(self).status,
                saved_status: final(self).saved_status,
                ..*old(self)
            }),
    {
        let mut taken: Option<PlayerStatus> = None;
        core::mem::swap(&mut taken, &mut self.saved_status);
        match taken {
            Some(s) => {
                self.status = s;
            },
            None => {
                self.status = PlayerStatus::Waiting;
            },
        }
    }

    /// Step to the next play mode in the fixed cycle and log it.
    pub fn toggle_play_mode(&mut self)
        requires
            old(self).wf(),
        ensures
            final(self).wf(),
            final(self).play_mode == (match old(self).play_mode {
                PlayMode::Shuffle => PlayMode::Single,
                PlayMode::Single => PlayMode::ListLoop,
                PlayMode::ListLoop => PlayMode::Sequential,
                PlayMode::Sequential => PlayMode::Shuffle,
            }),
            log_views(final(self).logs@) == spec_add_log(
                log_views(old(self).logs@),
                "play mode: "@ + spec_mode_name(final(self).play_mode),
            ),
            (*final(self) == App {
                play_mode: final(self).play_mode,
                logs: final(self).logs,
                ..*old(self)
            }),
    {
        self.play_mode = match self.play_mode {
            PlayMode::Shuffle => PlayMode::Single,
            PlayMode::Single => PlayMode::ListLoop,
            PlayMode::ListLoop => PlayMode::Sequential,
            PlayMode::Sequential => PlayMode::Shuffle,
        };
        let name = match self.play_mode {
            PlayMode::Single => "single loop",
            PlayMode::ListLoop => "list loop",
            PlayMode::Sequential => "sequential",
            PlayMode::Shuffle => "shuffle",
        };
        let mut m = String::from_str("play mode: ");
        m.append(name);
        self.add_log(m);
    }

    /// Adopt the play mode named in the configuration; an unrecognised
    /// name falls back to shuffle and reports failure.
    pub fn set_play_mode_from_config(&mut self, mode: &str) -> (r: bool)
        ensures
            r == (spec_parse_play_mode(mode@) is Some),
            final(self).play_mode == (match spec_parse_play_mode(mode@) {
                Some(m) => m,
                None => PlayMode::Shuffle,
            }),
            (*final(self) == App { play_mode: final(self).play_mode, ..*old(self) }),
    {
        let (start, end) = crate::text::trim_bounds(mode);
        let parsed: Option<PlayMode> = if crate::text::str_ci_eq_range(mode, start, end, "single")
            || crate::text::str_ci_eq_range(mode, start, end, "single_loop")
            || crate::text::str_ci_eq_range(mode, start, end, "single-loop") {
            Some(PlayMode::Single)
        } else if crate::text::str_ci_eq_range(mode, start, end, "list_loop")
            || crate::text::str_ci_eq_range(mode, start, end, "list-loop")
            || crate::text::str_ci_eq_range(mode, start, end, "loop")
            || crate::text::str_ci_eq_range(mode, start, end, "list") {
            Some(PlayMode::ListLoop)
        } else if crate::text::str_ci_eq_range(mode, start, end, "sequential")
            || crate::text::str_ci_eq_range(mode, start, end, "sequence")
            || crate::text::str_ci_eq_range(mode, start, end, "seq") {
            Some(PlayMode::Sequential)
        } else if crate::text::str_ci_eq_range(mode, start, end, "shuffle")
            || crate::text::str_ci_eq_range(mode, start, end, "random") {
            Some(PlayMode::Shuffle)
        } else {
            None
        };
        match parsed {
            Some(m) => {
                self.play_mode = m;
                true
            },
            None => {
                self.play_mode = PlayMode::Shuffle;
                false
            },
        }
    }

    /// Pick the next song by the active play mode, using `draw` as the
    /// source of randomness for shuffle. The favorites selection follows
    /// the pick; sequential play at the end of the list, or a current song
    /// that is not a favorite, yields none.
    pub fn get_next_song(&mut self, draw: u64) -> (r: Option<String>)
        requires
            old(self).wf(),
        ensures
            final(self).wf(),
            (*final(self) == App {
                selected_favorite: final(self).selected_favorite,
                logs: final(self).logs,
                ..*old(self)
            }),
            ({
                let (sel2, pick, logs2) = spec_next_song(
                    old(self).favorites@,
                    old(self).current_song@,
                    old(self).play_mode,
                    draw as int,
                    old(self).selected_favorite as int,
                    log_views(old(self).logs@),
                );
                &&& final(self).selected_favorite == sel2
                &&& log_views(final(self).logs@) == logs2
                &&& (match r {
                    Some(t) => pick == Some(t@),
                    None => pick is None,
                })
            }),
    {
        match self.play_mode {
            PlayMode::Single => {
                if self.current_song.as_str().unicode_len() > 0 {
                    Some(self.current_song.clone())
                } else {
                    None
                }
            },
            PlayMode::Shuffle => {
                let n = self.favorites.len();
                if n == 0 {
                    return None;
                }
                if n == 1 {
                    self.selected_favorite = 0;
                    return Some(self.favorites[0].title.clone());
                }
                let mut idx: usize = (draw % (n as u64)) as usize;
                match position_of_title(&self.favorites, &self.current_song) {
                    Some(c) => {
                        proof {
                            lemma_first_title_unique(
                                self.favorites@,
                                self.current_song@,
                                c as int,
                            );
                        }
                        idx = (draw % ((n - 1) as u64)) as usize;
                        if idx >= c {
                            idx = idx + 1;
                        }
                    },
                    None => {},
                }
                self.selected_favorite = idx;
                Some(self.favorites[idx].title.clone())
            },
            _ => {
                let n = self.favorites.len();
                if n == 0 {
                    return None;
                }
                match position_of_title(&self.favorites, &self.current_song) {
                    Some(c) => {
                        proof {
                            lemma_first_title_unique(
                                self.favorites@,
                                self.current_song@,
                                c as int,
                            );
                        }
                        let next = c + 1;
                        if next < n {
                            self.selected_favorite = next;
                            Some(self.favorites[next].title.clone())
                        } else if matches!(self.play_mode, PlayMode::ListLoop) {
                            self.selected_favorite = 0;
                            self.add_log(String::from_str("list loop: back to the first song"));
                            Some(self.favorites[0].title.clone())
                        } else {
                            None
                        }
                    },
                    None => {
                        let mut m = String::from_str("current song '");
                        m.append(self.current_song.as_str());
                        m.append("' is not in favorites");
                        self.add_log(m);
                        None
                    },
                }
            },
        }
    }

    /// The symbol shown for the active play mode.
    pub fn get_play_mode_text(&self) -> (r: &'static str)
        ensures
            r@ == (match self.play_mode {
                PlayMode::Single => "🔂"@,
                PlayMode::ListLoop => "🔁"@,
                PlayMode::Sequential => "▶️"@,
                PlayMode::Shuffle => "🔀"@,
            }),
    {
        match self.play_mode {
            PlayMode::Single => "🔂",
            PlayMode::ListLoop => "🔁",
            PlayMode::Sequential => "▶️",
            PlayMode::Shuffle => "🔀",
        }
    }
}

/// What picking the next song does, by play mode: the new favorites
/// selection, the picked title, and the log afterwards.
///
/// - Single repeats the current song, or nothing when none plays.
/// - Shuffle draws among the favorites, skipping the current song's
///   position when it is a favorite and more than one favorite exists.
/// - ListLoop and Sequential step to the favorite after the current
///   song's first occurrence; at the end ListLoop wraps to the first
///   favorite while Sequential stops; a current song that is not a
///   favorite yields nothing.
pub open spec fn spec_next_song(
    favs: Seq<FavoriteItem>,
    song: Seq<char>,
    mode: PlayMode,
    draw: int,
    sel0: int,
    logs0: Seq<Seq<char>>,
) -> (int, Option<Seq<char>>, Seq<Seq<char>>) {
    let n = favs.len() as int;
    match mode {
        PlayMode::Single => (
            sel0,
            if song.len() > 0 {
                Some(song)
            } else {
                None
            },
            logs0,
        ),
        PlayMode::Shuffle => {
            if n == 0 {
                (sel0, None, logs0)
            } else if n == 1 {
                (0, Some(favs[0].title@), logs0)
            } else {
                let idx = if has_title(favs, song) {
                    let c = first_title_index(favs, song);
                    let d = draw % (n - 1);
                    if d >= c {
                        d + 1
                    } else {
                        d
                    }
                } else {
                    draw % n
                };
                (idx, Some(favs[idx].title@), logs0)
            }
        },
        _ => {
            if n == 0 {
                (sel0, None, logs0)
            } else if has_title(favs, song) {
                let c = first_title_index(favs, song);
                if c + 1 < n {
                    (c + 1, Some(favs[c + 1].title@), logs0)
                } else if mode == PlayMode::ListLoop {
                    (
                        0,
                        Some(favs[0].title@),
                        spec_add_log(logs0, "list loop: back to the first song"@),
                    )
                } else {
                    (sel0, None, logs0)
                }
            } else {
                (
                    sel0,
                    None,
                    spec_add_log(logs0, "current song '"@ + song + "' is not in favorites"@),
                )
            }
        },
    }
}

/// With a current song set, single mode always picks that very song and
/// touches neither the selection nor the log.
pub proof fn lemma_single_repeats_current(
    favs: Seq<FavoriteItem>,
    song: Seq<char>,
    draw: int,
    sel0: int,
    logs0: Seq<Seq<char>>,
)
    requires
        song.len() > 0,
    ensures
        spec_next_song(favs, song, PlayMode::Single, draw, sel0, logs0) == (
            sel0,
            Some(song),
            logs0,
        ),
{
}

/// With exactly two favorites and the first one playing, shuffle always
/// picks the second, whatever the draw: it is the only other option.
pub proof fn lemma_shuffle_two_picks_other(
    favs: Seq<FavoriteItem>,
    song: Seq<char>,
    draw: int,
    sel0: int,
    logs0: Seq<Seq<char>>,
)
    requires
        favs.len() == 2,
        favs[0].title@ == song,
        draw >= 0,
    ensures
        spec_next_song(favs, song, PlayMode::Shuffle, draw, sel0, logs0).1 == Some(favs[1].title@),
{
    assert(has_title(favs, song));
    lemma_first_title_unique(favs, song, 0);
    lemma_mod_bound(draw, 1);
}

/// Where the favorites file lives: a configured location starting with
/// `~` has that character replaced by the home directory.
pub fn resolve_favorites_location(configured: &str, home: &str) -> (r: String)
    ensures
        r@ == (if configured@.len() > 0 && configured@[0] == '~' {
            home@ + configured@.skip(1)
        } else {
            configured@
        }),
{
    let n = configured.unicode_len();
    if n > 0 && configured.get_char(0) == '~' {
        let rest = configured.substring_char(1, n);
        let mut s = String::from_str(home);
        s.append(rest);
        proof {
            assert(configured@.subrange(1, n as int) =~= configured@.skip(1));
        }
        s
    } else {
        String::from_str(configured)
    }
}

/// The name a corrupt favorites file is moved aside under: the file's
/// own name with a timestamped suffix, so nothing is discarded.
pub fn backup_file_name(file_name: &str, timestamp: u64) -> (r: String)
    ensures
        r@ == file_name@ + ".corrupt."@ + u64_digits(timestamp as nat),
{
    let mut s = String::from_str(file_name);
    s.append(".corrupt.");
    s.append(crate::text::u64_to_string(timestamp).as_str());
    s
}

/// The name a play mode is logged under.
pub open spec fn spec_mode_name(m: PlayMode) -> Seq<char> {
    match m {
        PlayMode::Single => "single loop"@,
        PlayMode::ListLoop => "list loop"@,
        PlayMode::Sequential => "sequential"@,
        PlayMode::Shuffle => "shuffle"@,
    }
}

/// The play mode a configuration string names: the string is trimmed and
/// matched against the recognised names, ASCII-case-insensitively.
pub open spec fn spec_parse_play_mode(s: Seq<char>) -> Option<PlayMode> {
    let m = crate::text::spec_trim(s);
    if crate::text::ascii_ci_eq(m, "single"@) || crate::text::ascii_ci_eq(m, "single_loop"@)
        || crate::text::ascii_ci_eq(m, "single-loop"@) {
        Some(PlayMode::Single)
    } else if crate::text::ascii_ci_eq(m, "list_loop"@) || crate::text::ascii_ci_eq(m, "list-loop"@)
        || crate::text::ascii_ci_eq(m, "loop"@) || crate::text::ascii_ci_eq(m, "list"@) {
        Some(PlayMode::ListLoop)
    } else if crate::text::ascii_ci_eq(m, "sequential"@) || crate::text::ascii_ci_eq(
        m,
        "sequence"@,
    ) || crate::text::ascii_ci_eq(m, "seq"@) {
        Some(PlayMode::Sequential)
    } else if crate::text::ascii_ci_eq(m, "shuffle"@) || crate::text::ascii_ci_eq(m, "random"@) {
        Some(PlayMode::Shuffle)
    } else {
        None
    }
}

/// What a toggle leaves in the favorites: the title's first entry removed
/// when present, otherwise a new entry for it appended.
pub open spec fn spec_toggle_favs(
    favs: Seq<FavoriteItem>,
    title: Seq<char>,
    source: Seq<char>,
) -> Seq<FavoriteView> {
    if has_title(favs, title) {
        fav_views(favs).remove(first_title_index(favs, title))
    } else {
        fav_views(favs).push(FavoriteView { title, source })
    }
}

/// What a toggle logs: which of the two directions happened.
pub open spec fn spec_toggle_log(
    logs: Seq<Seq<char>>,
    favs: Seq<FavoriteItem>,
    title: Seq<char>,
    source: Seq<char>,
) -> Seq<Seq<char>> {
    if has_title(favs, title) {
        spec_add_log(logs, "removed favorite: "@ + title)
    } else {
        spec_add_log(logs, "added favorite: "@ + title + " ("@ + source + ")"@)
    }
}

/// A first occurrence is the only first occurrence.
pub proof fn lemma_first_title_unique(favs: Seq<FavoriteItem>, title: Seq<char>, i: int)
    requires
        is_first_title(favs, title, i),
    ensures
        first_title_index(favs, title) == i,
{
    let w = first_title_index(favs, title);
    assert(is_first_title(favs, title, w));
    if w < i {
        assert(favs[w].title@ != title);
    }
    if i < w {
        assert(favs[i].title@ != title);
    }
}

/// First index carrying `title`, by scan.
fn position_of_title(favs: &Vec<FavoriteItem>, title: &String) -> (r: Option<usize>)
    ensures
        match r {
            Some(i) => is_first_title(favs@, title@, i as int),
            None => !has_title(favs@, title@),
        },
{
    let n = favs.len();
    let mut i: usize = 0;
    while i < n
        invariant
            n == favs@.len(),
            i <= n,
            forall|k: int| 0 <= k < i ==> #[trigger] favs@[k].title@ != title@,
        decreases n - i,
    {
        if crate::text::str_eq(favs[i].title.as_str(), title.as_str()) {
            return Some(i);
        }
        i = i + 1;
    }
    None
}

} // verus!
