//! Orchestration of the asynchronous flows: each user intent becomes a
//! start step that stamps a request id, and an apply step that a task
//! calls with its outcome.
//!
//! Every apply step is a no-op for a stale request id: only the most
//! recently stamped id ever mutates the session, however late a task
//! finishes. The task runner around these steps performs the actual
//! process and socket work and hands the outcomes back.

use vstd::prelude::*;
use crate::errors::{spec_message, PlayerError};
use crate::page_cache::spec_insert_entries;
use crate::search::{clone_results, titles_of, SearchResult};
use crate::session::{
    has_title, first_title_index, log_views, spec_add_log, spec_next_song, App, PlayerStatus,
    StatusView,
};
use crate::text::{u64_digits, u64_to_string};

verus! {

/// How a page request is satisfied.
#[derive(Clone, Copy, Debug, PartialEq, Eq, Structural)]
pub enum PageFetchPlan {
    /// The page was served from the cache; nothing to fetch.
    Cached,
    /// A fetch is already under way; nothing to do.
    Busy,
    /// Fetch the page under this request id.
    Fetch(u64),
}

/// What the periodic tick should do.
#[derive(Clone, Copy, Debug, PartialEq, Eq, Structural)]
pub enum TickPlan {
    /// The session shows an error: try the next song.
    AdvanceFromError,
    /// Something plays: poll the mirror and reconcile.
    PollMirror,
    /// Nothing to do.
    Idle,
}

/// Stamping a new request supersedes every id issued before it: the
/// stale ids differ from the new active one, and every apply step leaves
/// the session untouched for them.
pub proof fn lemma_begin_supersedes(pre: App, post: App, id: u64)
    requires
        pre.request_seq < u64::MAX,
        post.request_seq == pre.request_seq + 1,
        post.active_request_id == post.request_seq,
        id <= pre.request_seq,
    ensures
        id != post.active_request_id,
{
}

impl App {
    /// Begin a search: remember the interrupted status, show the search
    /// in progress, drop the previous results, and stamp the request.
    pub fn start_search(&mut self) -> (id: u64)
        requires
            old(self).wf(),
        ensures
            final(self).wf(),
            final(self).status@ is Searching,
            final(self).search_results@.len() == 0,
            final(self).selected_search_result == 0,
            final(self).last_search_keyword@.len() == 0,
            final(self).page_cache.entries@.len() == 0,
            !final(self).is_loading_page,
            (old(self).status@ is Searching || old(self).status@ is SearchResults) ==> final(self).saved_status == old(self).saved_status,
            !(old(self).status@ is Searching || old(self).status@ is SearchResults) ==> (final(self).saved_status is Some && final(self).saved_status.unwrap()@ == old(self).status@),
            id == final(self).active_request_id,
            final(self).active_request_id == final(self).request_seq,
            old(self).request_seq < u64::MAX ==> final(self).request_seq == old(self).request_seq
                + 1,
            old(self).request_seq == u64::MAX ==> final(self).request_seq == u64::MAX,
            (*final(self) == App {
                status: final(self).status,
                saved_status: final(self).saved_status,
                search_results: final(self).search_results,
                selected_search_result: final(self).selected_search_result,
                last_search_keyword: final(self).last_search_keyword,
                page_cache: final(self).page_cache,
                is_loading_page: final(self).is_loading_page,
                request_seq: final(self).request_seq,
                active_request_id: final(self).active_request_id,
                ..*old(self)
            }),
    {
        self.save_status_before_search();
        self.status = PlayerStatus::Searching;
        self.clear_search_results();
        self.begin_async_request()
    }

    /// Apply a finished search. A stale request changes nothing. An empty
    /// batch returns the session to waiting; a non-empty one becomes page
    /// one of the results, cached, with further pages assumed until a
    /// short page proves otherwise. A failure becomes the error status.
    pub fn apply_search_outcome(
        &mut self,
        request_id: u64,
        outcome: Result<Vec<SearchResult>, PlayerError>,
        keyword: String,
        page_size: usize,
    )
        requires
            old(self).wf(),
        ensures
            final(self).wf(),
            request_id != old(self).active_request_id ==> *final(self) == *old(self),
            request_id == old(self).active_request_id ==> ({
                let logs0 = log_views(old(self).logs@);
                match outcome {
                    Ok(results) => {
                        if results@.len() == 0 {
                            &&& final(self).status@ is Waiting
                            &&& log_views(final(self).logs@) == spec_add_log(
                                logs0,
                                "no results found"@,
                            )
                            &&& (*final(self) == App {
                                status: final(self).status,
                                logs: final(self).logs,
                                ..*old(self)
                            })
                        } else {
                            &&& final(self).current_page == 1
                            &&& final(self).total_pages == (if results@.len() < page_size {
                                1usize
                            } else {
                                usize::MAX
                            })
                            &&& final(self).page_cache.entries@ == spec_insert_entries(
                                old(self).page_cache,
                                1,
                                results,
                            )
                            &&& titles_of(final(self).search_results@) == titles_of(results@)
                            &&& final(self).selected_search_result == 0
                            &&& final(self).last_search_keyword == keyword
                            &&& final(self).status@ is SearchResults
                            &&& log_views(final(self).logs@) == spec_add_log(
                                logs0,
                                "found "@ + u64_digits(results@.len() as nat) + " results"@,
                            )
                            &&& (*final(self) == App {
                                current_page: final(self).current_page,
                                total_pages: final(self).total_pages,
                                page_cache: final(self).page_cache,
                                search_results: final(self).search_results,
                                selected_search_result: final(self).selected_search_result,
                                last_search_keyword: final(self).last_search_keyword,
                                status: final(self).status,
                                logs: final(self).logs,
                                ..*old(self)
                            })
                        }
                    },
                    Err(e) => {
                        &&& final(self).status@ == StatusView::Error(spec_message(e))
                        &&& log_views(final(self).logs@) == spec_add_log(
                            logs0,
                            "search error: "@ + spec_message(e),
                        )
                        &&& (*final(self) == App {
                            status: final(self).status,
                            logs: final(self).logs,
                            ..*old(self)
                        })
                    },
                }
            }),
    {
        if !self.is_active_request(request_id) {
            return ;
        }
        match outcome {
            Ok(results) => {
                if results.len() == 0 {
                    self.status = PlayerStatus::Waiting;
                    self.add_log(String::from_str("no results found"));
                } else {
                    let count = results.len();
                    self.current_page = 1;
                    self.total_pages = if count < page_size {
                        1
                    } else {
                        usize::MAX
                    };
                    let shown = clone_results(&results);
                    self.cache_page(1, results);
                    proof {
                        assert(shown@.len() == titles_of(shown@).len());
                    }
                    self.set_search_results(shown, keyword);
                    let mut m = String::from_str("found ");
                    m.append(u64_to_string(count as u64).as_str());
                    m.append(" results");
                    self.add_log(m);
                }
            },
            Err(e) => {
                let msg = e.message();
                let mut m = String::from_str("search error: ");
                m.append(msg.as_str());
                self.add_log(m);
                self.status = PlayerStatus::Error(msg);
            },
        }
    }

    /// Ask for a page: serve it from the cache when present, refuse while
    /// a fetch is under way, otherwise stamp a request to fetch it.
    pub fn start_page_fetch(&mut self, page: usize) -> (r: PageFetchPlan)
        requires
            old(self).wf(),
            page >= 1,
        ensures
            final(self).wf(),
            match r {
                PageFetchPlan::Cached => {
                    let pc = old(self).page_cache;
                    &&& pc.contains_page(page as int)
                    &&& final(self).current_page == page
                    &&& titles_of(final(self).search_results@) == titles_of(
                        pc.results_of(page as int),
                    )
                    &&& final(self).selected_search_result == 0
                    &&& final(self).last_search_keyword@ == old(self).last_search_keyword@
                    &&& final(self).status@ == (if pc.results_of(page as int).len() > 0 {
                        StatusView::SearchResults
                    } else {
                        old(self).status@
                    })
                    &&& log_views(final(self).logs@) == spec_add_log(
                        log_views(old(self).logs@),
                        "page "@ + u64_digits(page as nat) + " (from cache)"@,
                    )
                    &&& (*final(self) == App {
                        current_page: final(self).current_page,
                        search_results: final(self).search_results,
                        selected_search_result: final(self).selected_search_result,
                        last_search_keyword: final(self).last_search_keyword,
                        status: final(self).status,
                        logs: final(self).logs,
                        ..*old(self)
                    })
                },
                PageFetchPlan::Busy => {
                    &&& !old(self).page_cache.contains_page(page as int)
                    &&& old(self).is_loading_page
                    &&& log_views(final(self).logs@) == spec_add_log(
                        log_views(old(self).logs@),
                        "still loading, please wait"@,
                    )
                    &&& (*final(self) == App { logs: final(self).logs, ..*old(self) })
                },
                PageFetchPlan::Fetch(id) => {
                    &&& !old(self).page_cache.contains_page(page as int)
                    &&& !old(self).is_loading_page
                    &&& id == final(self).active_request_id
                    &&& final(self).active_request_id == final(self).request_seq
                    &&& (old(self).request_seq < u64::MAX ==> final(self).request_seq == old(self).request_seq + 1)
                    &&& (old(self).request_seq == u64::MAX ==> final(self).request_seq
                        == u64::MAX)
                    &&& final(self).is_loading_page
                    &&& (*final(self) == App {
                        request_seq: final(self).request_seq,
                        active_request_id: final(self).active_request_id,
                        is_loading_page: final(self).is_loading_page,
                        ..*old(self)
                    })
                },
            },
    {
        let cached: Option<Vec<SearchResult>> = match self.page_cache.get(page) {
            Some(v) => Some(clone_results(v)),
            None => None,
        };
        match cached {
            Some(list) => {
                self.current_page = page;
                let kw = self.last_search_keyword.clone();
                proof {
                    assert(list@.len() == titles_of(list@).len());
                    assert(titles_of(list@).len() == titles_of(
                        old(self).page_cache.results_of(page as int),
                    ).len());
                }
                self.set_search_results(list, kw);
                let mut m = String::from_str("page ");
                m.append(u64_to_string(page as u64).as_str());
                m.append(" (from cache)");
                self.add_log(m);
                PageFetchPlan::Cached
            },
            None => {
                if self.is_loading_page {
                    self.add_log(String::from_str("still loading, please wait"));
                    PageFetchPlan::Busy
                } else {
                    let id = self.begin_async_request();
                    self.is_loading_page = true;
                    PageFetchPlan::Fetch(id)
                }
            },
        }
    }

    /// Apply a finished page fetch. A stale request changes nothing. An
    /// empty page beyond the first marks the previous page as the last; a
    /// short page marks itself as the last; a failure only logs. Either
    /// way the fetch is no longer under way.
    pub fn apply_page_outcome(
        &mut self,
        request_id: u64,
        page: usize,
        outcome: Result<Vec<SearchResult>, PlayerError>,
        keyword: String,
        page_size: usize,
    )
        requires
            old(self).wf(),
            page >= 1,
        ensures
            final(self).wf(),
            request_id != old(self).active_request_id ==> *final(self) == *old(self),
            request_id == old(self).active_request_id ==> ({
                let logs0 = log_views(old(self).logs@);
                match outcome {
                    Ok(results) => {
                        if results@.len() == 0 {
                            &&& (page > 1 ==> ({
                                &&& final(self).total_pages == page - 1
                                &&& log_views(final(self).logs@) == spec_add_log(
                                    logs0,
                                    "reached the last page (page "@ + u64_digits((page - 1) as nat)
                                        + ")"@,
                                )
                            }))
                            &&& (page == 1 ==> ({
                                &&& final(self).total_pages == old(self).total_pages
                                &&& log_views(final(self).logs@) == spec_add_log(
                                    logs0,
                                    "no results found"@,
                                )
                            }))
                            &&& !final(self).is_loading_page
                            &&& (*final(self) == App {
                                total_pages: final(self).total_pages,
                                logs: final(self).logs,
                                is_loading_page: final(self).is_loading_page,
                                ..*old(self)
                            })
                        } else {
                            &&& final(self).current_page == page
                            &&& final(self).total_pages == (if results@.len() < page_size {
                                page
                            } else {
                                old(self).total_pages
                            })
                            &&& final(self).page_cache.entries@ == spec_insert_entries(
                                old(self).page_cache,
                                page,
                                results,
                            )
                            &&& titles_of(final(self).search_results@) == titles_of(results@)
                            &&& final(self).selected_search_result == 0
                            &&& final(self).last_search_keyword == keyword
                            &&& final(self).status@ is SearchResults
                            &&& log_views(final(self).logs@) == spec_add_log(
                                logs0,
                                "page "@ + u64_digits(page as nat) + ": found "@ + u64_digits(
                                    results@.len() as nat,
                                ) + " results"@,
                            )
                            &&& !final(self).is_loading_page
                            &&& (*final(self) == App {
                                current_page: final(self).current_page,
                                total_pages: final(self).total_pages,
                                page_cache: final(self).page_cache,
                                search_results: final(self).search_results,
                                selected_search_result: final(self).selected_search_result,
                                last_search_keyword: final(self).last_search_keyword,
                                status: final(self).status,
                                logs: final(self).logs,
                                is_loading_page: final(self).is_loading_page,
                                ..*old(self)
                            })
                        }
                    },
                    Err(e) => {
                        &&& log_views(final(self).logs@) == spec_add_log(
                            logs0,
                            "search failed: "@ + spec_message(e),
                        )
                        &&& !final(self).is_loading_page
                        &&& (*final(self) == App {
                            logs: final(self).logs,
                            is_loading_page: final(self).is_loading_page,
                            ..*old(self)
                        })
                    },
                }
            }),
    {
        if !self.is_active_request(request_id) {
            return ;
        }
        match outcome {
            Ok(results) => {
                if results.len() == 0 {
                    if page > 1 {
                        self.total_pages = page - 1;
                        let mut m = String::from_str("reached the last page (page ");
                        m.append(u64_to_string((page - 1) as u64).as_str());
                        m.append(")");
                        self.add_log(m);
                    } else {
                        self.add_log(String::from_str("no results found"));
                    }
                } else {
                    let count = results.len();
                    self.current_page = page;
                    if count < page_size {
                        self.total_pages = page;
                    }
                    let shown = clone_results(&results);
                    self.cache_page(page, results);
                    proof {
                        assert(shown@.len() == titles_of(shown@).len());
                    }
                    self.set_search_results(shown, keyword);
                    let mut m = String::from_str("page ");
                    m.append(u64_to_string(page as u64).as_str());
                    m.append(": found ");
                    m.append(u64_to_string(count as u64).as_str());
                    m.append(" results");
                    self.add_log(m);
                }
                self.is_loading_page = false;
            },
            Err(e) => {
                let msg = e.message();
                let mut m = String::from_str("search failed: ");
                m.append(msg.as_str());
                self.add_log(m);
                self.is_loading_page = false;
            },
        }
    }

    /// The page a forward turn goes to: only while results of a search
    /// are shown and more pages are believed to exist.
    pub fn next_page_target(&self) -> (r: Option<usize>)
        ensures
            r == (if self.last_search_keyword@.len() > 0 && self.current_page < self.total_pages {
                Some((self.current_page + 1) as usize)
            } else {
                None::<usize>
            }),
    {
        if self.last_search_keyword.as_str().unicode_len() > 0 && self.current_page
            < self.total_pages {
            Some(self.current_page + 1)
        } else {
            None
        }
    }

    /// The page a backward turn goes to: only from the second page on.
    pub fn prev_page_target(&self) -> (r: Option<usize>)
        ensures
            r == (if self.last_search_keyword@.len() > 0 && self.current_page > 1 {
                Some((self.current_page - 1) as usize)
            } else {
                None::<usize>
            }),
    {
        if self.last_search_keyword.as_str().unicode_len() > 0 && self.current_page > 1 {
            Some(self.current_page - 1)
        } else {
            None
        }
    }

    /// Whether a pause toggle should pause or resume: only something
    /// playing can be paused, only something paused can resume.
    pub fn pause_intent(&self) -> (r: Option<bool>)
        ensures
            r == (match self.status@ {
                StatusView::Playing => Some(true),
                StatusView::Paused => Some(false),
                _ => None::<bool>,
            }),
    {
        match &self.status {
            PlayerStatus::Playing => Some(true),
            PlayerStatus::Paused => Some(false),
            _ => None,
        }
    }

    /// Apply the outcome of a pause toggle: on success the status follows
    /// the toggle, on failure it stays and the failure is logged.
    pub fn apply_pause_result(&mut self, should_pause: bool, outcome: Result<(), PlayerError>)
        requires
            old(self).wf(),
        ensures
            final(self).wf(),
            match outcome {
                Ok(_) => {
                    &&& final(self).status@ == (if should_pause {
                        StatusView::Paused
                    } else {
                        StatusView::Playing
                    })
                    &&& (*final(self) == App { status: final(self).status, ..*old(self) })
                },
                Err(e) => {
                    &&& log_views(final(self).logs@) == spec_add_log(
                        log_views(old(self).logs@),
                        "toggle pause failed: "@ + spec_message(e),
                    )
                    &&& (*final(self) == App { logs: final(self).logs, ..*old(self) })
                },
            },
    {
        match outcome {
            Ok(_) => {
                self.status = if should_pause {
                    PlayerStatus::Paused
                } else {
                    PlayerStatus::Playing
                };
            },
            Err(e) => {
                let msg = e.message();
                let mut m = String::from_str("toggle pause failed: ");
                m.append(msg.as_str());
                self.add_log(m);
            },
        }
    }

    /// What the periodic tick should do in the current status.
    pub fn tick_plan(&self) -> (r: TickPlan)
        ensures
            r == (match self.status@ {
                StatusView::Error(_) => TickPlan::AdvanceFromError,
                StatusView::Playing => TickPlan::PollMirror,
                StatusView::Paused => TickPlan::PollMirror,
                _ => TickPlan::Idle,
            }),
    {
        match &self.status {
            PlayerStatus::Error(_) => TickPlan::AdvanceFromError,
            PlayerStatus::Playing => TickPlan::PollMirror,
            PlayerStatus::Paused => TickPlan::PollMirror,
            _ => TickPlan::Idle,
        }
    }

    /// Take the mirror's position and pause flag into the session: a
    /// pause-flag flip moves the status between playing and paused
    /// without restarting playback. Reports whether the mirror says the
    /// player stopped, which the caller follows up on.
    pub fn apply_mirror_flags(&mut self, progress: u32, pause: crate::mirror::PauseState) -> (stopped:
        bool)
        requires
            old(self).wf(),
            progress <= 1000,
            old(self).status@ is Playing || old(self).status@ is Paused,
        ensures
            final(self).wf(),
            final(self).progress == progress,
            match pause {
                crate::mirror::PauseState::Paused => final(self).status@ is Paused && !stopped,
                crate::mirror::PauseState::Playing => final(self).status@ is Playing && !stopped,
                crate::mirror::PauseState::Stopped => final(self).status@ == old(self).status@
                    && stopped,
            },
            (*final(self) == App {
                progress: final(self).progress,
                status: final(self).status,
                ..*old(self)
            }),
    {
        self.progress = progress;
        match pause {
            crate::mirror::PauseState::Paused => {
                if !matches!(self.status, PlayerStatus::Paused) {
                    self.status = PlayerStatus::Paused;
                }
                false
            },
            crate::mirror::PauseState::Playing => {
                if matches!(self.status, PlayerStatus::Paused) {
                    self.status = PlayerStatus::Playing;
                }
                false
            },
            crate::mirror::PauseState::Stopped => true,
        }
    }

    /// The player stopped: pick the next song and log it, or return to
    /// waiting when the playlist is exhausted.
    pub fn reconcile_stopped(&mut self, draw: u64) -> (r: Option<String>)
        requires
            old(self).wf(),
        ensures
            final(self).wf(),
            ({
                let (sel2, pick, logs2) = spec_next_song(
                    old(self).favorites@,
                    old(self).current_song@,
                    old(self).play_mode,
                    draw as int,
                    old(self).selected_favorite as int,
                    log_views(old(self).logs@),
                );
                &&& final(self).selected_favorite == sel2
                &&& (match r {
                    Some(t) => {
                        &&& pick == Some(t@)
                        &&& log_views(final(self).logs@) == spec_add_log(
                            logs2,
                            "auto-playing next: "@ + t@,
                        )
                        &&& final(self).status@ == old(self).status@
                    },
                    None => {
                        &&& pick is None
                        &&& log_views(final(self).logs@) == spec_add_log(
                            logs2,
                            "playback finished"@,
                        )
                        &&& final(self).status@ is Waiting
                    },
                })
            }),
            (*final(self) == App {
                selected_favorite: final(self).selected_favorite,
                logs: final(self).logs,
                status: final(self).status,
                ..*old(self)
            }),
    {
        match self.get_next_song(draw) {
            Some(t) => {
                let mut m = String::from_str("auto-playing next: ");
                m.append(t.as_str());
                self.add_log(m);
                Some(t)
            },
            None => {
                self.status = PlayerStatus::Waiting;
                self.add_log(String::from_str("playback finished"));
                None
            },
        }
    }

    /// The session shows an error: pick the next song to try and log the
    /// skip, or log that nothing is left.
    pub fn advance_from_error(&mut self, draw: u64) -> (r: Option<String>)
        requires
            old(self).wf(),
        ensures
            final(self).wf(),
            ({
                let (sel2, pick, logs2) = spec_next_song(
                    old(self).favorites@,
                    old(self).current_song@,
                    old(self).play_mode,
                    draw as int,
                    old(self).selected_favorite as int,
                    log_views(old(self).logs@),
                );
                &&& final(self).selected_favorite == sel2
                &&& (match r {
                    Some(t) => {
                        &&& pick == Some(t@)
                        &&& log_views(final(self).logs@) == spec_add_log(
                            logs2,
                            "skipping error, playing next: "@ + t@,
                        )
                    },
                    None => {
                        &&& pick is None
                        &&& log_views(final(self).logs@) == spec_add_log(
                            logs2,
                            "no more songs to play"@,
                        )
                    },
                })
            }),
            (*final(self) == App {
                selected_favorite: final(self).selected_favorite,
                logs: final(self).logs,
                ..*old(self)
            }),
    {
        match self.get_next_song(draw) {
            Some(t) => {
                let mut m = String::from_str("skipping error, playing next: ");
                m.append(t.as_str());
                self.add_log(m);
                Some(t)
            },
            None => {
                self.add_log(String::from_str("no more songs to play"));
                None
            },
        }
    }

    /// Begin playing the selected search result: stamp the request and
    /// leave the results view. Yields the title to resolve and the
    /// request id, or nothing when no result is selected.
    pub fn start_play_selected(&mut self) -> (r: Option<(String, u64)>)
        requires
            old(self).wf(),
        ensures
            final(self).wf(),
            match r {
                Some(pair) => {
                    &&& old(self).selected_search_result < old(self).search_results@.len()
                    &&& pair.0@ == old(self).search_results@[old(
                        self,
                    ).selected_search_result as int].title@
                    &&& pair.1 == final(self).active_request_id
                    &&& final(self).active_request_id == final(self).request_seq
                    &&& (old(self).request_seq < u64::MAX ==> final(self).request_seq == old(
                        self,
                    ).request_seq + 1)
                    &&& (old(self).request_seq == u64::MAX ==> final(self).request_seq
                        == u64::MAX)
                    &&& final(self).search_results@.len() == 0
                    &&& final(self).selected_search_result == 0
                    &&& final(self).last_search_keyword@.len() == 0
                    &&& final(self).page_cache.entries@.len() == 0
                    &&& !final(self).is_loading_page
                    &&& (*final(self) == App {
                        search_results: final(self).search_results,
                        selected_search_result: final(self).selected_search_result,
                        last_search_keyword: final(self).last_search_keyword,
                        page_cache: final(self).page_cache,
                        is_loading_page: final(self).is_loading_page,
                        request_seq: final(self).request_seq,
                        active_request_id: final(self).active_request_id,
                        ..*old(self)
                    })
                },
                None => {
                    &&& old(self).selected_search_result >= old(self).search_results@.len()
                    &&& *final(self) == *old(self)
                },
            },
    {
        if self.selected_search_result >= self.search_results.len() {
            return None;
        }
        let title = self.search_results[self.selected_search_result].title.clone();
        let id = self.begin_async_request();
        self.clear_search_results();
        Some((title, id))
    }

    /// A task about to resolve `title` marks the session: searching, the
    /// title as current, position at the start. A stale request changes
    /// nothing.
    pub fn mark_play_started(&mut self, request_id: u64, title: &String)
        requires
            old(self).wf(),
        ensures
            final(self).wf(),
            request_id != old(self).active_request_id ==> *final(self) == *old(self),
            request_id == old(self).active_request_id ==> ({
                &&& log_views(final(self).logs@) == spec_add_log(
                    log_views(old(self).logs@),
                    "playing from search results: "@ + title@,
                )
                &&& final(self).status@ is Searching
                &&& final(self).current_song@ == title@
                &&& final(self).progress == 0
                &&& (*final(self) == App {
                    logs: final(self).logs,
                    status: final(self).status,
                    current_song: final(self).current_song,
                    progress: final(self).progress,
                    ..*old(self)
                })
            }),
    {
        if !self.is_active_request(request_id) {
            return ;
        }
        let mut m = String::from_str("playing from search results: ");
        m.append(title.as_str());
        self.add_log(m);
        self.status = PlayerStatus::Searching;
        self.current_song = title.clone();
        self.progress = 0;
    }

    /// Begin playing `song` directly (from the favorites or the next-song
    /// policy): stamp the request, show the resolution in progress.
    pub fn start_direct_play(&mut self, song: String) -> (id: u64)
        requires
            old(self).wf(),
        ensures
            final(self).wf(),
            id == final(self).active_request_id,
            final(self).active_request_id == final(self).request_seq,
            old(self).request_seq < u64::MAX ==> final(self).request_seq == old(self).request_seq
                + 1,
            old(self).request_seq == u64::MAX ==> final(self).request_seq == u64::MAX,
            final(self).status@ is Searching,
            final(self).current_song == song,
            final(self).progress == 0,
            !final(self).is_loading_page,
            (*final(self) == App {
                request_seq: final(self).request_seq,
                active_request_id: final(self).active_request_id,
                is_loading_page: final(self).is_loading_page,
                status: final(self).status,
                current_song: final(self).current_song,
                progress: final(self).progress,
                ..*old(self)
            }),
    {
        let id = self.begin_async_request();
        self.status = PlayerStatus::Searching;
        self.current_song = song;
        self.progress = 0;
        id
    }

    /// Apply a finished playback start. A stale request changes nothing.
    /// On success the session plays `title` and the favorites selection
    /// follows it; on failure the session shows the error.
    pub fn apply_play_outcome(
        &mut self,
        request_id: u64,
        title: &String,
        outcome: Result<(), PlayerError>,
        announce: bool,
    )
        requires
            old(self).wf(),
        ensures
            final(self).wf(),
            request_id != old(self).active_request_id ==> *final(self) == *old(self),
            request_id == old(self).active_request_id ==> ({
                let logs0 = log_views(old(self).logs@);
                match outcome {
                    Ok(_) => {
                        let logs1 = if announce {
                            spec_add_log(logs0, "playback started"@)
                        } else {
                            logs0
                        };
                        &&& final(self).status@ is Playing
                        &&& final(self).current_song@ == title@
                        &&& (if has_title(old(self).favorites@, title@) {
                            let idx = first_title_index(old(self).favorites@, title@);
                            &&& final(self).selected_favorite == idx
                            &&& log_views(final(self).logs@) == spec_add_log(
                                logs1,
                                "favorite index synced to "@ + u64_digits(idx as nat),
                            )
                        } else {
                            &&& final(self).selected_favorite == old(self).selected_favorite
                            &&& log_views(final(self).logs@) == spec_add_log(
                                logs1,
                                "current song '"@ + title@ + "' is not in favorites"@,
                            )
                        })
                        &&& (*final(self) == App {
                            status: final(self).status,
                            current_song: final(self).current_song,
                            selected_favorite: final(self).selected_favorite,
                            logs: final(self).logs,
                            ..*old(self)
                        })
                    },
                    Err(e) => {
                        &&& final(self).status@ == StatusView::Error(spec_message(e))
                        &&& log_views(final(self).logs@) == spec_add_log(
                            logs0,
                            "playback failed: "@ + spec_message(e),
                        )
                        &&& (*final(self) == App {
                            status: final(self).status,
                            logs: final(self).logs,
                            ..*old(self)
                        })
                    },
                }
            }),
    {
        if !self.is_active_request(request_id) {
            return ;
        }
        match outcome {
            Ok(_) => {
                if announce {
                    self.add_log(String::from_str("playback started"));
                }
                self.status = PlayerStatus::Playing;
                self.current_song = title.clone();
                self.sync_selected_favorite();
            },
            Err(e) => {
                let msg = e.message();
                let mut m = String::from_str("playback failed: ");
                m.append(msg.as_str());
                self.add_log(m);
                self.status = PlayerStatus::Error(msg);
            },
        }
    }

    /// Apply a volume change: on success the mirrored volume is adopted
    /// and logged with the direction of the change, on failure only the
    /// failure is logged.
    pub fn apply_volume_result(&mut self, delta: i64, outcome: Result<u8, PlayerError>)
        requires
            old(self).wf(),
            (outcome matches Ok(v) ==> v <= 130),
        ensures
            final(self).wf(),
            match outcome {
                Ok(v) => {
                    &&& final(self).volume == v
                    &&& log_views(final(self).logs@) == spec_add_log(
                        log_views(old(self).logs@),
                        (if delta > 0 {
                            "🔊 volume: "@
                        } else {
                            "🔈 volume: "@
                        }) + u64_digits(v as nat) + "%"@,
                    )
                    &&& (*final(self) == App {
                        volume: final(self).volume,
                        logs: final(self).logs,
                        ..*old(self)
                    })
                },
                Err(e) => {
                    &&& log_views(final(self).logs@) == spec_add_log(
                        log_views(old(self).logs@),
                        "volume change failed: "@ + spec_message(e),
                    )
                    &&& (*final(self) == App { logs: final(self).logs, ..*old(self) })
                },
            },
    {
        match outcome {
            Ok(v) => {
                self.volume = v;
                let mut m = String::from_str(
                    if delta > 0 {
                        "🔊 volume: "
                    } else {
                        "🔈 volume: "
                    },
                );
                m.append(u64_to_string(v as u64).as_str());
                m.append("%");
                self.add_log(m);
            },
            Err(e) => {
                let msg = e.message();
                let mut m = String::from_str("volume change failed: ");
                m.append(msg.as_str());
                self.add_log(m);
            },
        }
    }

    /// Apply a seek: log how far it went, or that and why it failed. The
    /// direction is the sign of `seconds`.
    pub fn apply_seek_result(&mut self, seconds: i64, outcome: Result<(), PlayerError>)
        requires
            old(self).wf(),
            seconds > i64::MIN,
        ensures
            final(self).wf(),
            ({
                let dir = (if seconds >= 0 {
                    "fast forward"@
                } else {
                    "rewind"@
                });
                let mag = (if seconds >= 0 {
                    seconds as int
                } else {
                    -(seconds as int)
                });
                match outcome {
                    Ok(_) => log_views(final(self).logs@) == spec_add_log(
                        log_views(old(self).logs@),
                        dir + " "@ + u64_digits(mag as nat) + " s"@,
                    ),
                    Err(e) => log_views(final(self).logs@) == spec_add_log(
                        log_views(old(self).logs@),
                        dir + " failed: "@ + spec_message(e),
                    ),
                }
            }),
            (*final(self) == App { logs: final(self).logs, ..*old(self) }),
    {
        let dir = if seconds >= 0 {
            "fast forward"
        } else {
            "rewind"
        };
        let mag: u64 = if seconds >= 0 {
            seconds as u64
        } else {
            (-seconds) as u64
        };
        match outcome {
            Ok(_) => {
                let mut m = String::from_str(dir);
                m.append(" ");
                m.append(u64_to_string(mag).as_str());
                m.append(" s");
                self.add_log(m);
            },
            Err(e) => {
                let msg = e.message();
                let mut m = String::from_str(dir);
                m.append(" failed: ");
                m.append(msg.as_str());
                self.add_log(m);
            },
        }
    }
}

} // verus!
