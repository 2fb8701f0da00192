//! The navigation state machine: which view is shown, which page of it, and
//! what the client is busy with.
//!
//! The machine starts in `Starting` and never ends. A fetch is in flight
//! exactly while it is in `RetrievingResults`, so a second fetch cannot begin
//! before the first is over.

use vstd::prelude::*;
use crate::cache::{AppCache, CacheView, OpenedVia, StoryCategory};
use crate::errors::{AppError, FetchError, NavigationError};
use crate::models::{HnItem, HnListOfItems};
use crate::paging::{has_page, page_in_range, PAGE_SIZE};
use crate::text::{decimal, decimal_string};

verus! {

/// What the client is busy with.
#[derive(Debug, Clone, Copy, PartialEq, Eq, Structural)]
pub enum AppStates {
    WaitingUserInput,
    RetrievingResults,
    DoingLocalWork,
    Idle,
    Starting,
}

/// What a fetch brought.
#[derive(Debug, Clone)]
pub enum Fetched {
    /// The id list of one ranking.
    Stories { category: StoryCategory, list: HnListOfItems },
    /// An item with its direct comments, and how the user came to open it.
    Thread { item: HnItem, comments: Vec<HnItem>, via: OpenedVia },
}

/// The value of an [`AppStateMachine`].
pub struct MachineView {
    pub viewing_top_stories: bool,
    pub viewing_comments_for_a_story: bool,
    pub connection_working: bool,
    pub listing_page_index: i32,
    pub comments_page_index: i32,
    pub last_opened_item_id: Seq<char>,
    pub current_state: AppStates,
}

impl MachineView {
    /// The machine as it is created.
    pub open spec fn initial() -> MachineView {
        MachineView {
            viewing_top_stories: false,
            viewing_comments_for_a_story: false,
            connection_working: false,
            listing_page_index: 0,
            comments_page_index: 0,
            last_opened_item_id: Seq::empty(),
            current_state: AppStates::Starting,
        }
    }

    /// What holds of every machine: at most one view is shown, no page index
    /// is negative, and the connection is marked as working exactly while a
    /// fetch is in flight.
    pub open spec fn wf(self) -> bool {
        &&& !(self.viewing_top_stories && self.viewing_comments_for_a_story)
        &&& self.listing_page_index >= 0
        &&& self.comments_page_index >= 0
        &&& self.connection_working <==> self.current_state == AppStates::RetrievingResults
    }

    /// The machine in another activity state; the connection flag follows.
    pub open spec fn in_state(self, state: AppStates) -> MachineView {
        MachineView {
            current_state: state,
            connection_working: state == AppStates::RetrievingResults,
            ..self
        }
    }

    /// The machine once it shows the story listing.
    pub open spec fn showing_stories(self) -> MachineView {
        MachineView { viewing_top_stories: true, viewing_comments_for_a_story: false, ..self }
    }

    /// The machine once it shows the comments of the item with id `item_id`.
    pub open spec fn showing_comments(self, item_id: Seq<char>) -> MachineView {
        MachineView {
            viewing_top_stories: false,
            viewing_comments_for_a_story: true,
            last_opened_item_id: item_id,
            ..self
        }
    }

    /// The index of the page that is shown, where a view is shown.
    pub open spec fn shown_page(self) -> Option<i32> {
        if self.viewing_top_stories {
            Some(self.listing_page_index)
        } else if self.viewing_comments_for_a_story {
            Some(self.comments_page_index)
        } else {
            None
        }
    }

    /// The number of rows that the shown view has in the cache.
    pub open spec fn shown_count(self, cache: CacheView) -> Option<nat> {
        if self.viewing_top_stories {
            cache.story_count()
        } else if self.viewing_comments_for_a_story {
            cache.comment_count()
        } else {
            None
        }
    }

    /// The machine with the shown view on page `page`.
    pub open spec fn on_page(self, page: i32) -> MachineView {
        if self.viewing_top_stories {
            MachineView { listing_page_index: page, ..self }
        } else if self.viewing_comments_for_a_story {
            MachineView { comments_page_index: page, ..self }
        } else {
            self
        }
    }

    /// Why paging forward is refused, if it is. The checks come in this
    /// order: the machine must be waiting for input, a view must be shown,
    /// that view must have rows in the cache, and the next page must show at
    /// least one of them.
    pub open spec fn next_page_refusal(self, cache: CacheView) -> Option<AppError> {
        if self.current_state != AppStates::WaitingUserInput || self.shown_page() is None {
            Some(AppError::Navigation(NavigationError::InvalidForMode))
        } else if self.shown_count(cache) is None {
            Some(AppError::CacheMiss)
        } else if !page_in_range(self.shown_page()->0 + 1, self.shown_count(cache)->0) {
            Some(AppError::Navigation(NavigationError::OverIndex))
        } else {
            None
        }
    }

    /// The machine after a request to page forward.
    pub open spec fn after_next_page(self, cache: CacheView) -> MachineView {
        if self.next_page_refusal(cache) is None {
            self.on_page((self.shown_page()->0 + 1) as i32)
        } else {
            self
        }
    }

    /// Why paging back is refused, if it is: the machine must be waiting for
    /// input, a view must be shown, and it must not be on its first page.
    pub open spec fn previous_page_refusal(self) -> Option<NavigationError> {
        if self.current_state != AppStates::WaitingUserInput || self.shown_page() is None {
            Some(NavigationError::InvalidForMode)
        } else if self.shown_page()->0 <= 0 {
            Some(NavigationError::OverIndex)
        } else {
            None
        }
    }

    /// The machine after a request to page back. A page index never goes
    /// below zero.
    pub open spec fn after_previous_page(self) -> MachineView {
        if self.previous_page_refusal() is None {
            self.on_page((self.shown_page()->0 - 1) as i32)
        } else if self.current_state == AppStates::WaitingUserInput && self.shown_page() is Some {
            self.on_page(0)
        } else {
            self
        }
    }

    /// The machine after a fetch that it was waiting for has ended. A failed
    /// fetch only ends the wait. A story list of the top ranking brings up
    /// the listing on its first page; a list of another ranking changes no
    /// view. A thread brings up the comment view of its item on its first
    /// page.
    pub open spec fn after_fetch(self, outcome: Result<Fetched, FetchError>) -> MachineView {
        let waiting = self.in_state(AppStates::WaitingUserInput);
        match outcome {
            Err(_) => waiting,
            Ok(Fetched::Stories { category, list }) => if category == StoryCategory::Top {
                MachineView { listing_page_index: 0, ..waiting.showing_stories() }
            } else {
                waiting
            },
            Ok(Fetched::Thread { item, comments, via }) => MachineView {
                comments_page_index: 0,
                ..waiting.showing_comments(decimal(item.id as int))
            },
        }
    }
}

/// The cache after a fetch has ended: a failed fetch leaves it as it was, a
/// story list replaces the list of its ranking, a thread replaces the open
/// item and its comments.
pub open spec fn cache_after_fetch(cache: CacheView, outcome: Result<Fetched, FetchError>)
    -> CacheView {
    match outcome {
        Err(_) => cache,
        Ok(Fetched::Stories { category, list }) => cache.with_story_list(category, list@),
        Ok(Fetched::Thread { item, comments, via }) => cache.with_open_item(item, comments@, via),
    }
}

/// What the end of a fetch reports: the failure of a failed fetch, nothing
/// otherwise.
pub open spec fn fetch_report(outcome: Result<Fetched, FetchError>) -> Result<(), AppError> {
    match outcome {
        Err(e) => Err(e.as_app_error()),
        Ok(_) => Ok(()),
    }
}

/// The navigation state of the client.
#[derive(Debug)]
pub struct AppStateMachine {
    viewing_top_stories: bool,
    viewing_comments_for_a_story: bool,
    connection_working: bool,
    listing_page_index: i32,
    comments_page_index: i32,
    last_opened_item_id: String,
    current_state: AppStates,
}

impl View for AppStateMachine {
    type V = MachineView;

    closed spec fn view(&self) -> MachineView {
        MachineView {
            viewing_top_stories: self.viewing_top_stories,
            viewing_comments_for_a_story: self.viewing_comments_for_a_story,
            connection_working: self.connection_working,
            listing_page_index: self.listing_page_index,
            comments_page_index: self.comments_page_index,
            last_opened_item_id: self.last_opened_item_id@,
            current_state: self.current_state,
        }
    }
}

impl AppStateMachine {
    /// A machine that is starting: no view shown, both page indices zero, no
    /// item opened yet.
    pub fn new() -> (machine: AppStateMachine)
        ensures
            machine@ == MachineView::initial(),
            machine@.wf(),
    {
        AppStateMachine {
            viewing_top_stories: false,
            viewing_comments_for_a_story: false,
            connection_working: false,
            listing_page_index: 0,
            comments_page_index: 0,
            last_opened_item_id: String::new(),
            current_state: AppStates::Starting,
        }
    }

    /// Moves from `from` to `to` where the machine is in `from`; refuses,
    /// and changes nothing, where it is not.
    fn transition(&mut self, from: AppStates, to: AppStates) -> (done: Result<(), NavigationError>)
        ensures
            old(self)@.current_state == from ==> done is Ok && final(self)@ == old(self)@.in_state(
                to,
            ),
            old(self)@.current_state != from ==> done == Err::<(), NavigationError>(
                NavigationError::InvalidForMode,
            ) && final(self)@ == old(self)@,
    {
        if self.current_state == from {
            self.current_state = to;
            self.connection_working = to == AppStates::RetrievingResults;
            Ok(())
        } else {
            Err(NavigationError::InvalidForMode)
        }
    }

    /// Ends the start-up: `Starting` becomes `WaitingUserInput`. In any other
    /// state the call is refused and changes nothing.
    pub fn finish_setup(&mut self) -> (done: Result<(), NavigationError>)
        ensures
            old(self)@.current_state == AppStates::Starting ==> done is Ok && final(self)@ == old(
                self,
            )@.in_state(AppStates::WaitingUserInput),
            old(self)@.current_state != AppStates::Starting ==> done == Err::<
                (),
                NavigationError,
            >(NavigationError::InvalidForMode) && final(self)@ == old(self)@,
            old(self)@.wf() ==> final(self)@.wf(),
    {
        self.transition(AppStates::Starting, AppStates::WaitingUserInput)
    }

    /// Accepts a command that needs a fetch: `WaitingUserInput` becomes
    /// `RetrievingResults` and the connection is marked as working. In any
    /// other state, so also while a fetch is in flight, the call is refused
    /// and changes nothing.
    pub fn begin_fetch(&mut self) -> (done: Result<(), NavigationError>)
        ensures
            old(self)@.current_state == AppStates::WaitingUserInput ==> done is Ok && final(self)@
                == old(self)@.in_state(AppStates::RetrievingResults),
            old(self)@.current_state != AppStates::WaitingUserInput ==> done == Err::<
                (),
                NavigationError,
            >(NavigationError::InvalidForMode) && final(self)@ == old(self)@,
            old(self)@.wf() ==> final(self)@.wf(),
    {
        self.transition(AppStates::WaitingUserInput, AppStates::RetrievingResults)
    }

    /// Accepts a command that is served without a fetch: `WaitingUserInput`
    /// becomes `DoingLocalWork`. In any other state the call is refused and
    /// changes nothing.
    pub fn begin_local_work(&mut self) -> (done: Result<(), NavigationError>)
        ensures
            old(self)@.current_state == AppStates::WaitingUserInput ==> done is Ok && final(self)@
                == old(self)@.in_state(AppStates::DoingLocalWork),
            old(self)@.current_state != AppStates::WaitingUserInput ==> done == Err::<
                (),
                NavigationError,
            >(NavigationError::InvalidForMode) && final(self)@ == old(self)@,
            old(self)@.wf() ==> final(self)@.wf(),
    {
        self.transition(AppStates::WaitingUserInput, AppStates::DoingLocalWork)
    }

    /// Ends local work: `DoingLocalWork` becomes `WaitingUserInput`. In any
    /// other state the call is refused and changes nothing.
    pub fn finish_local_work(&mut self) -> (done: Result<(), NavigationError>)
        ensures
            old(self)@.current_state == AppStates::DoingLocalWork ==> done is Ok && final(self)@
                == old(self)@.in_state(AppStates::WaitingUserInput),
            old(self)@.current_state != AppStates::DoingLocalWork ==> done == Err::<
                (),
                NavigationError,
            >(NavigationError::InvalidForMode) && final(self)@ == old(self)@,
            old(self)@.wf() ==> final(self)@.wf(),
    {
        self.transition(AppStates::DoingLocalWork, AppStates::WaitingUserInput)
    }

    /// Leaves `Idle` for `WaitingUserInput`. In any other state the call is
    /// refused and changes nothing.
    pub fn resume(&mut self) -> (done: Result<(), NavigationError>)
        ensures
            old(self)@.current_state == AppStates::Idle ==> done is Ok && final(self)@ == old(
                self,
            )@.in_state(AppStates::WaitingUserInput),
            old(self)@.current_state != AppStates::Idle ==> done == Err::<(), NavigationError>(
                NavigationError::InvalidForMode,
            ) && final(self)@ == old(self)@,
            old(self)@.wf() ==> final(self)@.wf(),
    {
        self.transition(AppStates::Idle, AppStates::WaitingUserInput)
    }

    /// Records a fatal local error: whatever the state was, it is `Idle`
    /// now, and no fetch counts as in flight.
    pub fn halt(&mut self)
        ensures
            final(self)@ == old(self)@.in_state(AppStates::Idle),
            old(self)@.wf() ==> final(self)@.wf(),
    {
        self.current_state = AppStates::Idle;
        self.connection_working = false;
    }

    /// Shows the story listing, and with that no longer the comments.
    pub fn show_stories(&mut self)
        ensures
            final(self)@ == old(self)@.showing_stories(),
            old(self)@.wf() ==> final(self)@.wf(),
    {
        self.viewing_top_stories = true;
        self.viewing_comments_for_a_story = false;
    }

    /// Shows the comments of the item with id `item_id`, and with that no
    /// longer the story listing.
    pub fn show_comments(&mut self, item_id: String)
        ensures
            final(self)@ == old(self)@.showing_comments(item_id@),
            old(self)@.wf() ==> final(self)@.wf(),
    {
        self.viewing_top_stories = false;
        self.viewing_comments_for_a_story = true;
        self.last_opened_item_id = item_id;
    }

    /// Pages forward in the view that is shown. Where the next page would
    /// begin past the last row that the cache holds for the view, its page
    /// index stays as it is and `OverIndex` is reported; nothing is fetched
    /// and nothing wraps around.
    pub fn next_page(&mut self, cache: &AppCache) -> (done: Result<(), AppError>)
        ensures
            done == match old(self)@.next_page_refusal(cache@) {
                Some(e) => Err::<(), AppError>(e),
                None => Ok(()),
            },
            final(self)@ == old(self)@.after_next_page(cache@),
            old(self)@.wf() ==> final(self)@.wf(),
    {
        if self.current_state != AppStates::WaitingUserInput {
            return Err(AppError::Navigation(NavigationError::InvalidForMode));
        }
        if self.viewing_top_stories {
            match cache.stories_len() {
                None => Err(AppError::CacheMiss),
                Some(count) => {
                    if self.listing_page_index < i32::MAX && has_page(
                        self.listing_page_index + 1,
                        count,
                    ) {
                        self.listing_page_index = self.listing_page_index + 1;
                        Ok(())
                    } else {
                        Err(AppError::Navigation(NavigationError::OverIndex))
                    }
                },
            }
        } else if self.viewing_comments_for_a_story {
            match cache.comments_len() {
                None => Err(AppError::CacheMiss),
                Some(count) => {
                    if self.comments_page_index < i32::MAX && has_page(
                        self.comments_page_index + 1,
                        count,
                    ) {
                        self.comments_page_index = self.comments_page_index + 1;
                        Ok(())
                    } else {
                        Err(AppError::Navigation(NavigationError::OverIndex))
                    }
                },
            }
        } else {
            Err(AppError::Navigation(NavigationError::InvalidForMode))
        }
    }

    /// Pages back in the view that is shown. On the first page the index
    /// stays at zero and `OverIndex` is reported.
    pub fn previous_page(&mut self) -> (done: Result<(), NavigationError>)
        ensures
            done == match old(self)@.previous_page_refusal() {
                Some(e) => Err::<(), NavigationError>(e),
                None => Ok(()),
            },
            final(self)@ == old(self)@.after_previous_page(),
            old(self)@.wf() ==> final(self)@.wf(),
    {
        if self.current_state != AppStates::WaitingUserInput {
            return Err(NavigationError::InvalidForMode);
        }
        if self.viewing_top_stories {
            if self.listing_page_index > 0 {
                self.listing_page_index = self.listing_page_index - 1;
                Ok(())
            } else {
                self.listing_page_index = 0;
                Err(NavigationError::OverIndex)
            }
        } else if self.viewing_comments_for_a_story {
            if self.comments_page_index > 0 {
                self.comments_page_index = self.comments_page_index - 1;
                Ok(())
            } else {
                self.comments_page_index = 0;
                Err(NavigationError::OverIndex)
            }
        } else {
            Err(NavigationError::InvalidForMode)
        }
    }

    /// Ends the fetch that is in flight. The machine waits for input again
    /// and the connection is no longer marked as working. A failed fetch
    /// changes neither the cache nor a page index, and its failure is handed
    /// back. A fetch that brought something fills the cache slot it belongs
    /// to and brings up the view on its first page.
    ///
    /// Where no fetch is in flight the call is refused with `InvalidForMode`
    /// and changes nothing.
    pub fn finish_fetch(&mut self, cache: &mut AppCache, outcome: Result<Fetched, FetchError>) -> (done:
        Result<(), AppError>)
        ensures
            old(self)@.current_state == AppStates::RetrievingResults ==> {
                &&& done == fetch_report(outcome)
                &&& final(self)@ == old(self)@.after_fetch(outcome)
                &&& final(cache)@ == cache_after_fetch(old(cache)@, outcome)
            },
            old(self)@.current_state != AppStates::RetrievingResults ==> {
                &&& done == Err::<(), AppError>(
                    AppError::Navigation(NavigationError::InvalidForMode),
                )
                &&& final(self)@ == old(self)@
                &&& final(cache)@ == old(cache)@
            },
            old(self)@.wf() ==> final(self)@.wf(),
            old(cache)@.consistent() ==> final(cache)@.consistent(),
    {
        if self.current_state != AppStates::RetrievingResults {
            return Err(AppError::Navigation(NavigationError::InvalidForMode));
        }
        self.current_state = AppStates::WaitingUserInput;
        self.connection_working = false;
        match outcome {
            Err(e) => Err(e.into_app_error()),
            Ok(Fetched::Stories { category, list }) => {
                cache.store_story_list(category, list);
                if category == StoryCategory::Top {
                    self.viewing_top_stories = true;
                    self.viewing_comments_for_a_story = false;
                    self.listing_page_index = 0;
                }
                Ok(())
            },
            Ok(Fetched::Thread { item, comments, via }) => {
                let item_id = decimal_string(item.id as i128);
                cache.store_open_item_and_comments(item, comments, via);
                self.viewing_top_stories = false;
                self.viewing_comments_for_a_story = true;
                self.last_opened_item_id = item_id;
                self.comments_page_index = 0;
                Ok(())
            },
        }
    }

    /// Whether the story listing is shown.
    pub fn viewing_top_stories(&self) -> (shown: bool)
        ensures
            shown == self@.viewing_top_stories,
    {
        self.viewing_top_stories
    }

    /// Whether the comments of an item are shown.
    pub fn viewing_comments_for_a_story(&self) -> (shown: bool)
        ensures
            shown == self@.viewing_comments_for_a_story,
    {
        self.viewing_comments_for_a_story
    }

    /// Whether a fetch is in flight.
    pub fn connection_working(&self) -> (working: bool)
        ensures
            working == self@.connection_working,
    {
        self.connection_working
    }

    /// The page of the story listing.
    pub fn listing_page_index(&self) -> (page: i32)
        ensures
            page == self@.listing_page_index,
    {
        self.listing_page_index
    }

    /// The page of the comment view.
    pub fn comments_page_index(&self) -> (page: i32)
        ensures
            page == self@.comments_page_index,
    {
        self.comments_page_index
    }

    /// The id of the item opened last, in decimal; empty where none was.
    pub fn last_opened_item_id(&self) -> (id: &str)
        ensures
            id@ == self@.last_opened_item_id,
    {
        self.last_opened_item_id.as_str()
    }

    /// What the client is busy with.
    pub fn current_state(&self) -> (state: AppStates)
        ensures
            state == self@.current_state,
    {
        self.current_state
    }
}

/// Paging forward in the story listing, where the next page would begin past
/// the last story that the cache holds, is refused and leaves the machine,
/// and so its listing page index, as it was. A machine that waits for input
/// reports `OverIndex`.
pub proof fn lemma_paging_past_last_story(machine: MachineView, cache: CacheView)
    requires
        machine.viewing_top_stories,
        cache.story_count() is Some,
        (machine.listing_page_index + 1) * PAGE_SIZE > cache.story_count()->0 - 1,
    ensures
        machine.next_page_refusal(cache) is Some,
        machine.after_next_page(cache) == machine,
        machine.after_next_page(cache).listing_page_index == machine.listing_page_index,
        machine.current_state == AppStates::WaitingUserInput ==> machine.next_page_refusal(cache)
            == Some(AppError::Navigation(NavigationError::OverIndex)),
{
}

/// A fetch that failed changes neither the cache nor a page index nor the
/// view that is shown; the machine waits for input again.
pub proof fn lemma_failed_fetch_changes_nothing(
    machine: MachineView,
    cache: CacheView,
    failure: FetchError,
)
    ensures
        cache_after_fetch(cache, Err(failure)) == cache,
        machine.after_fetch(Err(failure)) == machine.in_state(AppStates::WaitingUserInput),
        machine.after_fetch(Err(failure)).listing_page_index == machine.listing_page_index,
        machine.after_fetch(Err(failure)).comments_page_index == machine.comments_page_index,
{
}

/// Every step of the machine keeps it well formed: at most one view is shown,
/// no page index is negative, and the connection is marked as working exactly
/// while a fetch is in flight.
pub proof fn lemma_steps_keep_well_formed(
    machine: MachineView,
    cache: CacheView,
    state: AppStates,
    item_id: Seq<char>,
    outcome: Result<Fetched, FetchError>,
)
    requires
        machine.wf(),
    ensures
        MachineView::initial().wf(),
        machine.in_state(state).wf(),
        machine.showing_stories().wf(),
        machine.showing_comments(item_id).wf(),
        machine.after_next_page(cache).wf(),
        machine.after_previous_page().wf(),
        machine.after_fetch(outcome).wf(),
{
}

/// `Starting` is left once and never entered again: no step that the machine
/// takes from another state leads back to it. The steps between activity
/// states lead to `WaitingUserInput`, `RetrievingResults`, `DoingLocalWork`
/// or `Idle`; the others leave the activity state as it is or end a fetch.
pub proof fn lemma_starting_is_left_for_good(
    machine: MachineView,
    cache: CacheView,
    item_id: Seq<char>,
    outcome: Result<Fetched, FetchError>,
)
    requires
        machine.current_state != AppStates::Starting,
    ensures
        machine.in_state(AppStates::WaitingUserInput).current_state != AppStates::Starting,
        machine.in_state(AppStates::RetrievingResults).current_state != AppStates::Starting,
        machine.in_state(AppStates::DoingLocalWork).current_state != AppStates::Starting,
        machine.in_state(AppStates::Idle).current_state != AppStates::Starting,
        machine.showing_stories().current_state != AppStates::Starting,
        machine.showing_comments(item_id).current_state != AppStates::Starting,
        machine.after_next_page(cache).current_state != AppStates::Starting,
        machine.after_previous_page().current_state != AppStates::Starting,
        machine.after_fetch(outcome).current_state != AppStates::Starting,
{
}

} // verus!
