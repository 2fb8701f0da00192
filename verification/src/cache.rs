//! The result cache: the story lists last fetched, the item that is open, the
//! trail of ancestors above it, and the comments loaded for it.
//!
//! Nothing here blocks or fetches. Every operation either reads the cache or
//! replaces or removes the content of one slot.

use std::collections::VecDeque;
use vstd::prelude::*;
use crate::models::{comment_has_kids, HnItem, HnListOfItems};
use crate::paging::{page_bounds, page_end, page_of, page_start};

verus! {

/// The rankings that the API serves as id lists.
#[derive(Debug, Clone, Copy, PartialEq, Eq, Structural)]
pub enum StoryCategory {
    Top,
    Best,
    New,
}

/// How the user came to open an item.
#[derive(Debug, Clone, Copy, PartialEq, Eq, Structural)]
pub enum OpenedVia {
    /// Picked from a story list: unrelated to whatever was open before.
    Listing,
    /// Reached by expanding a comment of the item that was open before.
    Expansion,
    /// Reached by going back up to the parent of the item that was open before.
    Ascent,
}

/// What a cache holds, slot by slot.
pub struct CacheView {
    pub top_stories: Option<Seq<i32>>,
    pub best_stories: Option<Seq<i32>>,
    pub new_stories: Option<Seq<i32>>,
    pub open_item: Option<HnItem>,
    pub ancestors: Seq<HnItem>,
    pub comments: Option<Seq<HnItem>>,
}

impl CacheView {
    /// A cache with nothing in it.
    pub open spec fn empty() -> CacheView {
        CacheView {
            top_stories: None,
            best_stories: None,
            new_stories: None,
            open_item: None,
            ancestors: Seq::empty(),
            comments: None,
        }
    }

    /// Comments are only ever held for an item that is open.
    pub open spec fn consistent(self) -> bool {
        self.comments is Some ==> self.open_item is Some
    }

    /// The list cached for a category.
    pub open spec fn story_list(self, category: StoryCategory) -> Option<Seq<i32>> {
        match category {
            StoryCategory::Top => self.top_stories,
            StoryCategory::Best => self.best_stories,
            StoryCategory::New => self.new_stories,
        }
    }

    /// The cache after the list of one category is replaced.
    pub open spec fn with_story_list(self, category: StoryCategory, list: Seq<i32>) -> CacheView {
        match category {
            StoryCategory::Top => CacheView { top_stories: Some(list), ..self },
            StoryCategory::Best => CacheView { best_stories: Some(list), ..self },
            StoryCategory::New => CacheView { new_stories: Some(list), ..self },
        }
    }

    /// The trail of ancestors after an item is opened.
    pub open spec fn trail_after(self, via: OpenedVia) -> Seq<HnItem> {
        match via {
            OpenedVia::Listing => Seq::empty(),
            OpenedVia::Expansion => match self.open_item {
                Some(previous) => self.ancestors.push(previous),
                None => self.ancestors,
            },
            OpenedVia::Ascent => if self.ancestors.len() > 0 {
                self.ancestors.drop_last()
            } else {
                self.ancestors
            },
        }
    }

    /// The cache after an item is opened with its comments.
    pub open spec fn with_open_item(
        self,
        item: HnItem,
        comments: Seq<HnItem>,
        via: OpenedVia,
    ) -> CacheView {
        CacheView {
            open_item: Some(item),
            comments: Some(comments),
            ancestors: self.trail_after(via),
            ..self
        }
    }

    /// The number of top stories cached.
    pub open spec fn story_count(self) -> Option<nat> {
        match self.top_stories {
            Some(ids) => Some(ids.len()),
            None => None,
        }
    }

    /// The top story on the row numbered `numb`, where page `page` shows
    /// that row: the rows are numbered from one, so it is the story at
    /// `numb - 1`.
    pub open spec fn story_on_row(self, page: int, numb: int) -> Option<i32> {
        match self.top_stories {
            Some(all) => if page_start(page, all.len()) <= numb - 1 < page_end(page, all.len()) {
                Some(all[numb - 1])
            } else {
                None
            },
            None => None,
        }
    }

    /// The number of comments cached.
    pub open spec fn comment_count(self) -> Option<nat> {
        match self.comments {
            Some(items) => Some(items.len()),
            None => None,
        }
    }

    /// Whether a comment stands at `index`.
    pub open spec fn has_comment_at(self, index: int) -> bool {
        match self.comments {
            Some(items) => 0 <= index < items.len(),
            None => false,
        }
    }

    /// What taking the comment at `index` hands out: the comment that stands
    /// there, or nothing where none does.
    pub open spec fn taken(self, index: int) -> Option<HnItem> {
        if self.has_comment_at(index) {
            Some(self.comments->0[index])
        } else {
            None
        }
    }

    /// The cache after the comment at `index` is taken: the comment list
    /// without that position, every other slot as it was.
    pub open spec fn after_take(self, index: int) -> CacheView {
        if self.has_comment_at(index) {
            CacheView { comments: Some(self.comments->0.remove(index)), ..self }
        } else {
            self
        }
    }

    /// Whether the comment at `index` exists and lists at least one child.
    pub open spec fn expandable_at(self, index: int) -> bool {
        self.has_comment_at(index) && self.comments->0[index].has_kids()
    }

    /// What taking the comment at `index` for expansion hands out.
    pub open spec fn taken_if_kids(self, index: int) -> Option<HnItem> {
        if self.expandable_at(index) {
            self.taken(index)
        } else {
            None
        }
    }

    /// The cache after the comment at `index` is taken for expansion.
    pub open spec fn after_take_if_kids(self, index: int) -> CacheView {
        if self.expandable_at(index) {
            self.after_take(index)
        } else {
            self
        }
    }
}

/// The ids of an optional story list.
pub open spec fn list_view(list: Option<HnListOfItems>) -> Option<Seq<i32>> {
    match list {
        Some(l) => Some(l@),
        None => None,
    }
}

/// The items of an optional comment vector.
pub open spec fn items_view(items: Option<Vec<HnItem>>) -> Option<Seq<HnItem>> {
    match items {
        Some(v) => Some(v@),
        None => None,
    }
}

/// The cache of fetched results. It lives as long as the process and is
/// changed only by a new fetch or by taking a comment out.
#[derive(Debug)]
pub struct AppCache {
    retrieved_top_stories: Option<HnListOfItems>,
    retrieved_best_stories: Option<HnListOfItems>,
    retrieved_new_stories: Option<HnListOfItems>,
    last_retrieved_item: Option<HnItem>,
    last_parent_items: VecDeque<HnItem>,
    last_retrieved_comments: Option<Vec<HnItem>>,
}

impl View for AppCache {
    type V = CacheView;

    closed spec fn view(&self) -> CacheView {
        CacheView {
            top_stories: list_view(self.retrieved_top_stories),
            best_stories: list_view(self.retrieved_best_stories),
            new_stories: list_view(self.retrieved_new_stories),
            open_item: self.last_retrieved_item,
            ancestors: self.last_parent_items@,
            comments: items_view(self.last_retrieved_comments),
        }
    }
}

impl AppCache {
    /// A cache with every slot empty.
    pub fn new() -> (cache: AppCache)
        ensures
            cache@ == CacheView::empty(),
            cache@.consistent(),
    {
        AppCache {
            retrieved_top_stories: None,
            retrieved_best_stories: None,
            retrieved_new_stories: None,
            last_retrieved_item: None,
            last_parent_items: VecDeque::new(),
            last_retrieved_comments: None,
        }
    }

    /// Replaces the cached list of one ranking with `list`. Nothing is
    /// merged, and no other slot changes.
    pub fn store_story_list(&mut self, category: StoryCategory, list: HnListOfItems)
        ensures
            final(self)@ == old(self)@.with_story_list(category, list@),
            old(self)@.consistent() ==> final(self)@.consistent(),
    {
        match category {
            StoryCategory::Top => {
                self.retrieved_top_stories = Some(list);
            },
            StoryCategory::Best => {
                self.retrieved_best_stories = Some(list);
            },
            StoryCategory::New => {
                self.retrieved_new_stories = Some(list);
            },
        }
    }

    /// Makes `item` the open item and `comments` its loaded comments, both at
    /// once. The trail of ancestors follows from how the item was reached:
    /// from a listing, the trail is cleared; by expansion, the item that was
    /// open is pushed onto it; by ascent, its last entry is dropped.
    pub fn store_open_item_and_comments(
        &mut self,
        item: HnItem,
        comments: Vec<HnItem>,
        via: OpenedVia,
    )
        ensures
            final(self)@ == old(self)@.with_open_item(item, comments@, via),
            final(self)@.consistent(),
    {
        match via {
            OpenedVia::Listing => {
                self.last_parent_items.clear();
            },
            OpenedVia::Expansion => {
                let previous = self.last_retrieved_item.take();
                match previous {
                    Some(parent) => {
                        self.last_parent_items.push_back(parent);
                    },
                    None => {},
                }
            },
            OpenedVia::Ascent => {
                let ghost trail = self.last_parent_items@;
                let _ = self.last_parent_items.pop_back();
                assert(trail.len() > 0 ==> self.last_parent_items@ == trail.drop_last());
            },
        }
        self.last_retrieved_item = Some(item);
        self.last_retrieved_comments = Some(comments);
    }

    /// Removes the comment at `numb` from the cached comments and returns it.
    /// Returns nothing, and changes nothing, where no comments are cached or
    /// `numb` is past their end.
    pub fn get_comment(&mut self, numb: usize) -> (comment: Option<HnItem>)
        ensures
            comment == old(self)@.taken(numb as int),
            final(self)@ == old(self)@.after_take(numb as int),
            old(self)@.consistent() ==> final(self)@.consistent(),
    {
        match &mut self.last_retrieved_comments {
            Some(comments) => {
                if numb < comments.len() {
                    Some(comments.remove(numb))
                } else {
                    None
                }
            },
            None => None,
        }
    }

    /// Removes the comment at `numb` and returns it, but only where that
    /// comment lists at least one child. Otherwise returns nothing and leaves
    /// the cache as it was: the row cannot be expanded.
    pub fn get_comment_if_kids(&mut self, numb: usize) -> (comment: Option<HnItem>)
        ensures
            comment == old(self)@.taken_if_kids(numb as int),
            final(self)@ == old(self)@.after_take_if_kids(numb as int),
            old(self)@.consistent() ==> final(self)@.consistent(),
    {
        match &mut self.last_retrieved_comments {
            Some(comments) => {
                if numb < comments.len() && comment_has_kids(&comments[numb]) {
                    Some(comments.remove(numb))
                } else {
                    None
                }
            },
            None => None,
        }
    }

    /// The number of top stories cached, or nothing where none were fetched.
    pub fn stories_len(&self) -> (count: Option<usize>)
        ensures
            count is Some == self@.story_count() is Some,
            count matches Some(n) ==> self@.story_count() == Some(n as nat),
    {
        match &self.retrieved_top_stories {
            Some(top_stories) => Some(top_stories.values.len()),
            None => None,
        }
    }

    /// The number of comments cached, or nothing where none were loaded.
    pub fn comments_len(&self) -> (count: Option<usize>)
        ensures
            count is Some == self@.comment_count() is Some,
            count matches Some(n) ==> self@.comment_count() == Some(n as nat),
    {
        match &self.last_retrieved_comments {
            Some(comments) => Some(comments.len()),
            None => None,
        }
    }

    /// The top stories that page `page` shows, in the order of their rank,
    /// each with the number of its row; nothing where no top stories were
    /// fetched. Rows are numbered from one through the whole list, so the
    /// first row of page `p` has the number `p * PAGE_SIZE + 1`.
    pub fn stories_on_page(&self, page: i32) -> (rows: Option<Vec<(usize, i32)>>)
        ensures
            match self@.top_stories {
                Some(all) => rows matches Some(shown) && shown@ == numbered_page(all, page as int),
                None => rows is None,
            },
    {
        match &self.retrieved_top_stories {
            Some(list) => {
                let (start, end) = page_bounds(page, list.values.len());
                let ghost all = list.values@;
                let mut shown: Vec<(usize, i32)> = Vec::new();
                let mut i: usize = start;
                while i < end
                    invariant
                        start <= i <= end <= list.values@.len(),
                        all == list.values@,
                        start == page_start(page as int, all.len()),
                        end == page_end(page as int, all.len()),
                        numbered_page(all, page as int).len() == end - start,
                        shown@.len() == i - start,
                        forall|k: int|
                            0 <= k < shown@.len() ==> shown@[k] == numbered_page(
                                all,
                                page as int,
                            )[k],
                    decreases end - i,
                {
                    shown.push((i + 1, list.values[i]));
                    i += 1;
                }
                assert(shown@ =~= numbered_page(all, page as int));
                Some(shown)
            },
            None => None,
        }
    }

    /// The top story that stands on the row numbered `numb`, where page
    /// `page` shows that row; nothing where no top stories were fetched or
    /// the row is not on the page.
    pub fn story_on_row(&self, page: i32, numb: usize) -> (id: Option<i32>)
        ensures
            id == self@.story_on_row(page as int, numb as int),
    {
        match &self.retrieved_top_stories {
            Some(list) => {
                let (start, end) = page_bounds(page, list.values.len());
                if numb >= 1 && start <= numb - 1 && numb - 1 < end {
                    Some(list.values[numb - 1])
                } else {
                    None
                }
            },
            None => None,
        }
    }

    /// The comments that page `page` shows, in their order; nothing where no
    /// comments are loaded.
    pub fn comments_on_page(&self, page: i32) -> (items: Option<Vec<&HnItem>>)
        ensures
            match self@.comments {
                Some(all) => items matches Some(shown) && borrowed_items(shown@) == page_of(
                    all,
                    page as int,
                ),
                None => items is None,
            },
    {
        match &self.last_retrieved_comments {
            Some(comments) => {
                let (start, end) = page_bounds(page, comments.len());
                let mut shown: Vec<&HnItem> = Vec::new();
                let mut i: usize = start;
                while i < end
                    invariant
                        start <= i <= end <= comments@.len(),
                        borrowed_items(shown@) == comments@.subrange(start as int, i as int),
                    decreases end - i,
                {
                    let ghost before = borrowed_items(shown@);
                    shown.push(&comments[i]);
                    assert(borrowed_items(shown@) == before.push(comments@[i as int]));
                    assert(comments@.subrange(start as int, i + 1) == comments@.subrange(
                        start as int,
                        i as int,
                    ).push(comments@[i as int]));
                    i += 1;
                }
                Some(shown)
            },
            None => None,
        }
    }

    /// The list cached for a ranking, where one was fetched.
    pub fn story_list(&self, category: StoryCategory) -> (list: Option<&HnListOfItems>)
        ensures
            list_view_ref(list) == self@.story_list(category),
    {
        match category {
            StoryCategory::Top => self.retrieved_top_stories.as_ref(),
            StoryCategory::Best => self.retrieved_best_stories.as_ref(),
            StoryCategory::New => self.retrieved_new_stories.as_ref(),
        }
    }

    /// The item that is open, where one is.
    pub fn open_item(&self) -> (item: Option<&HnItem>)
        ensures
            match item {
                Some(i) => self@.open_item == Some(*i),
                None => self@.open_item is None,
            },
    {
        self.last_retrieved_item.as_ref()
    }

    /// The trail of ancestors, the oldest first.
    pub fn ancestors(&self) -> (trail: &VecDeque<HnItem>)
        ensures
            trail@ == self@.ancestors,
    {
        &self.last_parent_items
    }

    /// The comments that are loaded, where any are.
    pub fn comments(&self) -> (items: Option<&Vec<HnItem>>)
        ensures
            match items {
                Some(v) => self@.comments == Some(v@),
                None => self@.comments is None,
            },
    {
        self.last_retrieved_comments.as_ref()
    }
}

/// The rows that page `page` shows of a list, each with its number: the row
/// at position `k` of the page is row `page_start + k` of the list and has
/// the number `page_start + k + 1`.
pub open spec fn numbered_page(rows: Seq<i32>, page: int) -> Seq<(usize, i32)> {
    Seq::new(
        page_of(rows, page).len(),
        |k: int|
            (
                (page_start(page, rows.len()) + k + 1) as usize,
                rows[page_start(page, rows.len()) + k],
            ),
    )
}

/// The items that a list of borrowed items refers to.
pub open spec fn borrowed_items(items: Seq<&HnItem>) -> Seq<HnItem> {
    Seq::new(items.len(), |i: int| *items[i])
}

/// The ids of an optional borrowed story list.
pub open spec fn list_view_ref(list: Option<&HnListOfItems>) -> Option<Seq<i32>> {
    match list {
        Some(l) => Some(l@),
        None => None,
    }
}

/// Taking the comment at one index twice in a row never hands out the same
/// entry twice: the first take removes it, so the second hands out the entry
/// that followed it, or nothing where none followed. Where no entry of the
/// list occurs twice, the two results differ. Where no comment stands at the
/// index, the take hands out nothing and leaves the cache as it was.
pub proof fn lemma_take_twice(cache: CacheView, index: int)
    ensures
        cache.has_comment_at(index) ==> {
            &&& cache.taken(index) == Some(cache.comments->0[index])
            &&& cache.after_take(index).comments->0.len() == cache.comments->0.len() - 1
            &&& cache.after_take(index).taken(index) == if index + 1 < cache.comments->0.len() {
                Some(cache.comments->0[index + 1])
            } else {
                None
            }
            &&& cache.comments->0.no_duplicates() ==> cache.after_take(index).taken(index)
                != cache.taken(index)
        },
        !cache.has_comment_at(index) ==> cache.taken(index) is None && cache.after_take(index)
            == cache,
{
    if cache.has_comment_at(index) {
        let before = cache.comments->0;
        let after = cache.after_take(index).comments->0;
        assert(after == before.remove(index));
        if index + 1 < before.len() {
            assert(after[index] == before[index + 1]);
        }
    }
}

/// Taking for expansion hands out nothing, and leaves the cache as it was and
/// the comment list as long as it was, where the comment at the index lists no
/// child: its list of child ids is empty or absent.
pub proof fn lemma_no_kids_no_take(cache: CacheView, index: int)
    requires
        cache.has_comment_at(index) ==> !cache.comments->0[index].has_kids(),
    ensures
        cache.taken_if_kids(index) is None,
        cache.after_take_if_kids(index) == cache,
        cache.after_take_if_kids(index).comment_count() == cache.comment_count(),
{
}

/// Opening an item from a listing leaves no ancestor on the trail, whatever
/// was open and whatever the trail held before.
pub proof fn lemma_listing_clears_trail(
    cache: CacheView,
    item: HnItem,
    comments: Seq<HnItem>,
)
    ensures
        cache.with_open_item(item, comments, OpenedVia::Listing).ancestors.len() == 0,
{
}

/// Every operation on the cache keeps it consistent: comments are held only
/// for an item that is open.
pub proof fn lemma_operations_keep_consistency(
    cache: CacheView,
    category: StoryCategory,
    list: Seq<i32>,
    item: HnItem,
    comments: Seq<HnItem>,
    via: OpenedVia,
    index: int,
)
    requires
        cache.consistent(),
    ensures
        CacheView::empty().consistent(),
        cache.with_story_list(category, list).consistent(),
        cache.with_open_item(item, comments, via).consistent(),
        cache.after_take(index).consistent(),
        cache.after_take_if_kids(index).consistent(),
{
}

/// The number that a page shows beside a story leads back to that story:
/// asking for the row of that number on that page gives the story's id.
pub proof fn lemma_row_number_finds_its_story(cache: CacheView, page: int, k: int)
    requires
        cache.top_stories is Some,
        0 <= k < numbered_page(cache.top_stories->0, page).len(),
        cache.top_stories->0.len() <= usize::MAX,
    ensures
        cache.story_on_row(page, numbered_page(cache.top_stories->0, page)[k].0 as int) == Some(
            numbered_page(cache.top_stories->0, page)[k].1,
        ),
        numbered_page(cache.top_stories->0, page)[k].1 == page_of(cache.top_stories->0, page)[k],
{
}

} // verus!
