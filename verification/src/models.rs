//! The entities that the content API serves: items, id lists, users, and the
//! frame that holds one expanded comment with its replies.

use vstd::prelude::*;

verus! {

/// An ordered list of item ids, as a ranking endpoint returns it. The order
/// is the rank.
#[derive(Debug, Clone)]
pub struct HnListOfItems {
    pub values: Vec<i32>,
}

/// A node of the content tree: a story, a comment, a job, a poll.
///
/// Every field that the API may leave out is an `Option`; `by` is filled with
/// [`default_user`] where the payload has no author. `time` is the creation
/// time in whole seconds since the Unix epoch.
#[derive(Debug, Clone)]
pub struct HnItem {
    pub by: String,
    pub parent: Option<i32>,
    pub descendants: Option<i32>,
    pub id: i32,
    pub kids: Option<Vec<i32>>,
    pub title: Option<String>,
    pub score: Option<i32>,
    pub text: Option<String>,
    pub time: i64,
    pub type_str: String,
    pub url: Option<String>,
    pub dead: Option<bool>,
}

/// One expanded comment: the parent, its direct replies in order, and how
/// deep below the story the parent sits.
#[derive(Debug, Clone)]
pub struct HnItemCommentMap {
    pub parent: HnItem,
    pub comments: Vec<HnItem>,
    pub depth: usize,
}

/// A user profile. `created` is in whole seconds since the Unix epoch.
#[derive(Debug, Clone)]
pub struct HnUser {
    pub about: String,
    pub created: i64,
    pub id: String,
    pub karma: i32,
    pub submitted: Vec<i32>,
}

/// The mathematical value of an [`HnItem`]: strings as sequences of
/// characters, the child ids as a sequence.
pub struct HnItemView {
    pub by: Seq<char>,
    pub parent: Option<i32>,
    pub descendants: Option<i32>,
    pub id: i32,
    pub kids: Option<Seq<i32>>,
    pub title: Option<Seq<char>>,
    pub score: Option<i32>,
    pub text: Option<Seq<char>>,
    pub time: i64,
    pub type_str: Seq<char>,
    pub url: Option<Seq<char>>,
    pub dead: Option<bool>,
}

/// The mathematical value of an [`HnUser`].
pub struct HnUserView {
    pub about: Seq<char>,
    pub created: i64,
    pub id: Seq<char>,
    pub karma: i32,
    pub submitted: Seq<i32>,
}

/// The characters of an optional string.
pub open spec fn text_view(s: Option<String>) -> Option<Seq<char>> {
    match s {
        Some(t) => Some(t@),
        None => None,
    }
}

/// The ids of an optional id vector.
pub open spec fn ids_view(v: Option<Vec<i32>>) -> Option<Seq<i32>> {
    match v {
        Some(ids) => Some(ids@),
        None => None,
    }
}

impl View for HnItem {
    type V = HnItemView;

    open spec fn view(&self) -> HnItemView {
        HnItemView {
            by: self.by@,
            parent: self.parent,
            descendants: self.descendants,
            id: self.id,
            kids: ids_view(self.kids),
            title: text_view(self.title),
            score: self.score,
            text: text_view(self.text),
            time: self.time,
            type_str: self.type_str@,
            url: text_view(self.url),
            dead: self.dead,
        }
    }
}

impl View for HnUser {
    type V = HnUserView;

    open spec fn view(&self) -> HnUserView {
        HnUserView {
            about: self.about@,
            created: self.created,
            id: self.id@,
            karma: self.karma,
            submitted: self.submitted@,
        }
    }
}

impl View for HnListOfItems {
    type V = Seq<i32>;

    open spec fn view(&self) -> Seq<i32> {
        self.values@
    }
}

/// The author name that stands in where a payload names none.
pub open spec fn default_user_text() -> Seq<char> {
    "Undefined user"@
}

/// The author name that stands in where a payload names none.
pub fn default_user() -> (name: String)
    ensures
        name@ == default_user_text(),
{
    String::from_str("Undefined user")
}

impl HnItemView {
    /// Whether the item lists at least one child id.
    pub open spec fn has_kids(self) -> bool {
        match self.kids {
            Some(ids) => ids.len() > 0,
            None => false,
        }
    }
}

impl HnItem {
    /// Whether the item lists at least one child id.
    pub open spec fn has_kids(&self) -> bool {
        self@.has_kids()
    }
}

/// Whether a comment can be expanded: true exactly when its list of child ids
/// is present and not empty.
pub fn comment_has_kids(item: &HnItem) -> (yes: bool)
    ensures
        yes == item.has_kids(),
{
    match &item.kids {
        Some(ids) => ids.len() > 0,
        None => false,
    }
}

impl HnItemCommentMap {
    /// The frame of a comment that was expanded in the listing of a story:
    /// it sits at depth zero.
    pub fn outermost(parent: HnItem, comments: Vec<HnItem>) -> (frame: HnItemCommentMap)
        ensures
            frame.parent == parent,
            frame.comments == comments,
            frame.depth == 0,
    {
        HnItemCommentMap { parent, comments, depth: 0 }
    }

    /// The frame of a comment that was expanded among the replies of this
    /// frame: it sits one deeper. Nothing where the depth cannot be counted
    /// any further.
    pub fn nested(&self, parent: HnItem, comments: Vec<HnItem>) -> (frame: Option<
        HnItemCommentMap,
    >)
        ensures
            match frame {
                Some(inner) => {
                    &&& self.depth < usize::MAX
                    &&& inner.parent == parent
                    &&& inner.comments == comments
                    &&& inner.depth == self.depth + 1
                },
                None => self.depth == usize::MAX,
            },
    {
        if self.depth < usize::MAX {
            Some(HnItemCommentMap { parent, comments, depth: self.depth + 1 })
        } else {
            None
        }
    }
}

} // verus!
